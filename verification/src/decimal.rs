//! Decimal text of integers, in both directions.

use vstd::prelude::*;
use vstd::string::*;

use crate::text::characters;

verus! {

/// The magnitude of the smallest `i64`, one more than the largest.
pub const MAGNITUDE_LIMIT: u128 = 0x8000_0000_0000_0000;

/// The decimal digit with value `d`.
pub open spec fn digit_char(d: nat) -> char {
    ('0' as nat + d) as char
}

/// The decimal digits of `n`, without leading zeros.
pub open spec fn digits(n: nat) -> Seq<char>
    decreases n,
{
    if n < 10 {
        seq![digit_char(n)]
    } else {
        digits(n / 10).push(digit_char(n % 10))
    }
}

/// The decimal text of `i`, with a minus sign where it is negative.
pub open spec fn decimal(i: int) -> Seq<char> {
    if i < 0 {
        seq!['-'] + digits((-i) as nat)
    } else {
        digits(i as nat)
    }
}

/// Whether `c` is an ASCII digit.
pub open spec fn is_digit(c: char) -> bool {
    '0' <= c <= '9'
}

/// Whether every character of `s` is an ASCII digit.
pub open spec fn all_digits(s: Seq<char>) -> bool {
    forall|i: int| 0 <= i < s.len() ==> is_digit(#[trigger] s[i])
}

/// The number that a sequence of ASCII digits stands for.
pub open spec fn digits_value(s: Seq<char>) -> nat
    decreases s.len(),
{
    if s.len() == 0 {
        0
    } else {
        digits_value(s.drop_last()) * 10 + (s.last() as nat - '0' as nat) as nat
    }
}

/// Whether `s` starts with a plus or a minus sign.
pub open spec fn signed(s: Seq<char>) -> bool {
    s.len() > 0 && (s[0] == '-' || s[0] == '+')
}

/// What follows the sign, where there is one.
pub open spec fn unsigned_part(s: Seq<char>) -> Seq<char> {
    if signed(s) {
        s.skip(1)
    } else {
        s
    }
}

/// The number that `s` writes out: an optional sign and at least one digit.
pub open spec fn written_number(s: Seq<char>) -> int {
    if s.len() > 0 && s[0] == '-' {
        -(digits_value(unsigned_part(s)) as int)
    } else {
        digits_value(unsigned_part(s)) as int
    }
}

/// The `i64` that `s` writes out, if it writes one that fits.
pub open spec fn parsed(s: Seq<char>) -> Option<i64> {
    if unsigned_part(s).len() > 0 && all_digits(unsigned_part(s)) && i64::MIN <= written_number(s)
        <= i64::MAX {
        Some(written_number(s) as i64)
    } else {
        None
    }
}

/// The text of one decimal digit.
fn digit_text(d: u64) -> (r: &'static str)
    requires
        d < 10,
    ensures
        r@ == seq![digit_char(d as nat)],
{
    proof {
        reveal_strlit("0");
        reveal_strlit("1");
        reveal_strlit("2");
        reveal_strlit("3");
        reveal_strlit("4");
        reveal_strlit("5");
        reveal_strlit("6");
        reveal_strlit("7");
        reveal_strlit("8");
        reveal_strlit("9");
    }
    if d == 0 {
        "0"
    } else if d == 1 {
        "1"
    } else if d == 2 {
        "2"
    } else if d == 3 {
        "3"
    } else if d == 4 {
        "4"
    } else if d == 5 {
        "5"
    } else if d == 6 {
        "6"
    } else if d == 7 {
        "7"
    } else if d == 8 {
        "8"
    } else {
        "9"
    }
}

/// The decimal text of `n`.
pub fn format_u64(n: u64) -> (r: String)
    ensures
        r@ == digits(n as nat),
    decreases n,
{
    if n < 10 {
        digit_text(n).to_owned()
    } else {
        let mut r = format_u64(n / 10);
        r.append(digit_text(n % 10));
        proof {
            assert(digits((n / 10) as nat) + seq![digit_char((n % 10) as nat)] =~= digits(
                n as nat,
            ));
        }
        r
    }
}

/// The decimal text of `i`.
pub fn format_i64(i: i64) -> (r: String)
    ensures
        r@ == decimal(i as int),
{
    if i < 0 {
        proof {
            reveal_strlit("-");
        }
        let magnitude: u64 = (-(i as i128)) as u64;
        let mut r = "-".to_owned();
        r.append(format_u64(magnitude).as_str());
        r
    } else {
        format_u64(i as u64)
    }
}

/// The value of the digits of `chars` from `from` on: `None` where one of them
/// is no digit, or where the value is above [`MAGNITUDE_LIMIT`].
fn magnitude_from(chars: &Vec<char>, from: usize) -> (r: Option<u128>)
    requires
        from <= chars@.len(),
    ensures
        r is Some <==> all_digits(chars@.skip(from as int)) && digits_value(
            chars@.skip(from as int),
        ) <= MAGNITUDE_LIMIT,
        r matches Some(value) ==> value == digits_value(chars@.skip(from as int)),
{
    let ghost body = chars@.skip(from as int);
    let n: usize = chars.len();
    let mut next: usize = from;
    let mut value: u128 = 0;
    let mut over: bool = false;
    while next < n
        invariant
            from <= next <= n,
            n == chars@.len(),
            body == chars@.skip(from as int),
            forall|i: int| 0 <= i < next - from ==> is_digit(#[trigger] body[i]),
            over ==> digits_value(body.take(next - from)) > MAGNITUDE_LIMIT,
            !over ==> value == digits_value(body.take(next - from)) && value <= MAGNITUDE_LIMIT,
        decreases n - next,
    {
        let c: char = chars[next];
        assert(body[next - from] == c);
        if !('0' <= c && c <= '9') {
            assert(!is_digit(body[next - from]));
            return None;
        }
        proof {
            let longer = body.take(next - from + 1);
            assert(longer.drop_last() =~= body.take(next - from));
            assert(longer.last() == c);
        }
        if !over {
            let digit: u128 = (c as u32 - '0' as u32) as u128;
            let longer_value: u128 = value * 10 + digit;
            if longer_value > MAGNITUDE_LIMIT {
                over = true;
            } else {
                value = longer_value;
            }
        }
        next = next + 1;
    }
    assert(body.take(n - from) =~= body);
    if over {
        None
    } else {
        Some(value)
    }
}

/// The `i64` that `s` writes out in decimal: an optional sign and at least one
/// digit, nothing else, and no number that does not fit.
pub fn parse_i64(s: &str) -> (r: Option<i64>)
    ensures
        r == parsed(s@),
{
    let chars = characters(s);
    let n: usize = chars.len();
    if n == 0 {
        return None;
    }
    let negative: bool = chars[0] == '-';
    let from: usize = if negative || chars[0] == '+' {
        1
    } else {
        0
    };
    assert(s@.skip(0) =~= s@);
    assert(unsigned_part(s@) == s@.skip(from as int));
    if from == n {
        return None;
    }
    match magnitude_from(&chars, from) {
        None => None,
        Some(magnitude) => {
            let magnitude: i128 = magnitude as i128;
            if negative {
                Some((-magnitude) as i64)
            } else if magnitude <= 0x7fff_ffff_ffff_ffff {
                Some(magnitude as i64)
            } else {
                None
            }
        },
    }
}

proof fn lemma_digits(n: nat)
    ensures
        digits(n).len() > 0,
        all_digits(digits(n)),
        digits_value(digits(n)) == n,
    decreases n,
{
    reveal_with_fuel(digits_value, 2);
    if n < 10 {
        assert(digits(n).drop_last() =~= Seq::empty());
    } else {
        lemma_digits(n / 10);
        assert(digits(n).drop_last() =~= digits(n / 10));
        let front = digits(n / 10);
        assert(forall|i: int| 0 <= i < front.len() ==> digits(n)[i] == front[i]);
    }
}

/// Reading the decimal text of a number gives the number back.
pub proof fn law_parse_undoes_format(i: i64)
    ensures
        parsed(decimal(i as int)) == Some(i),
{
    if i < 0 {
        let magnitude = (-(i as int)) as nat;
        lemma_digits(magnitude);
        assert(decimal(i as int).skip(1) =~= digits(magnitude));
    } else {
        lemma_digits(i as nat);
        assert(is_digit(digits(i as nat)[0]));
    }
}

/// No two numbers have the same decimal text.
pub proof fn law_decimal_text_is_distinct(i: i64, j: i64)
    ensures
        decimal(i as int) == decimal(j as int) <==> i == j,
{
    law_parse_undoes_format(i);
    law_parse_undoes_format(j);
}

/// The text of a time of `seconds`: minutes without leading zeros, a colon and
/// two digits of seconds.
pub open spec fn time_text(seconds: u64) -> Seq<char> {
    digits((seconds / 60) as nat) + ":"@ + seq![
        digit_char(((seconds % 60) / 10) as nat),
        digit_char(((seconds % 60) % 10) as nat),
    ]
}

/// Format seconds as `m:ss`.
pub fn format_time(seconds: u64) -> (r: String)
    ensures
        r@ == time_text(seconds),
{
    let mut r = format_u64(seconds / 60);
    r.append(":");
    r.append(digit_text((seconds % 60) / 10));
    r.append(digit_text((seconds % 60) % 10));
    assert(r@ =~= time_text(seconds));
    r
}

/// Different times have different texts.
pub proof fn law_time_text_is_distinct(a: u64, b: u64)
    ensures
        time_text(a) == time_text(b) <==> a == b,
{
    if time_text(a) == time_text(b) {
        reveal_strlit(":");
        let x = digits((a / 60) as nat);
        let y = digits((b / 60) as nat);
        assert(time_text(a).len() == x.len() + 3);
        assert(time_text(b).len() == y.len() + 3);
        assert(x =~= time_text(a).take(x.len() as int));
        assert(y =~= time_text(b).take(y.len() as int));
        lemma_digits((a / 60) as nat);
        lemma_digits((b / 60) as nat);
        assert(a / 60 == b / 60);
        let n = x.len() as int;
        assert(time_text(a)[n + 1] == digit_char(((a % 60) / 10) as nat));
        assert(time_text(a)[n + 2] == digit_char(((a % 60) % 10) as nat));
        assert(time_text(b)[n + 1] == digit_char(((b % 60) / 10) as nat));
        assert(time_text(b)[n + 2] == digit_char(((b % 60) % 10) as nat));
    }
}

/// The decimal text of a number is a minus sign, where it is negative, and then
/// digits without a leading zero, unless it is 0.
pub proof fn law_decimal_text_is_canonical(i: int)
    ensures
        i < 0 ==> decimal(i).len() > 1 && decimal(i)[0] == '-' && all_digits(decimal(i).skip(1))
            && decimal(i)[1] != '0' && digits_value(decimal(i).skip(1)) == -i,
        i >= 0 ==> decimal(i).len() > 0 && all_digits(decimal(i)) && digits_value(decimal(i)) == i,
        i > 0 ==> decimal(i)[0] != '0',
        i == 0 ==> decimal(i) == seq!['0'],
{
    if i < 0 {
        let magnitude = (-i) as nat;
        lemma_digits(magnitude);
        lemma_no_leading_zero(magnitude);
        assert(decimal(i).skip(1) =~= digits(magnitude));
    } else {
        lemma_digits(i as nat);
        if i > 0 {
            lemma_no_leading_zero(i as nat);
        }
    }
}

proof fn lemma_no_leading_zero(n: nat)
    requires
        n > 0,
    ensures
        digits(n).len() > 0,
        digits(n)[0] != '0',
    decreases n,
{
    if n >= 10 {
        lemma_no_leading_zero(n / 10);
    }
}

/// A text of digits is read as the number that they stand for, with either sign
/// in front of it, where that number fits.
pub proof fn law_decimal_numbers_are_read(text: Seq<char>)
    requires
        text.len() > 0,
        all_digits(text),
    ensures
        digits_value(text) <= i64::MAX ==> {
            &&& parsed(text) == Some(digits_value(text) as i64)
            &&& parsed(seq!['+'] + text) == Some(digits_value(text) as i64)
        },
        digits_value(text) > i64::MAX ==> parsed(text) is None && parsed(seq!['+'] + text) is None,
        -digits_value(text) >= i64::MIN ==> parsed(seq!['-'] + text) == Some(
            (-digits_value(text)) as i64,
        ),
        -digits_value(text) < i64::MIN ==> parsed(seq!['-'] + text) is None,
{
    assert(is_digit(text[0]));
    assert((seq!['+'] + text).skip(1) =~= text);
    assert((seq!['-'] + text).skip(1) =~= text);
}

/// Nothing else is read: no empty text, no sign alone, and none with a character
/// that is neither a digit nor a sign in front.
pub proof fn law_other_texts_are_not_read(text: Seq<char>, k: int)
    requires
        text.len() == 0 || (text.len() == 1 && !is_digit(text[0])) || (0 <= k < text.len()
            && !is_digit(text[k]) && (k > 0 || (text[0] != '-' && text[0] != '+'))),
    ensures
        parsed(text) is None,
{
    let part = unsigned_part(text);
    if text.len() == 1 && !is_digit(text[0]) {
        if !signed(text) {
            assert(part[0] == text[0]);
        }
    } else if 0 <= k < text.len() {
        if signed(text) {
            assert(part[k - 1] == text[k]);
        } else {
            assert(part[k] == text[k]);
        }
    }
}

/// The text of a time is its minutes, without leading zeros, a colon, and two
/// digits of seconds below 60; together they are the time.
pub proof fn law_time_text_tells_the_time(seconds: u64)
    ensures
        ({
            let text = time_text(seconds);
            let colon = text.len() - 3;
            let minutes = text.take(colon);
            let rest = text.skip(colon + 1);
            &&& colon >= 1
            &&& text[colon] == ':'
            &&& all_digits(minutes)
            &&& all_digits(rest)
            &&& rest.len() == 2
            &&& digits_value(rest) < 60
            &&& digits_value(minutes) * 60 + digits_value(rest) == seconds
            &&& minutes.len() > 1 ==> minutes[0] != '0'
        }),
{
    reveal_strlit(":");
    let text = time_text(seconds);
    let colon = text.len() - 3;
    let m = (seconds / 60) as nat;
    let tens = ((seconds % 60) / 10) as nat;
    let ones = ((seconds % 60) % 10) as nat;
    lemma_digits(m);
    if m > 0 {
        lemma_no_leading_zero(m);
    }
    assert(text.take(colon) =~= digits(m));
    let rest = text.skip(colon + 1);
    assert(rest =~= seq![digit_char(tens), digit_char(ones)]);
    reveal_with_fuel(digits_value, 3);
    assert(rest.drop_last() =~= seq![digit_char(tens)]);
    assert(rest.drop_last().drop_last() =~= Seq::<char>::empty());
}

} // verus!
