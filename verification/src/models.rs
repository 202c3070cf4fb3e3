//! Domain model for audio library entries.

use vstd::prelude::*;
use vstd::string::*;

use crate::decimal::{decimal, format_i64};

verus! {

/// A single stored audio entry: a user-defined title plus the absolute path of
/// the MP3 file it refers to.
///
/// The library stores only a *reference* to the file: the file itself stays
/// wherever the user placed it.
#[derive(Debug)]
pub struct AudioEntry {
    /// Stable database identifier.
    pub id: i64,
    /// User-defined display title.
    pub title: String,
    /// Absolute path of the audio file on disk.
    pub file_path: String,
    /// Day the entry was created, in `YYYY-MM-DD` form (UTC).
    pub created_at: String,
}

/// What an [`AudioEntry`] stands for.
pub struct EntryView {
    pub id: i64,
    pub title: Seq<char>,
    pub file_path: Seq<char>,
    pub created_at: Seq<char>,
}

impl View for AudioEntry {
    type V = EntryView;

    open spec fn view(&self) -> EntryView {
        EntryView {
            id: self.id,
            title: self.title@,
            file_path: self.file_path@,
            created_at: self.created_at@,
        }
    }
}

/// What a sequence of entries stands for.
pub open spec fn entry_views(entries: Seq<AudioEntry>) -> Seq<EntryView> {
    entries.map_values(|entry: AudioEntry| entry@)
}

impl AudioEntry {
    /// An entry that has not been stored yet: its creation day is empty.
    pub fn new(id: i64, title: &str, file_path: &str) -> (r: Self)
        ensures
            r@ == (EntryView {
                id,
                title: title@,
                file_path: file_path@,
                created_at: Seq::empty(),
            }),
    {
        AudioEntry {
            id,
            title: title.to_owned(),
            file_path: file_path.to_owned(),
            created_at: String::new(),
        }
    }
}

impl Clone for AudioEntry {
    fn clone(&self) -> (r: Self)
        ensures
            r == *self,
    {
        AudioEntry {
            id: self.id,
            title: self.title.clone(),
            file_path: self.file_path.clone(),
            created_at: self.created_at.clone(),
        }
    }
}

/// Entries compare by value.
impl PartialEq for AudioEntry {
    fn eq(&self, other: &Self) -> (r: bool) {
        self.id == other.id && self.title == other.title && self.file_path == other.file_path
            && self.created_at == other.created_at
    }
}

impl vstd::std_specs::cmp::PartialEqSpecImpl for AudioEntry {
    open spec fn obeys_eq_spec() -> bool {
        true
    }

    open spec fn eq_spec(&self, other: &Self) -> bool {
        self@ == other@
    }
}

impl Eq for AudioEntry {

}

/// A copy of `entries`.
pub fn copy_entries(entries: &Vec<AudioEntry>) -> (r: Vec<AudioEntry>)
    ensures
        r@ == entries@,
{
    let mut r: Vec<AudioEntry> = Vec::new();
    let mut i: usize = 0;
    while i < entries.len()
        invariant
            i <= entries@.len(),
            r@ == entries@.take(i as int),
        decreases entries@.len() - i,
    {
        r.push(entries[i].clone());
        i = i + 1;
    }
    r
}

/// Where the first entry with this id stands.
pub open spec fn position(entries: Seq<EntryView>, id: i64) -> Option<nat>
    decreases entries.len(),
{
    if entries.len() == 0 {
        None
    } else if entries[0].id == id {
        Some(0)
    } else {
        match position(entries.drop_first(), id) {
            Some(k) => Some(k + 1),
            None => None,
        }
    }
}

/// The first entry with this id.
pub open spec fn entry_with_id(entries: Seq<EntryView>, id: i64) -> Option<EntryView> {
    match position(entries, id) {
        Some(k) => Some(entries[k as int]),
        None => None,
    }
}

/// [`position`] is the least index of an entry with the id, and there is none
/// exactly where no entry has the id.
pub proof fn lemma_position(entries: Seq<EntryView>, id: i64)
    ensures
        position(entries, id) is None <==> (forall|i: int|
            0 <= i < entries.len() ==> (#[trigger] entries[i]).id != id),
        position(entries, id) matches Some(k) ==> {
            &&& k < entries.len()
            &&& entries[k as int].id == id
            &&& forall|i: int| 0 <= i < k ==> (#[trigger] entries[i]).id != id
        },
    decreases entries.len(),
{
    if entries.len() > 0 && entries[0].id != id {
        let rest = entries.drop_first();
        lemma_position(rest, id);
        assert(forall|i: int| 0 < i < entries.len() ==> entries[i] == rest[i - 1]);
        assert(forall|i: int| 0 <= i < rest.len() ==> rest[i] == entries[i + 1]);
    }
}

proof fn lemma_position_is(entries: Seq<EntryView>, id: i64, k: nat)
    requires
        k < entries.len(),
        entries[k as int].id == id,
        forall|i: int| 0 <= i < k ==> (#[trigger] entries[i]).id != id,
    ensures
        position(entries, id) == Some(k),
{
    lemma_position(entries, id);
    if let Some(j) = position(entries, id) {
        if j < k {
            assert(entries[j as int].id != id);
        }
    }
}

/// Where the first entry with this id stands in `entries`.
pub fn find_position(entries: &Vec<AudioEntry>, id: i64) -> (r: Option<usize>)
    ensures
        match r {
            Some(k) => position(entry_views(entries@), id) == Some(k as nat),
            None => position(entry_views(entries@), id) is None,
        },
{
    let ghost views = entry_views(entries@);
    let mut i: usize = 0;
    while i < entries.len()
        invariant
            i <= entries@.len(),
            views == entry_views(entries@),
            forall|j: int| 0 <= j < i ==> (#[trigger] views[j]).id != id,
        decreases entries@.len() - i,
    {
        assert(views[i as int] == entries@[i as int]@);
        if entries[i].id == id {
            proof {
                lemma_position_is(views, id, i as nat);
            }
            return Some(i);
        }
        i = i + 1;
    }
    proof {
        lemma_position(views, id);
    }
    None
}

/// The first of `entries` with this id.
pub fn find_entry<'a>(entries: &'a Vec<AudioEntry>, id: i64) -> (r: Option<&'a AudioEntry>)
    ensures
        match r {
            Some(entry) => entry_with_id(entry_views(entries@), id) == Some(entry@),
            None => entry_with_id(entry_views(entries@), id) is None,
        },
{
    match find_position(entries, id) {
        Some(k) => {
            proof {
                lemma_position(entry_views(entries@), id);
            }
            Some(&entries[k])
        },
        None => None,
    }
}

/// The entries without those of an id, in their order.
pub open spec fn without(entries: Seq<EntryView>, id: i64) -> Seq<EntryView> {
    entries.filter(|entry: EntryView| entry.id != id)
}

/// The entries without those of an id, in their order.
pub fn remove_entry(entries: &Vec<AudioEntry>, id: i64) -> (r: Vec<AudioEntry>)
    ensures
        entry_views(r@) == without(entry_views(entries@), id),
{
    let ghost views = entry_views(entries@);
    let mut r: Vec<AudioEntry> = Vec::new();
    let mut i: usize = 0;
    assert(entry_views(r@) =~= without(views.take(0), id)) by {
        reveal(Seq::filter);
    }
    while i < entries.len()
        invariant
            i <= entries@.len(),
            views == entry_views(entries@),
            entry_views(r@) == without(views.take(i as int), id),
        decreases entries@.len() - i,
    {
        let ghost kept = entry_views(r@);
        if entries[i].id != id {
            r.push(entries[i].clone());
            assert(entry_views(r@) =~= kept.push(views[i as int]));
        }
        proof {
            reveal(Seq::filter);
            assert(views.take(i + 1).drop_last() =~= views.take(i as int));
        }
        i = i + 1;
    }
    assert(views.take(i as int) =~= views);
    r
}

/// How `{:?}` writes a string: in quotation marks, with escapes where the text
/// holds a quotation mark, a backslash or a character that does not print.
pub uninterp spec fn quoted(text: Seq<char>) -> Seq<char>;

/// The `{:?}` text of `text`, by `std`'s `Debug` for `str`.
///
/// Claimed of it: the result depends on the characters of `text` alone. Which
/// characters are escaped, and how, is left unsaid.
#[verifier::external_body]
fn quote(text: &str) -> (r: String)
    ensures
        r@ == quoted(text@),
{
    format!("{:?}", text)
}

/// The line that describes an entry in an error report, from the quoted texts
/// of its fields.
pub open spec fn description(
    id: i64,
    title: Seq<char>,
    file_path: Seq<char>,
    created_at: Seq<char>,
) -> Seq<char> {
    "AudioEntry { id: "@ + decimal(id as int) + ", title: "@ + title + ", file_path: "@ + file_path
        + ", created_at: "@ + created_at + " }"@
}

/// Put the description of an entry together from its quoted fields.
pub fn describe(id: i64, title: &str, file_path: &str, created_at: &str) -> (r: String)
    ensures
        r@ == description(id, title@, file_path@, created_at@),
{
    let mut r = "AudioEntry { id: ".to_owned();
    r.append(format_i64(id).as_str());
    r.append(", title: ");
    r.append(title);
    r.append(", file_path: ");
    r.append(file_path);
    r.append(", created_at: ");
    r.append(created_at);
    r.append(" }");
    r
}

impl AudioEntry {
    /// The line that describes this entry in an error report.
    pub fn debug_text(&self) -> (r: String)
        ensures
            r@ == self@.debug_view(),
    {
        describe(
            self.id,
            quote(self.title.as_str()).as_str(),
            quote(self.file_path.as_str()).as_str(),
            quote(self.created_at.as_str()).as_str(),
        )
    }
}

impl EntryView {
    /// The line that describes this entry in an error report.
    pub open spec fn debug_view(self) -> Seq<char> {
        description(self.id, quoted(self.title), quoted(self.file_path), quoted(self.created_at))
    }
}

/// The entry that an id finds is one of the entries, has that id, and is the first
/// that has it; and an id finds one exactly if some entry has it.
pub proof fn law_entry_is_found_by_its_id(entries: Seq<EntryView>, id: i64)
    ensures
        entry_with_id(entries, id) is Some <==> exists|k: int|
            0 <= k < entries.len() && (#[trigger] entries[k]).id == id,
        entry_with_id(entries, id) matches Some(entry) ==> exists|k: int|
            0 <= k < entries.len() && #[trigger] entries[k] == entry && entry.id == id && forall|
                j: int,
            |
                0 <= j < k ==> (#[trigger] entries[j]).id != id,
{
    lemma_position(entries, id);
    if let Some(k) = position(entries, id) {
        assert(entries[k as int].id == id);
    }
}

/// The description of an entry holds its fields in order, each as it was quoted,
/// between the names of the fields.
pub proof fn law_description_holds_every_field(
    id: i64,
    title: Seq<char>,
    file_path: Seq<char>,
    created_at: Seq<char>,
)
    ensures
        ({
            let text = description(id, title, file_path, created_at);
            let empty = description(id, seq![], seq![], seq![]);
            let head = "AudioEntry { id: "@ + decimal(id as int) + ", title: "@;
            let middle = ", file_path: "@;
            let a = head.len() as int;
            let b = a + title.len() + middle.len();
            let c = b + file_path.len() + ", created_at: "@.len();
            &&& text.len() == empty.len() + title.len() + file_path.len() + created_at.len()
            &&& text.take(a) == head
            &&& text.subrange(a, a + title.len()) == title
            &&& text.subrange(a + title.len(), b) == middle
            &&& text.subrange(b, b + file_path.len()) == file_path
            &&& text.subrange(b + file_path.len(), c) == ", created_at: "@
            &&& text.subrange(c, c + created_at.len()) == created_at
            &&& text.skip(c + created_at.len()) == " }"@
        }),
{
    let text = description(id, title, file_path, created_at);
    let head = "AudioEntry { id: "@ + decimal(id as int) + ", title: "@;
    let a = head.len() as int;
    let b = a + title.len() + ", file_path: "@.len();
    let c = b + file_path.len() + ", created_at: "@.len();
    assert(text.take(a) =~= head);
    assert(text.subrange(a, a + title.len()) =~= title);
    assert(text.subrange(a + title.len(), b) =~= ", file_path: "@);
    assert(text.subrange(b, b + file_path.len()) =~= file_path);
    assert(text.subrange(b + file_path.len(), c) =~= ", created_at: "@);
    assert(text.subrange(c, c + created_at.len()) =~= created_at);
    assert(text.skip(c + created_at.len()) =~= " }"@);
}

} // verus!
