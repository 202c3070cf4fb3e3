//! The popover listing stored audio entries.
//!
//! Rows are the stored entries in display order. The list is rebuilt wholesale
//! whenever entries change, so a row's index is the index of its entry.

use vstd::prelude::*;

use crate::models::{
    copy_entries, entry_views, find_position, lemma_position, position, AudioEntry, EntryView,
};
use crate::ui::action::{Actions, Page, UiAction};

verus! {

/// The library popover: the entries it shows.
#[derive(Debug)]
pub struct EntryListPopover {
    entries: Vec<AudioEntry>,
}

impl View for EntryListPopover {
    type V = Seq<EntryView>;

    closed spec fn view(&self) -> Seq<EntryView> {
        entry_views(self.entries@)
    }
}

/// Highlighting the row for `id` among `entries`, or none where there is no such
/// row.
pub open spec fn selection(entries: Seq<EntryView>, id: Option<i64>) -> UiAction<Seq<char>> {
    match id {
        Some(id) => match position(entries, id) {
            Some(k) => UiAction::SelectRow(k as usize),
            None => UiAction::UnselectRows,
        },
        None => UiAction::UnselectRows,
    }
}

/// The rows for `entries`.
pub open spec fn rows(entries: Seq<EntryView>) -> Seq<UiAction<Seq<char>>> {
    entries.map_values(|entry: EntryView| UiAction::AppendRow(entry.title))
}

/// Showing `entries` with the row for `selected_id` highlighted.
pub open spec fn shown(entries: Seq<EntryView>, selected_id: Option<i64>) -> Seq<
    UiAction<Seq<char>>,
> {
    seq![UiAction::ClearRows] + rows(entries) + seq![
        UiAction::ShowPage(
            if entries.len() == 0 {
                Page::Empty
            } else {
                Page::List
            },
        ),
        selection(entries, selected_id),
    ]
}

/// The id of the entry that the row at `index` stands for.
pub open spec fn row_id(entries: Seq<EntryView>, index: int) -> Option<i64> {
    if 0 <= index < entries.len() {
        Some(entries[index].id)
    } else {
        None
    }
}

impl EntryListPopover {
    /// A popover without entries.
    pub fn new() -> (r: Self)
        ensures
            r@ == Seq::<EntryView>::empty(),
    {
        let r = EntryListPopover { entries: Vec::new() };
        assert(r@ =~= Seq::<EntryView>::empty());
        r
    }

    /// Replace the displayed entries, highlighting `selected_id` if given.
    ///
    /// Rows are rebuilt from scratch; the list is small so this is cheap.
    pub fn set_entries(&mut self, entries: &Vec<AudioEntry>, selected_id: Option<i64>) -> (r:
        Actions)
        ensures
            final(self)@ == entry_views(entries@),
            r@ == shown(entry_views(entries@), selected_id),
    {
        let ghost views = entry_views(entries@);
        self.entries = copy_entries(entries);
        let mut actions = Actions::new();
        actions.push(UiAction::ClearRows);
        let n: usize = entries.len();
        let mut i: usize = 0;
        while i < n
            invariant
                n == entries@.len(),
                i <= n,
                views == entry_views(entries@),
                actions@ == seq![UiAction::ClearRows] + rows(views).take(i as int),
            decreases n - i,
        {
            let ghost before = actions@;
            actions.push(UiAction::AppendRow(entries[i].title.clone()));
            proof {
                assert(actions@ == before.push(rows(views)[i as int]));
                assert(rows(views).take(i + 1) =~= rows(views).take(i as int).push(
                    rows(views)[i as int],
                ));
                assert(actions@ =~= seq![UiAction::ClearRows] + rows(views).take(i + 1));
            }
            i = i + 1;
        }
        assert(rows(views).take(n as int) =~= rows(views));
        let page: Page = if n == 0 {
            Page::Empty
        } else {
            Page::List
        };
        actions.push(UiAction::ShowPage(page));
        actions.push(self.select(selected_id));
        assert(actions@ =~= shown(views, selected_id));
        actions
    }

    /// Highlight the row for `id`, clearing the highlight if `None`.
    pub fn select(&self, id: Option<i64>) -> (r: UiAction<String>)
        ensures
            r@ == selection(self@, id),
    {
        match id {
            Some(id) => match find_position(&self.entries, id) {
                Some(k) => UiAction::SelectRow(k),
                None => UiAction::UnselectRows,
            },
            None => UiAction::UnselectRows,
        }
    }

    /// The id of the entry whose row, at `index`, the user activated.
    pub fn activated(&self, index: i32) -> (r: Option<i64>)
        ensures
            r == row_id(self@, index as int),
    {
        if index >= 0 && (index as usize) < self.entries.len() {
            Some(self.entries[index as usize].id)
        } else {
            None
        }
    }
}

impl Default for EntryListPopover {
    fn default() -> (r: Self)
        ensures
            r@ == Seq::<EntryView>::empty(),
    {
        EntryListPopover::new()
    }
}

/// Activating the row that is highlighted for an entry activates that entry.
pub proof fn law_highlighted_row_is_its_entry(entries: Seq<EntryView>, id: i64)
    requires
        entries.len() <= usize::MAX,
    ensures
        match selection(entries, Some(id)) {
            UiAction::SelectRow(k) => row_id(entries, k as int) == Some(id),
            _ => forall|k: int| row_id(entries, k) != Some(id),
        },
{
    lemma_position(entries, id);
}

/// There is one row per entry, in the order of the entries.
pub proof fn law_rows_are_aligned_with_entries(
    entries: Seq<EntryView>,
    selected_id: Option<i64>,
    i: int,
)
    requires
        0 <= i < entries.len(),
    ensures
        shown(entries, selected_id)[0] == UiAction::<Seq<char>>::ClearRows,
        shown(entries, selected_id)[i + 1] == UiAction::AppendRow(entries[i].title),
        shown(entries, selected_id).len() == entries.len() + 3,
{
}

/// A row stands for the entry at its index, and there are no other rows.
pub proof fn law_row_stands_for_its_entry(entries: Seq<EntryView>, index: int, id: i64)
    ensures
        row_id(entries, index) == Some(id) <==> 0 <= index < entries.len() && entries[index].id
            == id,
        row_id(entries, index) is None <==> index < 0 || index >= entries.len(),
{
}

/// The first row of an entry is highlighted; no row is highlighted for an id that
/// no entry has, or for none.
pub proof fn law_first_row_of_an_entry_is_highlighted(entries: Seq<EntryView>, id: i64, k: int)
    requires
        entries.len() <= usize::MAX,
        0 <= k < entries.len(),
        entries[k].id == id,
        forall|j: int| 0 <= j < k ==> (#[trigger] entries[j]).id != id,
    ensures
        selection(entries, Some(id)) == UiAction::<Seq<char>>::SelectRow(k as usize),
        selection(entries, None) == UiAction::<Seq<char>>::UnselectRows,
{
    lemma_position(entries, id);
}

/// The list is shown exactly if there are entries, and the highlight comes last.
pub proof fn law_page_fits_the_entries(entries: Seq<EntryView>, selected_id: Option<i64>)
    ensures
        ({
            let actions = shown(entries, selected_id);
            let n = actions.len() as int;
            &&& n == entries.len() + 3
            &&& entries.len() == 0 ==> actions[n - 2] == UiAction::<Seq<char>>::ShowPage(
                Page::Empty,
            )
            &&& entries.len() > 0 ==> actions[n - 2] == UiAction::<Seq<char>>::ShowPage(Page::List)
            &&& actions[n - 1] == selection(entries, selected_id)
        }),
{
}

} // verus!
