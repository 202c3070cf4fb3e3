//! What the stored tables hold, and what a command does to them.

use vstd::prelude::*;

use crate::database::{
    begun, deleted, goes_on, inserted, listed, open_steps, remembered, selection_read,
    selection_text, written, CommandView, EventView, OpenStepView, WorkerStepView, SCHEMA,
};
use crate::decimal::{decimal, law_decimal_text_is_distinct, law_parse_undoes_format};
use crate::models::{without, EntryView};
use crate::worker::{
    answer, carried_out, heard, law_worker_ends_with_the_ui, outcome, sent, statements_left,
    AnswersView, TakenView,
};

verus! {

/// The contents of the database.
pub struct TablesView {
    /// The stored entries, in the order in which they were stored.
    pub rows: Seq<EntryView>,
    /// The largest id that was ever given out, 0 before the first.
    pub last_id: int,
    /// The remembered selection: `None` where nothing was ever stored, and
    /// `Some(None)` where the memory was cleared.
    pub selection: Option<Option<Seq<char>>>,
}

/// What the store adds by itself while a command runs.
pub struct StoreView {
    /// The entries in the order in which the store lists them.
    pub list: Seq<EntryView>,
    /// The day it is.
    pub today: Seq<char>,
    /// The id that it has for a new entry. The id of the table is declared
    /// `AUTOINCREMENT`: one that is not above all that were ever given out is
    /// refused.
    pub next_id: i64,
    /// The error of an insertion whose id is refused.
    pub no_id: Seq<char>,
}

impl StoreView {
    /// Whether there is an id for a new entry.
    pub open spec fn has_id(self, tables: TablesView) -> bool {
        self.next_id > tables.last_id
    }
}

impl TablesView {
    /// Ids are distinct and were given out in ascending order, and the memory
    /// holds the decimal text of an id or nothing.
    pub open spec fn wf(self) -> bool {
        &&& forall|i: int| 0 <= i < self.rows.len() ==> (#[trigger] self.rows[i]).id <= self.last_id
        &&& forall|i: int, j: int|
            0 <= i < j < self.rows.len() ==> (#[trigger] self.rows[i]).id < (
            #[trigger] self.rows[j]).id
        &&& match self.selection {
            Some(Some(text)) => exists|id: i64| text == #[trigger] decimal(id as int),
            _ => true,
        }
    }

    /// The tables of a new database.
    pub open spec fn empty() -> TablesView {
        TablesView { rows: seq![], last_id: 0, selection: None }
    }
}

/// The order of two texts, by their first difference.
pub open spec fn text_less(a: Seq<char>, b: Seq<char>) -> bool
    decreases a.len(),
{
    if b.len() == 0 {
        false
    } else if a.len() == 0 {
        true
    } else if a[0] != b[0] {
        a[0] < b[0]
    } else {
        text_less(a.drop_first(), b.drop_first())
    }
}

/// Whether entry `a` is listed before entry `b`: created on a later day, or on
/// the same day with a larger id.
pub open spec fn newer(a: EntryView, b: EntryView) -> bool {
    ||| text_less(b.created_at, a.created_at)
    ||| a.created_at == b.created_at && a.id > b.id
}

/// Whether `list` is the entries of `rows`, the newest first.
pub open spec fn is_listing(rows: Seq<EntryView>, list: Seq<EntryView>) -> bool {
    &&& forall|entry: EntryView| #[trigger] rows.contains(entry) <==> list.contains(entry)
    &&& forall|i: int, j: int|
        0 <= i < j < list.len() ==> newer(#[trigger] list[i], #[trigger] list[j])
}

/// Which statements fail while a command runs, and with which error.
pub struct FaultsView {
    pub list: Option<Seq<char>>,
    pub selection: Option<Seq<char>>,
    pub insert: Option<Seq<char>>,
    pub delete: Option<Seq<char>>,
    pub write: Option<Seq<char>>,
}

impl FaultsView {
    /// Every statement succeeds.
    pub open spec fn none() -> FaultsView {
        FaultsView { list: None, selection: None, insert: None, delete: None, write: None }
    }
}

/// What a statement answers that has `value` to answer, unless it fails.
pub open spec fn unless_fault<T>(value: T, fault: Option<Seq<char>>) -> Result<T, Seq<char>> {
    match fault {
        Some(error) => Err(error),
        None => Ok(value),
    }
}

/// The entry that an insertion stores: one of today, under the next id.
pub open spec fn new_entry(title: Seq<char>, file_path: Seq<char>, store: StoreView) -> EntryView {
    EntryView { id: store.next_id, title, file_path, created_at: store.today }
}

/// Why an insertion fails, if it does: there is no id for it, or its statement
/// fails for another reason.
pub open spec fn insert_fault(
    tables: TablesView,
    store: StoreView,
    faults: FaultsView,
) -> Option<Seq<char>> {
    match faults.insert {
        Some(error) => Some(error),
        None => if store.has_id(tables) {
            None
        } else {
            Some(store.no_id)
        },
    }
}

/// The tables and the event after `step` and all that follows it. A statement
/// that succeeds does what it says: listing and reading answer with what is
/// stored, inserting stores an entry of today under a new id, deleting removes
/// the rows of an id, and writing replaces the selection. A statement that fails
/// changes nothing.
pub open spec fn run(
    step: WorkerStepView,
    tables: TablesView,
    store: StoreView,
    faults: FaultsView,
) -> (TablesView, Option<EventView>)
    decreases statements_left(step),
{
    match step {
        WorkerStepView::Done(event) => (tables, event),
        WorkerStepView::ListEntries => run(
            listed(unless_fault(store.list, faults.list)),
            tables,
            store,
            faults,
        ),
        WorkerStepView::ReadSelection(purpose) => run(
            selection_read(purpose, unless_fault(tables.selection, faults.selection)),
            tables,
            store,
            faults,
        ),
        WorkerStepView::InsertEntry { title, file_path } => {
            let entry = new_entry(title, file_path, store);
            let fault = insert_fault(tables, store, faults);
            run(
                inserted(unless_fault(entry, fault)),
                if fault is Some {
                    tables
                } else {
                    TablesView {
                        rows: tables.rows.push(entry),
                        last_id: entry.id as int,
                        selection: tables.selection,
                    }
                },
                store,
                faults,
            )
        },
        WorkerStepView::DeleteEntry { id } => run(
            deleted(id, unless_fault((), faults.delete)),
            if faults.delete is Some {
                tables
            } else {
                TablesView {
                    rows: without(tables.rows, id),
                    last_id: tables.last_id,
                    selection: tables.selection,
                }
            },
            store,
            faults,
        ),
        WorkerStepView::WriteSelection { value, reply } => run(
            written(reply, unless_fault((), faults.write)),
            if faults.write is Some {
                tables
            } else {
                TablesView {
                    rows: tables.rows,
                    last_id: tables.last_id,
                    selection: Some(value),
                }
            },
            store,
            faults,
        ),
    }
}

/// The tables and the event after a command of which some statements may fail.
pub open spec fn try_command(
    command: CommandView,
    tables: TablesView,
    store: StoreView,
    faults: FaultsView,
) -> (TablesView, Option<EventView>) {
    run(begun(command), tables, store, faults)
}

/// The tables and the event after a command of which every statement succeeds.
pub open spec fn run_command(command: CommandView, tables: TablesView, store: StoreView) -> (
    TablesView,
    Option<EventView>,
) {
    try_command(command, tables, store, FaultsView::none())
}

/// What the statements of a command answer, given what is stored.
pub open spec fn answers_from(
    command: CommandView,
    tables: TablesView,
    store: StoreView,
    faults: FaultsView,
) -> AnswersView {
    AnswersView {
        list: unless_fault(store.list, faults.list),
        selection: unless_fault(tables.selection, faults.selection),
        insert: unless_fault(
            match command {
                CommandView::Insert { title, file_path } => new_entry(title, file_path, store),
                _ => new_entry(seq![], seq![], store),
            },
            insert_fault(tables, store, faults),
        ),
        delete: unless_fault((), faults.delete),
        write: unless_fault((), faults.write),
    }
}

/// A command is answered as its statements answer from what is stored.
pub proof fn law_commands_answer_from_the_tables(
    command: CommandView,
    tables: TablesView,
    store: StoreView,
    faults: FaultsView,
)
    ensures
        try_command(command, tables, store, faults).1 == answer(
            command,
            answers_from(command, tables, store, faults),
        ),
{
    reveal_with_fuel(run, 4);
    reveal_with_fuel(outcome, 4);
}

/// The tables and the event after a command, written out.
pub proof fn lemma_run_command(command: CommandView, tables: TablesView, store: StoreView)
    ensures
        run_command(command, tables, store) == match command {
            CommandView::Load => (
                tables,
                Some(
                    EventView::Loaded {
                        entries: store.list,
                        last_played: remembered(tables.selection),
                    },
                ),
            ),
            CommandView::Insert { title, file_path } => if store.has_id(tables) {
                let entry = new_entry(title, file_path, store);
                (
                    TablesView {
                        rows: tables.rows.push(entry),
                        last_id: entry.id as int,
                        selection: tables.selection,
                    },
                    Some(EventView::Inserted(entry)),
                )
            } else {
                (tables, Some(EventView::Error("Database error: "@ + store.no_id)))
            },
            CommandView::Delete { id } => (
                TablesView {
                    rows: without(tables.rows, id),
                    last_id: tables.last_id,
                    selection: if tables.selection == Some(Some(decimal(id as int))) {
                        Some(None)
                    } else {
                        tables.selection
                    },
                },
                Some(EventView::Deleted(id)),
            ),
            CommandView::SetLastPlayed { id } => (
                TablesView {
                    rows: tables.rows,
                    last_id: tables.last_id,
                    selection: Some(selection_text(id)),
                },
                None,
            ),
        },
{
    reveal_with_fuel(run, 4);
}

proof fn lemma_without_keeps_order(
    list: Seq<EntryView>,
    id: i64,
    before: spec_fn(EntryView, EntryView) -> bool,
)
    requires
        forall|i: int, j: int|
            0 <= i < j < list.len() ==> before(#[trigger] list[i], #[trigger] list[j]),
    ensures
        forall|i: int, j: int|
            0 <= i < j < without(list, id).len() ==> before(
                #[trigger] without(list, id)[i],
                #[trigger] without(list, id)[j],
            ),
    decreases list.len(),
{
    reveal(Seq::filter);
    if list.len() > 0 {
        let front = list.drop_last();
        lemma_without_keeps_order(front, id, before);
        let kept = without(front, id);
        assert forall|i: int| 0 <= i < kept.len() implies before(
            #[trigger] kept[i],
            list.last(),
        ) by {
            lemma_without_contains(front, id, kept[i]);
            assert(kept.contains(kept[i]));
            let k = front.index_of(kept[i]);
            assert(list[k] == kept[i]);
        }
    }
}

proof fn lemma_without_contains(rows: Seq<EntryView>, id: i64, entry: EntryView)
    ensures
        without(rows, id).contains(entry) <==> rows.contains(entry) && entry.id != id,
    decreases rows.len(),
{
    reveal(Seq::filter);
    if rows.len() > 0 {
        let front = rows.drop_last();
        lemma_without_contains(front, id, entry);
        assert(rows =~= front.push(rows.last()));
        lemma_contains_push(front, rows.last(), entry);
        lemma_contains_push(without(front, id), rows.last(), entry);
    }
}

proof fn lemma_contains_push(s: Seq<EntryView>, last: EntryView, entry: EntryView)
    ensures
        s.push(last).contains(entry) <==> s.contains(entry) || entry == last,
{
    let t = s.push(last);
    if s.contains(entry) {
        assert(t[s.index_of(entry)] == entry);
    }
    if entry == last {
        assert(t[s.len() as int] == entry);
    }
    if t.contains(entry) {
        let k = t.index_of(entry);
        if k < s.len() {
            assert(s[k] == entry);
        }
    }
}

/// Every command keeps the tables well-formed, and a new database is, so the
/// tables always are.
pub proof fn law_commands_keep_the_tables_well_formed(
    command: CommandView,
    tables: TablesView,
    store: StoreView,
)
    requires
        tables.wf(),
    ensures
        run_command(command, tables, store).0.wf(),
        run_command(command, tables, store).0.last_id >= tables.last_id,
        TablesView::empty().wf(),
{
    lemma_run_command(command, tables, store);
    let after = run_command(command, tables, store).0;
    match command {
        CommandView::Delete { id } => {
            let ascending = |a: EntryView, b: EntryView| a.id < b.id;
            lemma_without_keeps_order(tables.rows, id, ascending);
            assert forall|i: int, j: int| 0 <= i < j < after.rows.len() implies (
            #[trigger] after.rows[i]).id < (#[trigger] after.rows[j]).id by {
                assert(ascending(after.rows[i], after.rows[j]));
            }
            assert forall|i: int| 0 <= i < after.rows.len() implies (#[trigger] after.rows[i]).id
                <= after.last_id by {
                lemma_without_contains(tables.rows, id, after.rows[i]);
                assert(after.rows.contains(after.rows[i]));
                let k = tables.rows.index_of(after.rows[i]);
                assert(tables.rows[k] == after.rows[i]);
            }
        },
        _ => {},
    }
}

proof fn lemma_try_command(
    command: CommandView,
    tables: TablesView,
    store: StoreView,
    faults: FaultsView,
)
    ensures
        ({
            let after = try_command(command, tables, store, faults).0;
            match command {
                CommandView::Load => after == tables,
                CommandView::Insert { title, file_path } => after == if faults.insert is Some {
                    tables
                } else {
                    run_command(command, tables, store).0
                },
                CommandView::Delete { id } => {
                    &&& after.last_id == tables.last_id
                    &&& after.rows == if faults.delete is Some {
                        tables.rows
                    } else {
                        run_command(command, tables, store).0.rows
                    }
                    &&& after.selection == tables.selection || after.selection == Some(
                        None::<Seq<char>>,
                    )
                },
                CommandView::SetLastPlayed { id } => after == if faults.write is Some {
                    tables
                } else {
                    run_command(command, tables, store).0
                },
            }
        }),
{
    reveal_with_fuel(run, 4);
}

/// One command as it was carried out.
pub struct RunView {
    pub command: CommandView,
    pub store: StoreView,
    pub faults: FaultsView,
}

/// The tables after a sequence of commands.
pub open spec fn after_commands(tables: TablesView, runs: Seq<RunView>) -> TablesView
    decreases runs.len(),
{
    if runs.len() == 0 {
        tables
    } else {
        let (after, _) = try_command(runs[0].command, tables, runs[0].store, runs[0].faults);
        after_commands(after, runs.drop_first())
    }
}

/// The commands of `runs` as a worker takes them one after another, each answered
/// from what the ones before it left in the tables; `delivered` says whose event
/// could be delivered.
pub open spec fn taken_from(tables: TablesView, runs: Seq<RunView>, delivered: Seq<bool>) -> Seq<
    TakenView,
>
    decreases runs.len(),
{
    if runs.len() == 0 {
        seq![]
    } else {
        let RunView { command, store, faults } = runs[0];
        let taken = TakenView {
            command,
            answers: answers_from(command, tables, store, faults),
            delivered: delivered[0],
        };
        seq![taken] + taken_from(
            try_command(command, tables, store, faults).0,
            runs.drop_first(),
            delivered.drop_first(),
        )
    }
}

/// The tables and the events once a worker that serves has ended, or has nothing
/// more to do.
pub open spec fn served(tables: TablesView, runs: Seq<RunView>, delivered: Seq<bool>) -> (
    TablesView,
    Seq<EventView>,
)
    decreases runs.len(),
{
    if runs.len() == 0 {
        (tables, seq![])
    } else {
        let (after, event) = try_command(
            runs[0].command,
            tables,
            runs[0].store,
            runs[0].faults,
        );
        let first = match event {
            Some(event) => seq![event],
            None => seq![],
        };
        if goes_on(event is Some, delivered[0]) {
            let (last, rest) = served(after, runs.drop_first(), delivered.drop_first());
            (last, first + rest)
        } else {
            (after, first)
        }
    }
}

/// A worker sends the events of the commands that it carries out, and leaves the
/// tables as these commands leave them.
pub proof fn law_worker_changes_what_it_carries_out(
    tables: TablesView,
    runs: Seq<RunView>,
    delivered: Seq<bool>,
)
    requires
        delivered.len() == runs.len(),
    ensures
        ({
            let taken = taken_from(tables, runs, delivered);
            &&& taken.len() == runs.len()
            &&& carried_out(taken).len() <= runs.len()
            &&& served(tables, runs, delivered) == (
                after_commands(tables, runs.take(carried_out(taken).len() as int)),
                sent(taken),
            )
        }),
    decreases runs.len(),
{
    let taken = taken_from(tables, runs, delivered);
    if runs.len() > 0 {
        let RunView { command, store, faults } = runs[0];
        let after = try_command(command, tables, store, faults).0;
        let rest = runs.drop_first();
        law_commands_answer_from_the_tables(command, tables, store, faults);
        law_worker_changes_what_it_carries_out(after, rest, delivered.drop_first());
        assert(taken.drop_first() =~= taken_from(after, rest, delivered.drop_first()));
        let k = carried_out(taken).len() as int;
        let start = runs.take(k);
        assert(start[0] == runs[0]);
        assert(start.drop_first() =~= rest.take(k - 1));
        reveal_with_fuel(after_commands, 2);
    } else {
        assert(runs.take(0) =~= runs);
    }
}

/// Once the UI is gone the tables change no more: they are left as the commands
/// up to the first one whose event could not be delivered leave them.
pub proof fn law_tables_are_left_alone_without_the_ui(
    tables: TablesView,
    runs: Seq<RunView>,
    delivered: Seq<bool>,
    k: int,
)
    requires
        delivered.len() == runs.len(),
        0 <= k < runs.len(),
        forall|i: int|
            0 <= i < k ==> heard(#[trigger] taken_from(tables, runs, delivered)[i]),
        !heard(taken_from(tables, runs, delivered)[k]),
    ensures
        served(tables, runs, delivered).0 == after_commands(tables, runs.take(k + 1)),
{
    law_worker_changes_what_it_carries_out(tables, runs, delivered);
    law_worker_ends_with_the_ui(taken_from(tables, runs, delivered), k);
}

/// Whatever commands are carried out, and whichever of their statements fail, the
/// tables stay well-formed.
pub proof fn law_tables_stay_well_formed(tables: TablesView, runs: Seq<RunView>)
    requires
        tables.wf(),
    ensures
        after_commands(tables, runs).wf(),
    decreases runs.len(),
{
    if runs.len() > 0 {
        let RunView { command, store, faults } = runs[0];
        let after = try_command(command, tables, store, faults).0;
        lemma_try_command(command, tables, store, faults);
        law_commands_keep_the_tables_well_formed(command, tables, store);
        lemma_run_command(command, tables, store);
        law_tables_stay_well_formed(after, runs.drop_first());
    }
}

/// No command makes the store forget an id that it gave out.
pub proof fn law_no_id_is_forgotten(tables: TablesView, runs: Seq<RunView>)
    ensures
        after_commands(tables, runs).last_id >= tables.last_id,
    decreases runs.len(),
{
    if runs.len() > 0 {
        let RunView { command, store, faults } = runs[0];
        lemma_try_command(command, tables, store, faults);
        lemma_run_command(command, tables, store);
        law_no_id_is_forgotten(
            try_command(command, tables, store, faults).0,
            runs.drop_first(),
        );
    }
}

proof fn lemma_insert(
    command: CommandView,
    tables: TablesView,
    store: StoreView,
    faults: FaultsView,
)
    requires
        command is Insert,
        try_command(command, tables, store, faults).1->0 is Inserted,
    ensures
        try_command(command, tables, store, faults).1->0->Inserted_0.id > tables.last_id,
        try_command(command, tables, store, faults).1->0->Inserted_0.id == try_command(
            command,
            tables,
            store,
            faults,
        ).0.last_id,
{
    reveal_with_fuel(run, 2);
}

/// The id of a new entry was never given to any entry that was stored at any
/// time before, not even to one that has been deleted since.
pub proof fn law_ids_are_never_reused(
    tables: TablesView,
    earlier: EntryView,
    runs: Seq<RunView>,
    insert: RunView,
)
    requires
        tables.wf(),
        tables.rows.contains(earlier),
        insert.command is Insert,
        try_command(
            insert.command,
            after_commands(tables, runs),
            insert.store,
            insert.faults,
        ).1->0 is Inserted,
    ensures
        try_command(
            insert.command,
            after_commands(tables, runs),
            insert.store,
            insert.faults,
        ).1->0->Inserted_0.id > earlier.id,
{
    law_no_id_is_forgotten(tables, runs);
    lemma_insert(
        insert.command,
        after_commands(tables, runs),
        insert.store,
        insert.faults,
    );
    let k = tables.rows.index_of(earlier);
    assert(tables.rows[k].id <= tables.last_id);
}

/// Of two insertions that succeed the later one gets the larger id, whatever
/// commands are carried out in between, the removal of the first entry among
/// them.
pub proof fn law_ids_grow(tables: TablesView, first: RunView, runs: Seq<RunView>, second: RunView)
    requires
        first.command is Insert,
        second.command is Insert,
        ({
            let (between, a) = try_command(first.command, tables, first.store, first.faults);
            let (_, b) = try_command(
                second.command,
                after_commands(between, runs),
                second.store,
                second.faults,
            );
            a->0 is Inserted && b->0 is Inserted
        }),
    ensures
        ({
            let (between, a) = try_command(first.command, tables, first.store, first.faults);
            let (_, b) = try_command(
                second.command,
                after_commands(between, runs),
                second.store,
                second.faults,
            );
            b->0->Inserted_0.id > a->0->Inserted_0.id
        }),
{
    let between = try_command(first.command, tables, first.store, first.faults).0;
    lemma_insert(first.command, tables, first.store, first.faults);
    law_no_id_is_forgotten(between, runs);
    lemma_insert(
        second.command,
        after_commands(between, runs),
        second.store,
        second.faults,
    );
}

/// Loading answers with everything that is stored, the newest first, and with
/// the selection that is remembered, and it changes nothing.
pub proof fn law_load_reports_what_is_stored(tables: TablesView, store: StoreView)
    requires
        is_listing(tables.rows, store.list),
    ensures
        run_command(CommandView::Load, tables, store) == (
            tables,
            Some(
                EventView::Loaded {
                    entries: store.list,
                    last_played: remembered(tables.selection),
                },
            ),
        ),
        forall|entry: EntryView| #[trigger]
            store.list.contains(entry) <==> tables.rows.contains(entry),
{
    lemma_run_command(CommandView::Load, tables, store);
}

/// An inserted entry is answered as it was stored, with the title and the path
/// it was given, and the next load lists it besides what was there before.
pub proof fn law_insert_then_load_round_trip(
    title: Seq<char>,
    file_path: Seq<char>,
    tables: TablesView,
    store: StoreView,
    later: StoreView,
)
    requires
        store.has_id(tables),
        is_listing(
            run_command(CommandView::Insert { title, file_path }, tables, store).0.rows,
            later.list,
        ),
    ensures
        ({
            let (after, event) = run_command(
                CommandView::Insert { title, file_path },
                tables,
                store,
            );
            let (_, loaded) = run_command(CommandView::Load, after, later);
            &&& event is Some && event->0 is Inserted
            &&& event->0->Inserted_0.title == title
            &&& event->0->Inserted_0.file_path == file_path
            &&& loaded is Some && loaded->0 is Loaded
            &&& forall|entry: EntryView|
                #[trigger] loaded->0->entries.contains(entry) <==> tables.rows.contains(entry)
                    || entry == event->0->Inserted_0
            &&& loaded->0->last_played == remembered(tables.selection)
        }),
{
    let command = CommandView::Insert { title, file_path };
    lemma_run_command(command, tables, store);
    let (after, event) = run_command(command, tables, store);
    law_load_reports_what_is_stored(after, later);
    assert forall|entry: EntryView| #[trigger]
        later.list.contains(entry) <==> tables.rows.contains(entry) || entry
            == event->0->Inserted_0 by {
        lemma_contains_push(tables.rows, event->0->Inserted_0, entry);
    }
}

/// The selection that is remembered is the one the next load reports; remembering
/// it is not answered, and no entry changes.
pub proof fn law_last_played_is_remembered_across_loads(
    id: Option<i64>,
    tables: TablesView,
    store: StoreView,
    later: StoreView,
)
    ensures
        ({
            let (after, event) = run_command(CommandView::SetLastPlayed { id }, tables, store);
            let (_, loaded) = run_command(CommandView::Load, after, later);
            &&& event is None
            &&& after.rows == tables.rows
            &&& loaded == Some(EventView::Loaded { entries: later.list, last_played: id })
        }),
{
    let command = CommandView::SetLastPlayed { id };
    lemma_run_command(command, tables, store);
    lemma_run_command(CommandView::Load, run_command(command, tables, store).0, later);
    if let Some(id) = id {
        law_parse_undoes_format(id);
    }
}

/// Deleting removes the entries of that id and no other one, and clears the
/// remembered selection exactly if it was that entry.
pub proof fn law_deleting_removes_the_entry_and_clears_the_selection(
    id: i64,
    tables: TablesView,
    store: StoreView,
)
    requires
        tables.wf(),
    ensures
        ({
            let (after, event) = run_command(CommandView::Delete { id }, tables, store);
            &&& event == Some(EventView::Deleted(id))
            &&& forall|entry: EntryView|
                #[trigger] after.rows.contains(entry) <==> tables.rows.contains(entry) && entry.id
                    != id
            &&& remembered(after.selection) == if remembered(tables.selection) == Some(id) {
                None
            } else {
                remembered(tables.selection)
            }
        }),
{
    lemma_run_command(CommandView::Delete { id }, tables, store);
    assert forall|entry: EntryView| #[trigger]
        without(tables.rows, id).contains(entry) <==> tables.rows.contains(entry) && entry.id
            != id by {
        lemma_without_contains(tables.rows, id, entry);
    }
    law_parse_undoes_format(id);
    if let Some(Some(text)) = tables.selection {
        let selected = choose|k: i64| text == #[trigger] decimal(k as int);
        law_parse_undoes_format(selected);
        law_decimal_text_is_distinct(selected, id);
    }
}

proof fn lemma_text_less_asymmetric(a: Seq<char>, b: Seq<char>)
    ensures
        text_less(a, b) ==> !text_less(b, a) && a != b,
    decreases a.len(),
{
    if a.len() > 0 && b.len() > 0 && a[0] == b[0] {
        lemma_text_less_asymmetric(a.drop_first(), b.drop_first());
    }
}

proof fn lemma_newer_asymmetric(a: EntryView, b: EntryView)
    ensures
        newer(a, b) ==> !newer(b, a),
{
    lemma_text_less_asymmetric(a.created_at, b.created_at);
    lemma_text_less_asymmetric(b.created_at, a.created_at);
}

/// There is one order in which stored entries are listed.
pub proof fn law_listing_is_unique(
    rows: Seq<EntryView>,
    first: Seq<EntryView>,
    second: Seq<EntryView>,
)
    requires
        is_listing(rows, first),
        is_listing(rows, second),
    ensures
        first == second,
    decreases first.len(),
{
    if first.len() == 0 {
        if second.len() > 0 {
            assert(second.contains(second[0]));
            assert(rows.contains(second[0]));
            assert(first.contains(second[0]));
        }
        assert(first =~= second);
    } else {
        assert(first.contains(first[0]));
        assert(rows.contains(first[0]));
        assert(second.contains(first[0]));
        assert(second.contains(second[0]));
        assert(rows.contains(second[0]));
        assert(first.contains(second[0]));
        lemma_newer_asymmetric(first[0], second[0]);
        let j = second.index_of(first[0]);
        let k = first.index_of(second[0]);
        assert(first[0] == second[0]);
        let a = first.drop_first();
        let b = second.drop_first();
        assert forall|entry: EntryView| #[trigger] a.contains(entry) <==> b.contains(entry) by {
            lemma_newer_asymmetric(first[0], first[0]);
            if a.contains(entry) {
                let i = a.index_of(entry);
                assert(first[i + 1] == entry);
                assert(first.contains(entry));
                assert(rows.contains(entry));
                assert(second.contains(entry));
                let m = second.index_of(entry);
                assert(newer(first[0], first[i + 1]));
                assert(m > 0);
                assert(b[m - 1] == entry);
            }
            if b.contains(entry) {
                let i = b.index_of(entry);
                assert(second[i + 1] == entry);
                assert(second.contains(entry));
                assert(rows.contains(entry));
                assert(first.contains(entry));
                let m = first.index_of(entry);
                assert(newer(second[0], second[i + 1]));
                assert(m > 0);
                assert(a[m - 1] == entry);
            }
        }
        assert forall|i: int, j: int| 0 <= i < j < a.len() implies newer(
            #[trigger] a[i],
            #[trigger] a[j],
        ) by {
            assert(a[i] == first[i + 1]);
            assert(a[j] == first[j + 1]);
        }
        assert forall|i: int, j: int| 0 <= i < j < b.len() implies newer(
            #[trigger] b[i],
            #[trigger] b[j],
        ) by {
            assert(b[i] == second[i + 1]);
            assert(b[j] == second[j + 1]);
        }
        law_listing_is_unique(a, a, b);
        assert(first =~= seq![first[0]] + a);
        assert(second =~= seq![second[0]] + b);
    }
}

/// An entry that is newer than all stored ones comes first in the listing, and
/// the others follow in their order.
pub proof fn law_newest_entry_is_listed_first(
    rows: Seq<EntryView>,
    list: Seq<EntryView>,
    entry: EntryView,
)
    requires
        is_listing(rows, list),
        forall|i: int| 0 <= i < rows.len() ==> newer(entry, #[trigger] rows[i]),
    ensures
        is_listing(rows.push(entry), list.insert(0, entry)),
{
    let longer = list.insert(0, entry);
    assert forall|i: int| 0 <= i < list.len() implies newer(entry, #[trigger] list[i]) by {
        assert(list.contains(list[i]));
        assert(rows.contains(list[i]));
        let k = rows.index_of(list[i]);
        assert(rows[k] == list[i]);
    }
    assert forall|e: EntryView| #[trigger] rows.push(entry).contains(e) <==> longer.contains(e) by {
        lemma_contains_push(rows, entry, e);
        assert(rows.contains(e) <==> list.contains(e));
        if list.contains(e) {
            assert(longer[list.index_of(e) + 1] == e);
        }
        if e == entry {
            assert(longer[0] == e);
        }
        if longer.contains(e) {
            let k = longer.index_of(e);
            if k > 0 {
                assert(list[k - 1] == e);
            }
        }
    }
    assert forall|i: int, j: int| 0 <= i < j < longer.len() implies newer(
        #[trigger] longer[i],
        #[trigger] longer[j],
    ) by {
        assert(longer[j] == list[j - 1]);
        if i > 0 {
            assert(longer[i] == list[i - 1]);
        }
    }
}

/// Removing the entries of an id from a listing gives the listing of what is
/// left.
pub proof fn law_listing_without_an_entry(rows: Seq<EntryView>, list: Seq<EntryView>, id: i64)
    requires
        is_listing(rows, list),
    ensures
        is_listing(without(rows, id), without(list, id)),
{
    let before = |a: EntryView, b: EntryView| newer(a, b);
    let kept = without(list, id);
    lemma_without_keeps_order(list, id, before);
    assert forall|i: int, j: int| 0 <= i < j < kept.len() implies newer(
        #[trigger] kept[i],
        #[trigger] kept[j],
    ) by {
        assert(before(kept[i], kept[j]));
    }
    assert forall|entry: EntryView| #[trigger]
        without(rows, id).contains(entry) <==> kept.contains(entry) by {
        lemma_without_contains(rows, id, entry);
        lemma_without_contains(list, id, entry);
    }
}

/// The table of the entries.
pub struct EntriesView {
    pub rows: Seq<EntryView>,
    pub last_id: int,
}

/// The table of the settings.
pub struct SettingsView {
    pub selection: Option<Option<Seq<char>>>,
}

/// What a database file holds. A table may be missing.
pub struct FileView {
    pub entries: Option<EntriesView>,
    pub settings: Option<SettingsView>,
}

impl FileView {
    /// A file without tables, as a new one is.
    pub open spec fn blank() -> FileView {
        FileView { entries: None, settings: None }
    }

    /// A file that holds `tables`.
    pub open spec fn holding(tables: TablesView) -> FileView {
        FileView {
            entries: Some(EntriesView { rows: tables.rows, last_id: tables.last_id }),
            settings: Some(SettingsView { selection: tables.selection }),
        }
    }

    /// The file after one step of opening it: a pragma changes no table, and the
    /// schema creates the tables that do not exist yet. No other batch is given a
    /// meaning.
    pub open spec fn after_open_step(self, step: OpenStepView) -> FileView {
        match step {
            OpenStepView::Pragma { name, value } => self,
            OpenStepView::Batch { sql } => if sql == SCHEMA@ {
                FileView {
                    entries: match self.entries {
                        Some(entries) => Some(entries),
                        None => Some(EntriesView { rows: seq![], last_id: 0 }),
                    },
                    settings: match self.settings {
                        Some(settings) => Some(settings),
                        None => Some(SettingsView { selection: None }),
                    },
                }
            } else {
                arbitrary()
            },
        }
    }

    /// The file after `steps`, in order.
    pub open spec fn after_open_steps(self, steps: Seq<OpenStepView>) -> FileView
        decreases steps.len(),
    {
        if steps.len() == 0 {
            self
        } else {
            self.after_open_step(steps[0]).after_open_steps(steps.drop_first())
        }
    }

    /// The file once it has been opened.
    pub open spec fn opened(self) -> FileView {
        self.after_open_steps(open_steps())
    }
}

proof fn lemma_opened(file: FileView)
    ensures
        file.opened() == file.after_open_step(OpenStepView::Batch { sql: SCHEMA@ }),
{
    let steps = open_steps();
    let last = steps.drop_first().drop_first();
    assert(last =~= seq![OpenStepView::Batch { sql: SCHEMA@ }]);
    assert(last.drop_first() =~= seq![]);
    reveal_with_fuel(FileView::after_open_steps, 4);
}

/// Opening a new database gives empty tables: the first load answers with no
/// entry and no selection.
pub proof fn law_new_database_is_empty(store: StoreView)
    requires
        is_listing(TablesView::empty().rows, store.list),
    ensures
        FileView::blank().opened() == FileView::holding(TablesView::empty()),
        run_command(CommandView::Load, TablesView::empty(), store).1 == Some(
            EventView::Loaded { entries: seq![], last_played: None },
        ),
{
    lemma_opened(FileView::blank());
    lemma_run_command(CommandView::Load, TablesView::empty(), store);
    if store.list.len() > 0 {
        assert(store.list.contains(store.list[0]));
        assert(TablesView::empty().rows.contains(store.list[0]));
    }
    assert(store.list =~= seq![]);
}

/// Opening a database again changes nothing in it: a load answers as it did when
/// the database was last open.
pub proof fn law_opening_again_keeps_what_is_stored(
    tables: TablesView,
    store: StoreView,
    later: StoreView,
)
    requires
        is_listing(tables.rows, store.list),
        is_listing(tables.rows, later.list),
    ensures
        FileView::holding(tables).opened() == FileView::holding(tables),
        run_command(CommandView::Load, tables, later).1 == run_command(
            CommandView::Load,
            tables,
            store,
        ).1,
{
    lemma_opened(FileView::holding(tables));
    lemma_run_command(CommandView::Load, tables, store);
    lemma_run_command(CommandView::Load, tables, later);
    law_listing_is_unique(tables.rows, store.list, later.list);
}

/// Opening never loses a table: one that exists is kept, one that is missing is
/// created empty.
pub proof fn law_opening_keeps_existing_tables(file: FileView)
    ensures
        file.entries is Some ==> file.opened().entries == file.entries,
        file.settings is Some ==> file.opened().settings == file.settings,
        file.entries is None ==> file.opened().entries == FileView::holding(
            TablesView::empty(),
        ).entries,
        file.settings is None ==> file.opened().settings == FileView::holding(
            TablesView::empty(),
        ).settings,
{
    lemma_opened(file);
}

} // verus!
