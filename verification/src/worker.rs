//! What the database worker carries out and answers, whatever its statements do:
//! each of them may succeed with any value or fail with any error.

use vstd::prelude::*;

use crate::database::{
    begun, deleted, goes_on, inserted, listed, opened, remembered, selection_read, written,
    CommandView, EventView, OpenedView, WorkerStepView,
};
use crate::decimal::decimal;
use crate::models::EntryView;

verus! {

/// What the statements of one command answer. A command runs each of them at
/// most once.
pub struct AnswersView {
    /// The answer to listing the entries.
    pub list: Result<Seq<EntryView>, Seq<char>>,
    /// The answer to reading the selection.
    pub selection: Result<Option<Option<Seq<char>>>, Seq<char>>,
    /// The answer to inserting an entry: the row as it was stored.
    pub insert: Result<EntryView, Seq<char>>,
    /// The answer to deleting an entry.
    pub delete: Result<(), Seq<char>>,
    /// The answer to writing the selection.
    pub write: Result<(), Seq<char>>,
}

/// How many statements a step is from the end of its command, at most.
pub open spec fn statements_left(step: WorkerStepView) -> nat {
    match step {
        WorkerStepView::ListEntries => 3,
        WorkerStepView::DeleteEntry { id } => 3,
        WorkerStepView::ReadSelection(purpose) => 2,
        WorkerStepView::InsertEntry { title, file_path } => 1,
        WorkerStepView::WriteSelection { value, reply } => 1,
        WorkerStepView::Done(event) => 0,
    }
}

/// The event at the end of `step` and all that follows it.
pub open spec fn outcome(step: WorkerStepView, answers: AnswersView) -> Option<EventView>
    decreases statements_left(step),
{
    match step {
        WorkerStepView::Done(event) => event,
        WorkerStepView::ListEntries => outcome(listed(answers.list), answers),
        WorkerStepView::ReadSelection(purpose) => outcome(
            selection_read(purpose, answers.selection),
            answers,
        ),
        WorkerStepView::InsertEntry { title, file_path } => outcome(
            inserted(answers.insert),
            answers,
        ),
        WorkerStepView::DeleteEntry { id } => outcome(deleted(id, answers.delete), answers),
        WorkerStepView::WriteSelection { value, reply } => outcome(
            written(reply, answers.write),
            answers,
        ),
    }
}

/// The event that a command is answered with.
pub open spec fn answer(command: CommandView, answers: AnswersView) -> Option<EventView> {
    outcome(begun(command), answers)
}

/// The error of the first statement of a command that fails. The selection is
/// written for a removal only if it was the entry that was removed.
pub open spec fn failure(command: CommandView, answers: AnswersView) -> Option<Seq<char>> {
    match command {
        CommandView::Load => match (answers.list, answers.selection) {
            (Err(error), _) => Some(error),
            (_, Err(error)) => Some(error),
            _ => None,
        },
        CommandView::Insert { title, file_path } => match answers.insert {
            Err(error) => Some(error),
            Ok(_) => None,
        },
        CommandView::Delete { id } => match (answers.delete, answers.selection) {
            (Err(error), _) => Some(error),
            (_, Err(error)) => Some(error),
            (_, Ok(stored)) => match answers.write {
                Err(error) => if stored == Some(Some(decimal(id as int))) {
                    Some(error)
                } else {
                    None
                },
                Ok(_) => None,
            },
        },
        CommandView::SetLastPlayed { id } => match answers.write {
            Err(error) => Some(error),
            Ok(_) => None,
        },
    }
}

/// What a command is answered with: the failure, if there is one; else the
/// entries and the selection for a load, the stored row for an insertion, the id
/// for a removal, and nothing for a selection that was remembered.
pub open spec fn expected(command: CommandView, answers: AnswersView) -> Option<EventView> {
    match failure(command, answers) {
        Some(error) => Some(EventView::Error("Database error: "@ + error)),
        None => match command {
            CommandView::Load => Some(
                EventView::Loaded {
                    entries: answers.list->Ok_0,
                    last_played: remembered(answers.selection->Ok_0),
                },
            ),
            CommandView::Insert { title, file_path } => Some(
                EventView::Inserted(answers.insert->Ok_0),
            ),
            CommandView::Delete { id } => Some(EventView::Deleted(id)),
            CommandView::SetLastPlayed { id } => None,
        },
    }
}

/// Whether a command is not answered at all.
pub open spec fn silent(command: CommandView, answers: AnswersView) -> bool {
    command is SetLastPlayed && answers.write is Ok
}

/// Every command is answered by exactly one event, except that remembering a
/// selection is not answered when it succeeds. A failure is reported with its
/// error.
pub proof fn law_every_command_is_answered_once(command: CommandView, answers: AnswersView)
    ensures
        answer(command, answers) == expected(command, answers),
        answer(command, answers) is None <==> silent(command, answers),
        failure(command, answers) matches Some(error) ==> answer(command, answers) == Some(
            EventView::Error("Database error: "@ + error),
        ),
{
    reveal_with_fuel(outcome, 4);
}

/// A command as the worker took it.
pub struct TakenView {
    pub command: CommandView,
    /// What its statements answered.
    pub answers: AnswersView,
    /// Whether its event, if it has one, could be delivered.
    pub delivered: bool,
}

/// The events that the worker sends for the commands that wait, in order. It
/// ends once an event could not be delivered.
pub open spec fn sent(taken: Seq<TakenView>) -> Seq<EventView>
    decreases taken.len(),
{
    if taken.len() == 0 {
        seq![]
    } else {
        let event = answer(taken[0].command, taken[0].answers);
        let first = match event {
            Some(event) => seq![event],
            None => seq![],
        };
        if goes_on(event is Some, taken[0].delivered) {
            first + sent(taken.drop_first())
        } else {
            first
        }
    }
}

/// The commands that the worker carries out of those that wait, in order.
pub open spec fn carried_out(taken: Seq<TakenView>) -> Seq<TakenView>
    decreases taken.len(),
{
    if taken.len() == 0 {
        seq![]
    } else if goes_on(
        answer(taken[0].command, taken[0].answers) is Some,
        taken[0].delivered,
    ) {
        seq![taken[0]] + carried_out(taken.drop_first())
    } else {
        seq![taken[0]]
    }
}

/// The events that the worker sends, once opening its database has ended.
pub open spec fn worker_events(opened: OpenedView, taken: Seq<TakenView>) -> Seq<EventView> {
    match opened {
        OpenedView::Serves => sent(taken),
        OpenedView::Ends(event) => seq![event],
    }
}

/// The commands that the worker carries out, once opening its database has
/// ended.
pub open spec fn worker_commands(opened: OpenedView, taken: Seq<TakenView>) -> Seq<TakenView> {
    match opened {
        OpenedView::Serves => carried_out(taken),
        OpenedView::Ends(event) => seq![],
    }
}

/// Where the database cannot be opened, the worker sends that one error and
/// carries out no command, whatever commands wait. Where it can be opened, the
/// worker serves.
pub proof fn law_worker_ends_where_opening_fails(
    result: Result<(), Seq<char>>,
    taken: Seq<TakenView>,
)
    ensures
        result matches Err(error) ==> {
            &&& worker_events(opened(result), taken) == seq![
                EventView::Error("Could not open database: "@ + error),
            ]
            &&& worker_commands(opened(result), taken) == Seq::<TakenView>::empty()
        },
        result is Ok ==> {
            &&& worker_events(opened(result), taken) == sent(taken)
            &&& worker_commands(opened(result), taken) == carried_out(taken)
        },
{
}

/// Whether the event of a command, if it has one, was delivered.
pub open spec fn heard(taken: TakenView) -> bool {
    silent(taken.command, taken.answers) || taken.delivered
}

/// How many of the first `i` commands are answered.
pub open spec fn answered_before(taken: Seq<TakenView>, i: int) -> nat
    decreases i,
{
    if i <= 0 {
        0
    } else if silent(taken[i - 1].command, taken[i - 1].answers) {
        answered_before(taken, i - 1)
    } else {
        answered_before(taken, i - 1) + 1
    }
}

proof fn lemma_answered_before(taken: Seq<TakenView>, i: int)
    requires
        0 <= i < taken.len(),
    ensures
        answered_before(taken, i + 1) == answered_before(taken, 1) + answered_before(
            taken.drop_first(),
            i,
        ),
    decreases i,
{
    reveal_with_fuel(answered_before, 2);
    if i > 0 {
        lemma_answered_before(taken, i - 1);
        assert(taken.drop_first()[i - 1] == taken[i]);
    }
}

/// While the UI is there, the events come in the order of the commands, one for
/// each command that is answered, and a command that fails does not keep the
/// following ones from being carried out.
pub proof fn law_events_come_in_the_order_of_the_commands(taken: Seq<TakenView>)
    requires
        forall|i: int| 0 <= i < taken.len() ==> (#[trigger] taken[i]).delivered,
    ensures
        carried_out(taken) == taken,
        sent(taken).len() == answered_before(taken, taken.len() as int),
        forall|i: int|
            0 <= i < taken.len() && !silent((#[trigger] taken[i]).command, taken[i].answers) ==> {
                &&& answered_before(taken, i) < sent(taken).len()
                &&& expected(taken[i].command, taken[i].answers) == Some(
                    sent(taken)[answered_before(taken, i) as int],
                )
            },
    decreases taken.len(),
{
    if taken.len() > 0 {
        let rest = taken.drop_first();
        let first = taken[0];
        law_every_command_is_answered_once(first.command, first.answers);
        assert forall|i: int| 0 <= i < rest.len() implies (#[trigger] rest[i]).delivered by {
            assert(rest[i] == taken[i + 1]);
        }
        law_events_come_in_the_order_of_the_commands(rest);
        assert(seq![first] + rest =~= taken);
        reveal_with_fuel(answered_before, 2);
        lemma_answered_before(taken, taken.len() - 1);
        assert forall|i: int|
            0 <= i < taken.len() && !silent(
                (#[trigger] taken[i]).command,
                taken[i].answers,
            ) implies {
            &&& answered_before(taken, i) < sent(taken).len()
            &&& expected(taken[i].command, taken[i].answers) == Some(
                sent(taken)[answered_before(taken, i) as int],
            )
        } by {
            if i > 0 {
                lemma_answered_before(taken, i - 1);
                assert(rest[i - 1] == taken[i]);
            }
        }
    }
}

/// Once an event could not be delivered, because the UI is gone, the worker
/// carries out no further command: the commands that it carries out are those up
/// to the first one whose event could not be delivered, and it sends the events
/// of these and no other.
pub proof fn law_worker_ends_with_the_ui(taken: Seq<TakenView>, k: int)
    requires
        0 <= k < taken.len(),
        forall|i: int| 0 <= i < k ==> heard(#[trigger] taken[i]),
        !heard(taken[k]),
    ensures
        carried_out(taken) == taken.take(k + 1),
        sent(taken) == sent(taken.take(k + 1)),
    decreases k,
{
    law_every_command_is_answered_once(taken[0].command, taken[0].answers);
    let start = taken.take(k + 1);
    assert(start[0] == taken[0]);
    if k > 0 {
        let rest = taken.drop_first();
        assert(heard(taken[0]));
        assert(rest[k - 1] == taken[k]);
        assert forall|i: int| 0 <= i < k - 1 implies heard(#[trigger] rest[i]) by {
            assert(rest[i] == taken[i + 1]);
        }
        law_worker_ends_with_the_ui(rest, k - 1);
        assert(start.drop_first() =~= rest.take(k));
        assert(seq![taken[0]] + rest.take(k) =~= start);
    } else {
        assert(start =~= seq![taken[0]]);
    }
}

} // verus!
