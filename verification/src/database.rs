//! The persistence layer: the commands it takes, the statements each of them
//! runs and the events it answers with.
//!
//! The UI keeps a [`Database`] handle and queues [`Command`]s in it. A worker
//! takes them in order, once [`after_open`] has it serve. For each one it starts
//! with [`begin`], runs the [`statement`] of the [`WorkerStep`], hands the result
//! to the function named there, and goes on until a step is
//! [`WorkerStep::Done`]. New features add commands without touching the UI.

use std::collections::VecDeque;

use vstd::prelude::*;
use vstd::string::*;

use crate::decimal::{decimal, format_i64, law_parse_undoes_format, parse_i64, parsed};
use crate::models::{entry_views, AudioEntry, EntryView};
use crate::text::join;

verus! {

/// Commands the UI can send to the database worker.
#[derive(Debug, PartialEq, Eq)]
pub enum Command {
    /// Load every stored entry plus the id of the previously selected one.
    Load,
    /// Store a new entry.
    Insert { title: String, file_path: String },
    /// Remove an entry by id.
    Delete { id: i64 },
    /// Remember which entry was selected last, so it can be restored on the
    /// next launch. `None` clears the memory.
    SetLastPlayed { id: Option<i64> },
}

/// What a [`Command`] stands for.
pub enum CommandView {
    Load,
    Insert { title: Seq<char>, file_path: Seq<char> },
    Delete { id: i64 },
    SetLastPlayed { id: Option<i64> },
}

impl View for Command {
    type V = CommandView;

    open spec fn view(&self) -> CommandView {
        match self {
            Command::Load => CommandView::Load,
            Command::Insert { title, file_path } => CommandView::Insert {
                title: title@,
                file_path: file_path@,
            },
            Command::Delete { id } => CommandView::Delete { id: *id },
            Command::SetLastPlayed { id } => CommandView::SetLastPlayed { id: *id },
        }
    }
}

/// Events the database worker sends back to the UI.
#[derive(Debug, PartialEq, Eq)]
pub enum Event {
    /// Reply to [`Command::Load`]: the full entry list and the id of the entry
    /// that was selected when the app last ran (if any).
    Loaded { entries: Vec<AudioEntry>, last_played: Option<i64> },
    /// Reply to [`Command::Insert`]: the entry as it was actually stored.
    Inserted(AudioEntry),
    /// Reply to [`Command::Delete`].
    Deleted(i64),
    /// Any failure. The string is human-readable and meant to be shown in a
    /// dialog.
    Error(String),
}

/// What an [`Event`] stands for.
pub enum EventView {
    Loaded { entries: Seq<EntryView>, last_played: Option<i64> },
    Inserted(EntryView),
    Deleted(i64),
    Error(Seq<char>),
}

impl View for Event {
    type V = EventView;

    open spec fn view(&self) -> EventView {
        match self {
            Event::Loaded { entries, last_played } => EventView::Loaded {
                entries: entry_views(entries@),
                last_played: *last_played,
            },
            Event::Inserted(entry) => EventView::Inserted(entry@),
            Event::Deleted(id) => EventView::Deleted(*id),
            Event::Error(message) => EventView::Error(message@),
        }
    }
}

/// What an optional event stands for.
pub open spec fn event_view(event: Option<Event>) -> Option<EventView> {
    match event {
        Some(event) => Some(event@),
        None => None,
    }
}

/// What an optional text stands for.
pub open spec fn text_view(text: Option<String>) -> Option<Seq<char>> {
    match text {
        Some(text) => Some(text@),
        None => None,
    }
}

/// What a sequence of commands stands for.
pub open spec fn command_views(commands: Seq<Command>) -> Seq<CommandView> {
    commands.map_values(|command: Command| command@)
}

/// Handle to the database worker: the commands that it has not taken yet, the
/// oldest first.
#[derive(Debug)]
pub struct Database {
    queue: VecDeque<Command>,
}

impl View for Database {
    type V = Seq<CommandView>;

    closed spec fn view(&self) -> Seq<CommandView> {
        command_views(self.queue@)
    }
}

impl Database {
    /// A handle with no command waiting.
    pub fn new() -> (r: Self)
        ensures
            r@ == Seq::<CommandView>::empty(),
    {
        let r = Database { queue: VecDeque::new() };
        assert(r@ =~= Seq::<CommandView>::empty());
        r
    }

    fn send(&mut self, command: Command)
        ensures
            final(self)@ == old(self)@.push(command@),
    {
        self.queue.push_back(command);
        assert(self@ =~= old(self)@.push(command@));
    }

    /// Ask the worker to send the full entry list.
    pub fn load(&mut self)
        ensures
            final(self)@ == old(self)@.push(CommandView::Load),
    {
        self.send(Command::Load);
    }

    /// Store a new entry.
    pub fn insert(&mut self, title: String, file_path: String)
        ensures
            final(self)@ == old(self)@.push(
                CommandView::Insert { title: title@, file_path: file_path@ },
            ),
    {
        self.send(Command::Insert { title, file_path });
    }

    /// Remove an entry.
    pub fn delete(&mut self, id: i64)
        ensures
            final(self)@ == old(self)@.push(CommandView::Delete { id }),
    {
        self.send(Command::Delete { id });
    }

    /// Remember the id of the currently selected entry.
    pub fn set_last_played(&mut self, id: Option<i64>)
        ensures
            final(self)@ == old(self)@.push(CommandView::SetLastPlayed { id }),
    {
        self.send(Command::SetLastPlayed { id });
    }

    /// Take the oldest command that waits.
    pub fn next_command(&mut self) -> (r: Option<Command>)
        ensures
            match r {
                Some(command) => old(self)@.len() > 0 && command@ == old(self)@[0] && final(self)@
                    == old(self)@.drop_first(),
                None => old(self)@.len() == 0 && final(self)@ == old(self)@,
            },
    {
        let r = self.queue.pop_front();
        assert(r is Some ==> self@ =~= old(self)@.drop_first());
        r
    }
}

/// Directory, inside the user's data directory, that holds the database.
pub const DATA_DIRECTORY: &'static str = "audio-library";

/// Name of the database file.
pub const DATABASE_FILE: &'static str = "audio-library.db";

/// What brings a fresh connection into use.
#[derive(Debug, Clone, Copy)]
pub enum OpenStep {
    /// Set a pragma to a value.
    Pragma { name: &'static str, value: &'static str },
    /// Run a batch of statements.
    Batch { sql: &'static str },
}

/// What an [`OpenStep`] stands for.
pub enum OpenStepView {
    Pragma { name: Seq<char>, value: Seq<char> },
    Batch { sql: Seq<char> },
}

impl View for OpenStep {
    type V = OpenStepView;

    open spec fn view(&self) -> OpenStepView {
        match self {
            OpenStep::Pragma { name, value } => OpenStepView::Pragma {
                name: name@,
                value: value@,
            },
            OpenStep::Batch { sql } => OpenStepView::Batch { sql: sql@ },
        }
    }
}

/// The tables, as they are created where they do not exist yet.
pub const SCHEMA: &'static str = "CREATE TABLE IF NOT EXISTS audio_files (
            id         INTEGER PRIMARY KEY AUTOINCREMENT,
            title      TEXT NOT NULL,
            file_path  TEXT NOT NULL,
            created_at TEXT NOT NULL DEFAULT (strftime('%Y-%m-%d', 'now'))
        );
        CREATE TABLE IF NOT EXISTS app_settings (
            key   TEXT PRIMARY KEY,
            value TEXT
        );
        CREATE INDEX IF NOT EXISTS idx_audio_files_created ON audio_files (created_at);";

/// What is done with a fresh connection, in order.
pub open spec fn open_steps() -> Seq<OpenStepView> {
    seq![
        OpenStepView::Pragma { name: "journal_mode"@, value: "WAL"@ },
        OpenStepView::Pragma { name: "foreign_keys"@, value: "ON"@ },
        OpenStepView::Batch { sql: SCHEMA@ },
    ]
}

/// What to do with a fresh connection, in order: configure it and make sure the
/// schema exists. The write-ahead log improves responsiveness when reads happen
/// meanwhile.
pub fn open_database() -> (r: Vec<OpenStep>)
    ensures
        r@.map_values(|step: OpenStep| step@) == open_steps(),
{
    let mut r: Vec<OpenStep> = Vec::new();
    r.push(OpenStep::Pragma { name: "journal_mode", value: "WAL" });
    r.push(OpenStep::Pragma { name: "foreign_keys", value: "ON" });
    r.push(OpenStep::Batch { sql: SCHEMA });
    assert(r@.map_values(|step: OpenStep| step@) =~= open_steps());
    r
}

/// What the worker does once it has tried to open its database.
#[derive(Debug, PartialEq, Eq)]
pub enum Opened {
    /// Take commands.
    Serves,
    /// Send this event and end, without taking any command.
    Ends(Event),
}

/// What an [`Opened`] stands for.
pub enum OpenedView {
    Serves,
    Ends(EventView),
}

impl View for Opened {
    type V = OpenedView;

    open spec fn view(&self) -> OpenedView {
        match self {
            Opened::Serves => OpenedView::Serves,
            Opened::Ends(event) => OpenedView::Ends(event@),
        }
    }
}

/// What follows from how opening ended: the worker serves, or it reports why it
/// cannot and ends.
pub open spec fn opened(result: Result<(), Seq<char>>) -> OpenedView {
    match result {
        Ok(_) => OpenedView::Serves,
        Err(error) => OpenedView::Ends(EventView::Error("Could not open database: "@ + error)),
    }
}

/// Go on after [`open_database`]. The result is an error where the connection
/// could not be made or one of the steps failed.
pub fn after_open(result: Result<(), String>) -> (r: Opened)
    ensures
        r@ == opened(
            match result {
                Ok(_) => Ok(()),
                Err(error) => Err(error@),
            },
        ),
{
    match result {
        Ok(_) => Opened::Serves,
        Err(error) => Opened::Ends(
            Event::Error(join("Could not open database: ", error.as_str())),
        ),
    }
}

/// Whether the worker takes another command after one: it ends once an event
/// could not be delivered, because the UI is gone.
pub open spec fn goes_on(has_event: bool, delivered: bool) -> bool {
    has_event ==> delivered
}

/// Whether the worker takes another command after one.
pub fn takes_another_command(has_event: bool, delivered: bool) -> (r: bool)
    ensures
        r == goes_on(has_event, delivered),
{
    !has_event || delivered
}

/// What a selection is read for.
#[derive(Debug, PartialEq, Eq)]
pub enum SelectionUse {
    /// To report it together with these entries.
    Load { entries: Vec<AudioEntry> },
    /// To see whether it is the entry that was just removed.
    Delete { id: i64 },
}

/// What a [`SelectionUse`] stands for.
pub enum SelectionUseView {
    Load { entries: Seq<EntryView> },
    Delete { id: i64 },
}

impl View for SelectionUse {
    type V = SelectionUseView;

    open spec fn view(&self) -> SelectionUseView {
        match self {
            SelectionUse::Load { entries } => SelectionUseView::Load {
                entries: entry_views(entries@),
            },
            SelectionUse::Delete { id } => SelectionUseView::Delete { id: *id },
        }
    }
}

/// What the worker does next for the command at hand.
#[derive(Debug, PartialEq, Eq)]
pub enum WorkerStep {
    /// List all entries, the newest first, and go on with [`after_list`].
    ListEntries,
    /// Read the remembered selection and go on with [`after_selection`].
    ReadSelection(SelectionUse),
    /// Store a new entry, created today, and go on with [`after_insert`].
    InsertEntry { title: String, file_path: String },
    /// Remove the entry with an id and go on with [`after_delete`].
    DeleteEntry { id: i64 },
    /// Remember a selection, or that there is none, and go on with
    /// [`after_write`].
    WriteSelection { value: Option<String>, reply: Option<Event> },
    /// The command is done. `None` means that there is nothing to report to the
    /// UI (e.g. after remembering the selection).
    Done(Option<Event>),
}

/// What a [`WorkerStep`] stands for.
pub enum WorkerStepView {
    ListEntries,
    ReadSelection(SelectionUseView),
    InsertEntry { title: Seq<char>, file_path: Seq<char> },
    DeleteEntry { id: i64 },
    WriteSelection { value: Option<Seq<char>>, reply: Option<EventView> },
    Done(Option<EventView>),
}

impl View for WorkerStep {
    type V = WorkerStepView;

    open spec fn view(&self) -> WorkerStepView {
        match self {
            WorkerStep::ListEntries => WorkerStepView::ListEntries,
            WorkerStep::ReadSelection(purpose) => WorkerStepView::ReadSelection(purpose@),
            WorkerStep::InsertEntry { title, file_path } => WorkerStepView::InsertEntry {
                title: title@,
                file_path: file_path@,
            },
            WorkerStep::DeleteEntry { id } => WorkerStepView::DeleteEntry { id: *id },
            WorkerStep::WriteSelection { value, reply } => WorkerStepView::WriteSelection {
                value: text_view(*value),
                reply: event_view(*reply),
            },
            WorkerStep::Done(event) => WorkerStepView::Done(event_view(*event)),
        }
    }
}

/// A value that stands for a parameter of a statement.
#[derive(Debug, PartialEq, Eq)]
pub enum Parameter {
    Null,
    Integer(i64),
    Text(String),
}

/// What a [`Parameter`] stands for.
pub enum ParameterView {
    Null,
    Integer(i64),
    Text(Seq<char>),
}

impl View for Parameter {
    type V = ParameterView;

    open spec fn view(&self) -> ParameterView {
        match self {
            Parameter::Null => ParameterView::Null,
            Parameter::Integer(value) => ParameterView::Integer(*value),
            Parameter::Text(text) => ParameterView::Text(text@),
        }
    }
}

/// A statement and its parameters, the first one being `?1`.
#[derive(Debug, PartialEq, Eq)]
pub struct Statement {
    pub sql: &'static str,
    pub parameters: Vec<Parameter>,
}

/// What a [`Statement`] stands for.
pub struct StatementView {
    pub sql: Seq<char>,
    pub parameters: Seq<ParameterView>,
}

impl View for Statement {
    type V = StatementView;

    open spec fn view(&self) -> StatementView {
        StatementView {
            sql: self.sql@,
            parameters: self.parameters@.map_values(|parameter: Parameter| parameter@),
        }
    }
}

/// The statement that a step runs, `None` where the command is done. Listing
/// and storing answer with rows of id, title, path and day of creation, reading
/// the selection answers with its text.
pub open spec fn statement_of(step: WorkerStepView) -> Option<StatementView> {
    match step {
        WorkerStepView::ListEntries => Some(
            StatementView {
                sql:
                    "SELECT id, title, file_path, created_at FROM audio_files ORDER BY created_at DESC, id DESC"@,
                parameters: seq![],
            },
        ),
        WorkerStepView::ReadSelection(purpose) => Some(
            StatementView {
                sql: "SELECT value FROM app_settings WHERE key = 'last_played_id'"@,
                parameters: seq![],
            },
        ),
        WorkerStepView::InsertEntry { title, file_path } => Some(
            StatementView {
                sql: "INSERT INTO audio_files (title, file_path, created_at)
         VALUES (?1, ?2, strftime('%Y-%m-%d', 'now'))
         RETURNING id, title, file_path, created_at"@,
                parameters: seq![ParameterView::Text(title), ParameterView::Text(file_path)],
            },
        ),
        WorkerStepView::DeleteEntry { id } => Some(
            StatementView {
                sql: "DELETE FROM audio_files WHERE id = ?1"@,
                parameters: seq![ParameterView::Integer(id)],
            },
        ),
        WorkerStepView::WriteSelection { value, reply } => Some(
            StatementView {
                sql:
                    "INSERT OR REPLACE INTO app_settings (key, value) VALUES ('last_played_id', ?1)"@,
                parameters: seq![
                    match value {
                        Some(text) => ParameterView::Text(text),
                        None => ParameterView::Null,
                    },
                ],
            },
        ),
        WorkerStepView::Done(event) => None,
    }
}

/// The statement that a step runs, `None` where the command is done.
pub fn statement(step: &WorkerStep) -> (r: Option<Statement>)
    ensures
        match r {
            Some(statement) => statement_of(step@) == Some(statement@),
            None => statement_of(step@) is None,
        },
{
    let mut parameters: Vec<Parameter> = Vec::new();
    let sql: &'static str = match step {
        WorkerStep::ListEntries =>
            "SELECT id, title, file_path, created_at FROM audio_files ORDER BY created_at DESC, id DESC",
        WorkerStep::ReadSelection(_) =>
            "SELECT value FROM app_settings WHERE key = 'last_played_id'",
        WorkerStep::InsertEntry { title, file_path } => {
            parameters.push(Parameter::Text(title.clone()));
            parameters.push(Parameter::Text(file_path.clone()));
            // `RETURNING` gives the exact stored row without a second query.
            "INSERT INTO audio_files (title, file_path, created_at)
         VALUES (?1, ?2, strftime('%Y-%m-%d', 'now'))
         RETURNING id, title, file_path, created_at"
        },
        WorkerStep::DeleteEntry { id } => {
            parameters.push(Parameter::Integer(*id));
            "DELETE FROM audio_files WHERE id = ?1"
        },
        WorkerStep::WriteSelection { value, .. } => {
            parameters.push(
                match value {
                    Some(text) => Parameter::Text(text.clone()),
                    None => Parameter::Null,
                },
            );
            "INSERT OR REPLACE INTO app_settings (key, value) VALUES ('last_played_id', ?1)"
        },
        WorkerStep::Done(_) => {
            return None;
        },
    };
    let r = Statement { sql, parameters };
    assert(r@.parameters =~= statement_of(step@)->0.parameters);
    Some(r)
}

/// The text that remembers an id.
pub open spec fn selection_text(id: Option<i64>) -> Option<Seq<char>> {
    match id {
        Some(id) => Some(decimal(id as int)),
        None => None,
    }
}

/// The id that a stored selection remembers: `stored` is `None` where nothing
/// was ever stored, and `Some(None)` where the memory was cleared.
pub open spec fn remembered(stored: Option<Option<Seq<char>>>) -> Option<i64> {
    match stored {
        Some(Some(text)) => parsed(text),
        _ => None,
    }
}

/// How a failed statement ends its command.
pub open spec fn failed(error: Seq<char>) -> WorkerStepView {
    WorkerStepView::Done(Some(EventView::Error("Database error: "@ + error)))
}

fn fail(error: String) -> (r: WorkerStep)
    ensures
        r@ == failed(error@),
{
    WorkerStep::Done(Some(Event::Error(join("Database error: ", error.as_str()))))
}

/// The first step of a command.
pub open spec fn begun(command: CommandView) -> WorkerStepView {
    match command {
        CommandView::Load => WorkerStepView::ListEntries,
        CommandView::Insert { title, file_path } => WorkerStepView::InsertEntry {
            title,
            file_path,
        },
        CommandView::Delete { id } => WorkerStepView::DeleteEntry { id },
        CommandView::SetLastPlayed { id } => WorkerStepView::WriteSelection {
            value: selection_text(id),
            reply: None,
        },
    }
}

/// The first step of a command.
pub fn begin(command: Command) -> (r: WorkerStep)
    ensures
        r@ == begun(command@),
{
    match command {
        Command::Load => WorkerStep::ListEntries,
        Command::Insert { title, file_path } => WorkerStep::InsertEntry { title, file_path },
        Command::Delete { id } => WorkerStep::DeleteEntry { id },
        Command::SetLastPlayed { id } => {
            let value: Option<String> = match id {
                Some(id) => Some(format_i64(id)),
                None => None,
            };
            WorkerStep::WriteSelection { value, reply: None }
        },
    }
}

/// The step once the entries were listed.
pub open spec fn listed(result: Result<Seq<EntryView>, Seq<char>>) -> WorkerStepView {
    match result {
        Ok(entries) => WorkerStepView::ReadSelection(SelectionUseView::Load { entries }),
        Err(error) => failed(error),
    }
}

/// Go on once the entries were listed.
pub fn after_list(result: Result<Vec<AudioEntry>, String>) -> (r: WorkerStep)
    ensures
        r@ == listed(
            match result {
                Ok(entries) => Ok(entry_views(entries@)),
                Err(error) => Err(error@),
            },
        ),
{
    match result {
        Ok(entries) => WorkerStep::ReadSelection(SelectionUse::Load { entries }),
        Err(error) => fail(error),
    }
}

/// The step once the selection was read: for a load the reply with
/// the id that is remembered; for a removal the reply, after forgetting the
/// selection if it was the entry that was removed.
pub open spec fn selection_read(
    purpose: SelectionUseView,
    result: Result<Option<Option<Seq<char>>>, Seq<char>>,
) -> WorkerStepView {
    match result {
        Err(error) => failed(error),
        Ok(stored) => match purpose {
            SelectionUseView::Load { entries } => WorkerStepView::Done(
                Some(EventView::Loaded { entries, last_played: remembered(stored) }),
            ),
            SelectionUseView::Delete { id } => if stored == Some(Some(decimal(id as int))) {
                WorkerStepView::WriteSelection { value: None, reply: Some(EventView::Deleted(id)) }
            } else {
                WorkerStepView::Done(Some(EventView::Deleted(id)))
            },
        },
    }
}

/// What a stored selection stands for.
pub open spec fn stored_view(stored: Option<Option<String>>) -> Option<Option<Seq<char>>> {
    match stored {
        Some(text) => Some(text_view(text)),
        None => None,
    }
}

/// Go on once the selection was read. The result is the value of the row, `None`
/// where there is no row.
pub fn after_selection(
    purpose: SelectionUse,
    result: Result<Option<Option<String>>, String>,
) -> (r: WorkerStep)
    ensures
        r@ == selection_read(
            purpose@,
            match result {
                Ok(stored) => Ok(stored_view(stored)),
                Err(error) => Err(error@),
            },
        ),
{
    let stored: Option<Option<String>> = match result {
        Ok(stored) => stored,
        Err(error) => {
            return fail(error);
        },
    };
    let text: Option<String> = match stored {
        Some(text) => text,
        None => None,
    };
    match purpose {
        SelectionUse::Load { entries } => {
            let last_played: Option<i64> = match text {
                Some(text) => parse_i64(text.as_str()),
                None => None,
            };
            WorkerStep::Done(Some(Event::Loaded { entries, last_played }))
        },
        SelectionUse::Delete { id } => {
            let selected: bool = match text {
                Some(text) => text == format_i64(id),
                None => false,
            };
            if selected {
                WorkerStep::WriteSelection { value: None, reply: Some(Event::Deleted(id)) }
            } else {
                WorkerStep::Done(Some(Event::Deleted(id)))
            }
        },
    }
}

/// The step once an entry was stored.
pub open spec fn inserted(result: Result<EntryView, Seq<char>>) -> WorkerStepView {
    match result {
        Ok(entry) => WorkerStepView::Done(Some(EventView::Inserted(entry))),
        Err(error) => failed(error),
    }
}

/// Go on once an entry was stored.
pub fn after_insert(result: Result<AudioEntry, String>) -> (r: WorkerStep)
    ensures
        r@ == inserted(
            match result {
                Ok(entry) => Ok(entry@),
                Err(error) => Err(error@),
            },
        ),
{
    match result {
        Ok(entry) => WorkerStep::Done(Some(Event::Inserted(entry))),
        Err(error) => fail(error),
    }
}

/// The step once an entry was removed.
pub open spec fn deleted(id: i64, result: Result<(), Seq<char>>) -> WorkerStepView {
    match result {
        Ok(_) => WorkerStepView::ReadSelection(SelectionUseView::Delete { id }),
        Err(error) => failed(error),
    }
}

/// Go on once an entry was removed: if the removed entry was the remembered
/// selection, it has to be forgotten too.
pub fn after_delete(id: i64, result: Result<(), String>) -> (r: WorkerStep)
    ensures
        r@ == deleted(
            id,
            match result {
                Ok(_) => Ok(()),
                Err(error) => Err(error@),
            },
        ),
{
    match result {
        Ok(_) => WorkerStep::ReadSelection(SelectionUse::Delete { id }),
        Err(error) => fail(error),
    }
}

/// The step once the selection was written.
pub open spec fn written(reply: Option<EventView>, result: Result<(), Seq<char>>) -> WorkerStepView {
    match result {
        Ok(_) => WorkerStepView::Done(reply),
        Err(error) => failed(error),
    }
}

/// Go on once the selection was written.
pub fn after_write(reply: Option<Event>, result: Result<(), String>) -> (r: WorkerStep)
    ensures
        r@ == written(
            event_view(reply),
            match result {
                Ok(_) => Ok(()),
                Err(error) => Err(error@),
            },
        ),
{
    match result {
        Ok(_) => WorkerStep::Done(reply),
        Err(error) => fail(error),
    }
}

/// The text of a statement depends on the step alone, never on the values that it
/// is about: those are bound to its parameters, each as it is and in order.
pub proof fn law_statements_bind_their_values(
    a: WorkerStepView,
    b: WorkerStepView,
    title: Seq<char>,
    file_path: Seq<char>,
    id: i64,
    text: Seq<char>,
    reply: Option<EventView>,
)
    ensures
        a is InsertEntry && b is InsertEntry ==> statement_of(a)->0.sql == statement_of(b)->0.sql,
        a is DeleteEntry && b is DeleteEntry ==> statement_of(a)->0.sql == statement_of(b)->0.sql,
        a is ReadSelection && b is ReadSelection ==> statement_of(a) == statement_of(b),
        a is WriteSelection && b is WriteSelection ==> statement_of(a)->0.sql == statement_of(
            b,
        )->0.sql,
        statement_of(a) is None <==> a is Done,
        a is ReadSelection || a is ListEntries ==> statement_of(a)->0.parameters.len() == 0,
        ({
            let bound = statement_of(WorkerStepView::InsertEntry { title, file_path })->0.parameters;
            &&& bound.len() == 2
            &&& bound[0] == ParameterView::Text(title)
            &&& bound[1] == ParameterView::Text(file_path)
        }),
        ({
            let bound = statement_of(WorkerStepView::DeleteEntry { id })->0.parameters;
            &&& bound.len() == 1
            &&& bound[0] == ParameterView::Integer(id)
        }),
        ({
            let step = WorkerStepView::WriteSelection { value: Some(text), reply };
            let bound = statement_of(step)->0.parameters;
            &&& bound.len() == 1
            &&& bound[0] == ParameterView::Text(text)
        }),
        ({
            let step = WorkerStepView::WriteSelection { value: None, reply };
            let bound = statement_of(step)->0.parameters;
            &&& bound.len() == 1
            &&& bound[0] is Null
        }),
{
}

/// A remembered selection is read back as the id that was written; a memory that
/// is empty, was cleared or holds no number is read back as none.
pub proof fn law_selection_is_read_back(id: i64, text: Seq<char>)
    ensures
        remembered(Some(selection_text(Some(id)))) == Some(id),
        remembered(Some(selection_text(None))) is None,
        remembered(None) is None,
        remembered(Some(Some(text))) == parsed(text),
{
    law_parse_undoes_format(id);
}

/// What a command starts with: each is about the values that it was given.
pub proof fn law_commands_start_with_their_statement(
    title: Seq<char>,
    file_path: Seq<char>,
    id: i64,
)
    ensures
        begun(CommandView::Load) is ListEntries,
        begun(CommandView::Insert { title, file_path }) == (WorkerStepView::InsertEntry {
            title,
            file_path,
        }),
        begun(CommandView::Delete { id }) == (WorkerStepView::DeleteEntry { id }),
        begun(CommandView::SetLastPlayed { id: Some(id) }) is WriteSelection,
        remembered(Some(begun(CommandView::SetLastPlayed { id: Some(id) })->value)) == Some(id),
        begun(CommandView::SetLastPlayed { id: Some(id) })->reply is None,
        begun(CommandView::SetLastPlayed { id: None }) is WriteSelection,
        begun(CommandView::SetLastPlayed { id: None })->value is None,
{
    law_parse_undoes_format(id);
}

} // verus!
