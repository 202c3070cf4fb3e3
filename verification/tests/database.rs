use audio_library::database::{
    after_delete, after_insert, after_list, after_open, after_selection, after_write, begin,
    open_database, statement, takes_another_command, Command, Database, Event, OpenStep, Opened,
    Parameter, SelectionUse, Statement, WorkerStep, DATABASE_FILE, DATA_DIRECTORY,
};
use audio_library::models::AudioEntry;
use rusqlite::types::Value;
use rusqlite::{params_from_iter, Connection, OptionalExtension, Row};

fn row_to_entry(row: &Row<'_>) -> rusqlite::Result<AudioEntry> {
    Ok(AudioEntry {
        id: row.get(0)?,
        title: row.get(1)?,
        file_path: row.get(2)?,
        created_at: row.get(3)?,
    })
}

/// A database backed by SQLite in memory, driven synchronously.
struct TestDb {
    handle: Database,
    connection: Connection,
}

impl TestDb {
    fn new() -> TestDb {
        TestDb::open(":memory:")
    }

    fn open(path: &str) -> TestDb {
        let connection = Connection::open(path).unwrap();
        for step in open_database() {
            match step {
                OpenStep::Pragma { name, value } => {
                    connection.pragma_update(None, name, value).unwrap()
                }
                OpenStep::Batch { sql } => connection.execute_batch(sql).unwrap(),
            }
        }
        TestDb { handle: Database::new(), connection }
    }

    fn list(&self, statement: Statement) -> rusqlite::Result<Vec<AudioEntry>> {
        let mut prepared = self.connection.prepare(statement.sql)?;
        let rows =
            prepared.query_map(params_from_iter(values(statement.parameters)), row_to_entry)?;
        rows.collect()
    }

    fn insert(&self, statement: Statement) -> rusqlite::Result<AudioEntry> {
        let mut prepared = self.connection.prepare(statement.sql)?;
        prepared.query_row(params_from_iter(values(statement.parameters)), row_to_entry)
    }

    fn selection(&self) -> rusqlite::Result<Option<Option<String>>> {
        let step = WorkerStep::ReadSelection(SelectionUse::Delete { id: 0 });
        let statement = statement(&step).unwrap();
        self.connection
            .query_row(
                statement.sql,
                params_from_iter(values(statement.parameters)),
                |row| row.get::<_, Option<String>>(0),
            )
            .optional()
    }

    fn execute(&self, statement: Statement) -> rusqlite::Result<()> {
        self.connection
            .execute(statement.sql, params_from_iter(values(statement.parameters)))
            .map(|_| ())
    }

    /// Run the oldest command to its end.
    fn run(&mut self) -> Option<Event> {
        let mut step = begin(self.handle.next_command().expect("a command waits"));
        while let Some(next) = statement(&step) {
            step = match step {
                WorkerStep::ListEntries => after_list(self.list(next).map_err(|e| e.to_string())),
                WorkerStep::ReadSelection(purpose) => {
                    after_selection(purpose, self.selection().map_err(|e| e.to_string()))
                }
                WorkerStep::InsertEntry { .. } => {
                    after_insert(self.insert(next).map_err(|e| e.to_string()))
                }
                WorkerStep::DeleteEntry { id } => {
                    after_delete(id, self.execute(next).map_err(|e| e.to_string()))
                }
                WorkerStep::WriteSelection { reply, .. } => {
                    after_write(reply, self.execute(next).map_err(|e| e.to_string()))
                }
                WorkerStep::Done(_) => panic!("a command that is done has no statement"),
            };
        }
        match step {
            WorkerStep::Done(event) => event,
            other => panic!("{other:?} has no statement"),
        }
    }
}

fn values(parameters: Vec<Parameter>) -> Vec<Value> {
    let mut values = Vec::new();
    for parameter in parameters {
        values.push(match parameter {
            Parameter::Null => Value::Null,
            Parameter::Integer(value) => Value::Integer(value),
            Parameter::Text(text) => Value::Text(text),
        });
    }
    values
}

#[test]
fn insert_then_load_round_trip() {
    let mut db = TestDb::new();
    db.handle.insert("Meditation".into(), "/tmp/meditation.mp3".into());
    let inserted = db.run();
    let Some(Event::Inserted(entry)) = inserted else {
        panic!("expected Inserted event, got {inserted:?}");
    };
    assert_eq!(entry.title, "Meditation");
    assert_eq!(entry.file_path, "/tmp/meditation.mp3");
    assert!(!entry.created_at.is_empty());

    db.handle.load();
    match db.run() {
        Some(Event::Loaded { entries, .. }) => {
            assert_eq!(entries, vec![entry]);
        }
        other => panic!("expected Loaded event, got {other:?}"),
    }
}

#[test]
fn last_played_is_remembered_across_loads() {
    let mut db = TestDb::new();
    db.handle.set_last_played(Some(7));
    // SetLastPlayed has no reply event, so the next event is from Load.
    db.handle.load();
    assert_eq!(db.run(), None);
    match db.run() {
        Some(Event::Loaded { last_played, .. }) => assert_eq!(last_played, Some(7)),
        other => panic!("expected Loaded event, got {other:?}"),
    }
}

#[test]
fn deleting_removes_entry_and_clears_selection() {
    let mut db = TestDb::new();
    db.handle.insert("A".into(), "/tmp/a.mp3".into());
    let entry = match db.run() {
        Some(Event::Inserted(entry)) => entry,
        other => panic!("expected Inserted event, got {other:?}"),
    };
    db.handle.set_last_played(Some(entry.id));
    assert_eq!(db.run(), None);

    db.handle.delete(entry.id);
    assert!(matches!(db.run(), Some(Event::Deleted(id)) if id == entry.id));

    db.handle.load();
    match db.run() {
        Some(Event::Loaded { entries, last_played }) => {
            assert!(entries.is_empty());
            assert_eq!(last_played, None);
        }
        other => panic!("expected Loaded event, got {other:?}"),
    }
}

#[test]
fn deleting_another_entry_keeps_the_selection() {
    let mut db = TestDb::new();
    for title in ["A", "B"] {
        db.handle.insert(title.into(), "/tmp/x.mp3".into());
        db.run();
    }
    db.handle.set_last_played(Some(1));
    db.run();
    db.handle.delete(2);
    assert_eq!(db.run(), Some(Event::Deleted(2)));
    db.handle.load();
    match db.run() {
        Some(Event::Loaded { entries, last_played }) => {
            assert_eq!(entries.len(), 1);
            assert_eq!(entries[0].title, "A");
            assert_eq!(last_played, Some(1));
        }
        other => panic!("expected Loaded event, got {other:?}"),
    }
}

#[test]
fn entries_are_listed_newest_first_and_ids_are_not_reused() {
    let mut db = TestDb::new();
    for title in ["A", "B", "C"] {
        db.handle.insert(title.into(), "/tmp/x.mp3".into());
        db.run();
    }
    db.handle.delete(3);
    db.run();
    db.handle.insert("D".into(), "/tmp/x.mp3".into());
    db.run();
    db.connection
        .execute("UPDATE audio_files SET created_at = '1999-12-31' WHERE id = 2", [])
        .unwrap();
    db.handle.load();
    match db.run() {
        Some(Event::Loaded { entries, last_played }) => {
            let titles: Vec<&str> = entries.iter().map(|e| e.title.as_str()).collect();
            assert_eq!(titles, vec!["D", "A", "B"]);
            assert_eq!(entries[0].id, 4);
            assert_eq!(last_played, None);
        }
        other => panic!("expected Loaded event, got {other:?}"),
    }
}

#[test]
fn the_selection_can_be_cleared_and_need_not_be_a_number() {
    let mut db = TestDb::new();
    db.handle.set_last_played(Some(-3));
    db.handle.set_last_played(None);
    assert_eq!(db.run(), None);
    assert_eq!(db.selection().unwrap(), Some(Some("-3".to_string())));
    assert_eq!(db.run(), None);
    assert_eq!(db.selection().unwrap(), Some(None));
    let junk = WorkerStep::WriteSelection { value: Some("junk".to_string()), reply: None };
    db.execute(statement(&junk).unwrap()).unwrap();
    db.handle.load();
    assert_eq!(
        db.run(),
        Some(Event::Loaded { entries: Vec::new(), last_played: None })
    );
}

#[test]
fn failed_statements_are_reported() {
    let mut db = TestDb::new();
    db.connection.execute_batch("DROP TABLE audio_files;").unwrap();
    db.handle.load();
    let Some(Event::Error(message)) = db.run() else {
        panic!("expected Error event");
    };
    assert!(message.starts_with("Database error: no such table: audio_files"), "{message}");

    let failure = || "disk is full".to_string();
    let reported = WorkerStep::Done(Some(Event::Error("Database error: disk is full".to_string())));
    assert_eq!(after_list(Err(failure())), reported);
    assert_eq!(after_insert(Err(failure())), reported);
    assert_eq!(after_delete(1, Err(failure())), reported);
    assert_eq!(after_write(Some(Event::Deleted(1)), Err(failure())), reported);
    assert_eq!(after_selection(SelectionUse::Delete { id: 1 }, Err(failure())), reported);
}

#[test]
fn a_removed_selection_is_forgotten_before_the_reply() {
    let step = after_selection(SelectionUse::Delete { id: 5 }, Ok(Some(Some("5".to_string()))));
    assert_eq!(
        step,
        WorkerStep::WriteSelection { value: None, reply: Some(Event::Deleted(5)) }
    );
    let step = after_selection(SelectionUse::Delete { id: 5 }, Ok(Some(Some("05".to_string()))));
    assert_eq!(step, WorkerStep::Done(Some(Event::Deleted(5))));
    let step = after_selection(SelectionUse::Delete { id: 5 }, Ok(None));
    assert_eq!(step, WorkerStep::Done(Some(Event::Deleted(5))));
}

#[test]
fn commands_are_taken_in_order() {
    let mut handle = Database::new();
    assert_eq!(handle.next_command(), None);
    handle.load();
    handle.delete(4);
    handle.set_last_played(None);
    handle.insert("T".to_string(), "/p".to_string());
    assert_eq!(handle.next_command(), Some(Command::Load));
    assert_eq!(handle.next_command(), Some(Command::Delete { id: 4 }));
    assert_eq!(handle.next_command(), Some(Command::SetLastPlayed { id: None }));
    assert_eq!(
        handle.next_command(),
        Some(Command::Insert { title: "T".to_string(), file_path: "/p".to_string() })
    );
    assert_eq!(handle.next_command(), None);
}

#[test]
fn the_worker_ends_when_nobody_listens() {
    assert!(takes_another_command(true, true));
    assert!(!takes_another_command(true, false));
    assert!(takes_another_command(false, false));
    assert_eq!(DATA_DIRECTORY, "audio-library");
    assert_eq!(DATABASE_FILE, "audio-library.db");
}

#[test]
fn a_new_database_is_empty() {
    let mut db = TestDb::new();
    db.handle.load();
    assert_eq!(
        db.run(),
        Some(Event::Loaded { entries: Vec::new(), last_played: None })
    );
}

#[test]
fn opening_again_keeps_what_is_stored() {
    // Two connections to one database in memory, which lives as long as either.
    let path = "file:opening_again?mode=memory&cache=shared";
    let mut db = TestDb::open(path);
    for title in ["A", "B"] {
        db.handle.insert(title.into(), "/tmp/x.mp3".into());
        db.run();
    }
    db.handle.delete(2);
    db.run();
    db.handle.set_last_played(Some(1));
    db.run();
    db.handle.load();
    let before = db.run();
    assert!(matches!(
        &before,
        Some(Event::Loaded { entries, last_played: Some(1) }) if entries.len() == 1
    ));

    let mut again = TestDb::open(path);
    again.handle.load();
    assert_eq!(again.run(), before);
    // The id of the deleted entry is not given out again.
    again.handle.insert("C".into(), "/tmp/x.mp3".into());
    assert!(matches!(again.run(), Some(Event::Inserted(entry)) if entry.id == 3));
}

#[test]
fn a_failure_does_not_keep_later_commands_from_being_answered() {
    let mut db = TestDb::new();
    db.connection.execute_batch("ALTER TABLE audio_files RENAME TO hidden;").unwrap();
    db.handle.insert("A".into(), "/tmp/a.mp3".into());
    db.handle.delete(1);
    db.handle.set_last_played(Some(9));
    let missing = |event: Option<Event>| {
        matches!(event, Some(Event::Error(message))
            if message.starts_with("Database error: no such table: audio_files"))
    };
    assert!(missing(db.run()));
    assert!(missing(db.run()));
    assert_eq!(db.run(), None);
    db.connection.execute_batch("ALTER TABLE hidden RENAME TO audio_files;").unwrap();
    db.handle.insert("B".into(), "/tmp/b.mp3".into());
    db.handle.load();
    let Some(Event::Inserted(entry)) = db.run() else {
        panic!("expected Inserted event");
    };
    assert_eq!(entry.title, "B");
    assert_eq!(
        db.run(),
        Some(Event::Loaded { entries: vec![entry], last_played: Some(9) })
    );
}

#[test]
fn a_worker_without_a_database_ends() {
    assert_eq!(after_open(Ok(())), Opened::Serves);
    assert_eq!(
        after_open(Err("no".to_string())),
        Opened::Ends(Event::Error("Could not open database: no".to_string()))
    );
}

#[test]
fn every_step_but_the_last_has_its_statement() {
    let insert = statement(&WorkerStep::InsertEntry {
        title: "T".to_string(),
        file_path: "/p".to_string(),
    })
    .unwrap();
    assert_eq!(
        insert.sql,
        "INSERT INTO audio_files (title, file_path, created_at)
         VALUES (?1, ?2, strftime('%Y-%m-%d', 'now'))
         RETURNING id, title, file_path, created_at"
    );
    assert_eq!(
        insert.parameters,
        vec![Parameter::Text("T".to_string()), Parameter::Text("/p".to_string())]
    );
    let list = statement(&WorkerStep::ListEntries).unwrap();
    assert_eq!(
        list.sql,
        "SELECT id, title, file_path, created_at FROM audio_files ORDER BY created_at DESC, id DESC"
    );
    assert!(list.parameters.is_empty());
    let delete = statement(&WorkerStep::DeleteEntry { id: 4 }).unwrap();
    assert_eq!(delete.sql, "DELETE FROM audio_files WHERE id = ?1");
    assert_eq!(delete.parameters, vec![Parameter::Integer(4)]);
    let forget = statement(&WorkerStep::WriteSelection { value: None, reply: None }).unwrap();
    assert_eq!(
        forget.sql,
        "INSERT OR REPLACE INTO app_settings (key, value) VALUES ('last_played_id', ?1)"
    );
    assert_eq!(forget.parameters, vec![Parameter::Null]);
    assert_eq!(statement(&WorkerStep::Done(None)), None);
}

#[test]
fn an_entry_gets_no_id_that_was_given_out_before() {
    let mut db = TestDb::new();
    db.handle.insert("A".into(), "/tmp/a.mp3".into());
    db.run();
    // The last id there is has been given out and its entry removed.
    db.connection
        .execute_batch(
            "INSERT INTO audio_files (id, title, file_path)
                 VALUES (9223372036854775807, 'Z', '/tmp/z.mp3');
             DELETE FROM audio_files WHERE title = 'Z';",
        )
        .unwrap();
    db.handle.insert("B".into(), "/tmp/b.mp3".into());
    let Some(Event::Error(message)) = db.run() else {
        panic!("expected Error event");
    };
    assert!(message.starts_with("Database error: "), "{message}");
}
