# Audio Library

A lightweight personal audio collection for GNOME: it stores references to MP3
files under titles of your choice and plays them from the main window or from a
top-bar indicator.

The logic is a Verus library. Every function in `src/` but one (see "What is
trusted") has a contract that Verus proves, and the laws of the library as a
whole stand beside them as proof functions whose names start with `law_`.

## Layout

* `src/` – the verified library. It performs no I/O: a handler takes what
  happened and returns what has to happen next.
* `app/` – the program around it: GTK widgets, the GStreamer pipeline, the
  SQLite worker thread and the StatusNotifier indicator.
* `tests/` – tests of the library, among them some that run its SQL statements
  on SQLite.

## What is trusted

One function: `quote` in `src/models.rs`, which calls `std` for the `{:?}` text
of a string; its contract is believed.

Two models stand for what the library cannot see, and laws rest on them:

* The SQL statements are text to Verus. `src/tables.rs` writes down what each of
  them does to the tables, what opening a database does, and that the store
  refuses an id that is not above all earlier ones (`AUTOINCREMENT`). The laws
  about stored data rest on that. Those in `src/worker.rs` do not: they hold
  whatever the statements answer.
* `src/pipeline.rs` writes down what the media pipeline does on each request. The
  laws in `src/playback.rs` rest on that.

## Behaviour

* The library is listed newest first. A saved entry goes to the front.
* The entry that was played last is remembered and highlighted at the next
  launch.
* Closing the window hides it and playback continues; the indicator's "Quit"
  stops playback and ends the application.
* `AUDIO_LIBRARY_BACKGROUND=1` starts with the indicator alone.

## Building

`app/` needs the development files of GTK 4, libadwaita and GStreamer. `kstring`
is named in `Cargo.toml` only to hold a dependency of GStreamer's bindings at a
version that Rust 1.95 can build.

The stylesheet comes in a compiled resource bundle, `audio-library.gresource`,
which has to be installed in the data directory beside the database.
