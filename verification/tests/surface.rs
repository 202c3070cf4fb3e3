use audio_library::application::{
    on_activate, stylesheet, ActivateStep, APPLICATION_ID, APPLICATION_NAME, BACKGROUND_VARIABLE,
    RESOURCE_PREFIX,
};
use audio_library::models::AudioEntry;
use audio_library::ui::action::{Page, UiAction};
use audio_library::ui::dialogs::{
    choose_mp3, removes_entry, show_error, show_missing_file, Appearance,
};
use audio_library::ui::popover::EntryListPopover;

fn entries() -> Vec<AudioEntry> {
    vec![AudioEntry::new(8, "B", "/b.mp3"), AudioEntry::new(3, "A", "/a.mp3")]
}

#[test]
fn the_popover_is_rebuilt_with_its_highlight() {
    let mut popover = EntryListPopover::new();
    assert_eq!(
        popover.set_entries(&entries(), Some(3)).list,
        vec![
            UiAction::ClearRows,
            UiAction::AppendRow("B".to_string()),
            UiAction::AppendRow("A".to_string()),
            UiAction::ShowPage(Page::List),
            UiAction::SelectRow(1),
        ]
    );
    assert_eq!(
        popover.set_entries(&Vec::new(), Some(3)).list,
        vec![UiAction::ClearRows, UiAction::ShowPage(Page::Empty), UiAction::UnselectRows]
    );
}

#[test]
fn highlighting_an_unknown_entry_clears_the_highlight() {
    let mut popover = EntryListPopover::default();
    popover.set_entries(&entries(), None);
    assert_eq!(popover.select(Some(8)), UiAction::SelectRow(0));
    assert_eq!(popover.select(Some(4)), UiAction::UnselectRows);
    assert_eq!(popover.select(None), UiAction::UnselectRows);
}

#[test]
fn activated_rows_are_their_entries() {
    let mut popover = EntryListPopover::new();
    assert_eq!(popover.activated(0), None);
    popover.set_entries(&entries(), None);
    assert_eq!(popover.activated(0), Some(8));
    assert_eq!(popover.activated(1), Some(3));
    assert_eq!(popover.activated(2), None);
    assert_eq!(popover.activated(-1), None);
    let UiAction::SelectRow(row) = popover.select(Some(3)) else {
        panic!("the entry has a row");
    };
    assert_eq!(popover.activated(row as i32), Some(3));
}

#[test]
fn error_dialogs_have_one_button() {
    let dialog = show_error("Database error", "disk is full");
    assert_eq!(dialog.heading, "Database error");
    assert_eq!(dialog.body, "disk is full");
    assert_eq!(dialog.responses.len(), 1);
    assert_eq!(dialog.responses[0].id, "close");
    assert_eq!(dialog.responses[0].label, "Close");
    assert_eq!(dialog.responses[0].appearance, Appearance::Default);
    assert_eq!(dialog.default_response, "close");
    assert_eq!(dialog.close_response, "close");
}

#[test]
fn missing_files_can_be_removed_or_kept() {
    let dialog = show_missing_file("/music/a.mp3");
    assert_eq!(dialog.heading, "Audio file could not be found.");
    assert_eq!(dialog.body, "The audio file could not be found.\n\n/music/a.mp3");
    let ids: Vec<&str> = dialog.responses.iter().map(|r| r.id).collect();
    assert_eq!(ids, vec!["cancel", "remove"]);
    let labels: Vec<&str> = dialog.responses.iter().map(|r| r.label).collect();
    assert_eq!(labels, vec!["Cancel", "Remove Entry"]);
    assert_eq!(dialog.responses[0].appearance, Appearance::Suggested);
    assert_eq!(dialog.responses[1].appearance, Appearance::Destructive);
    assert!(!removes_entry(dialog.default_response));
    assert!(!removes_entry(dialog.close_response));
    assert!(removes_entry("remove"));
    assert_eq!(show_missing_file("  \t").body, "The audio file could not be found.");
}

#[test]
fn mp3_files_can_be_chosen() {
    let dialog = choose_mp3();
    assert_eq!(dialog.title, "Choose an MP3 file");
    assert_eq!(dialog.accept_label, "Choose");
    assert_eq!(dialog.filter_name, "MP3 audio");
    assert_eq!(dialog.mime_types, vec!["audio/mpeg", "audio/mp3"]);
    assert_eq!(dialog.patterns, vec!["*.mp3"]);
}

#[test]
fn activation_shows_a_window_unless_in_the_background() {
    assert_eq!(on_activate(true, Some("1")), ActivateStep::PresentExisting);
    assert_eq!(on_activate(false, None), ActivateStep::CreateAndPresent);
    assert_eq!(on_activate(false, Some("0")), ActivateStep::CreateAndPresent);
    assert_eq!(on_activate(false, Some("1")), ActivateStep::CreateHidden);
    assert_eq!(BACKGROUND_VARIABLE, "AUDIO_LIBRARY_BACKGROUND");
    assert_eq!(APPLICATION_ID, "org.example.AudioLibrary");
    assert_eq!(APPLICATION_NAME, "Audio Library");
    assert_eq!(RESOURCE_PREFIX, "/org/example/AudioLibrary");
    assert_eq!(stylesheet(), "/org/example/AudioLibrary/style.css");
}
