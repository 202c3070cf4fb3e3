use audio_library::database::{Command, Event};
use audio_library::models::AudioEntry;
use audio_library::pipeline::PipelineRequest;
use audio_library::player::{
    BusMessage, PipelineSetup, PlaybackState, Player, PlayerError, PlayerEvent,
};
use audio_library::tray::{LibraryTray, TrayCommand, TrayItem};
use audio_library::ui::action::{Page, UiAction};
use audio_library::window::{
    initial_display, shortcuts, ChosenFile, FileChoice, Location, Shortcut, TrayStep, Turn, Window,
};

fn text(s: &str) -> String {
    s.to_string()
}

fn status(s: &str) -> UiAction<String> {
    UiAction::SetStatus(s.to_string())
}

fn entry(id: i64, title: &str) -> AudioEntry {
    AudioEntry::new(id, title, &format!("/music/{id}.mp3"))
}

fn new_window() -> Window {
    Window::new(Player::new(PipelineSetup::Ready)).0
}

/// A window whose library holds "Rain" (2) and "Talk" (1).
fn loaded_window() -> Window {
    let mut window = new_window();
    let turn = window.on_database_event(Event::Loaded {
        entries: vec![entry(2, "Rain"), entry(1, "Talk")],
        last_played: None,
    });
    window.finish(turn, false);
    window
}

fn finish(window: &mut Window, turn: Turn) -> Vec<UiAction<String>> {
    window.finish(turn, true).list
}

fn play(window: &mut Window, id: i64) -> Vec<UiAction<String>> {
    let activation = window.on_entry_activated(id).expect("the entry exists");
    assert_eq!(activation.actions.list, vec![UiAction::Popdown]);
    let uri = format!("file:///music/{id}.mp3");
    let turn = window.on_entry_located(&activation.entry, Location::Uri(uri));
    finish(window, turn)
}

fn commands(window: &mut Window) -> Vec<Command> {
    let mut taken = Vec::new();
    while let Some(command) = window.database.next_command() {
        taken.push(command);
    }
    taken
}

fn chosen(path: &str) -> FileChoice {
    FileChoice::Chosen(ChosenFile { display: text(path), path: Some(text(path)) })
}

#[test]
fn a_window_without_a_player_says_why() {
    let (window, actions) = Window::new(Err(PlayerError::Init(text("no bus"))));
    assert_eq!(
        actions.list,
        vec![UiAction::ShowError {
            title: text("Playback unavailable"),
            body: text("GStreamer could not be initialized:\nno bus"),
        }]
    );
    assert!(window.player.play_uri("file:///a").is_none());
    assert!(Window::new(Player::new(PipelineSetup::Ready)).1.list.is_empty());
}

#[test]
fn setting_up_loads_the_library() {
    let mut window = new_window();
    assert_eq!(
        window.setup("Title").list,
        vec![UiAction::SetSaveSensitive(false), status("Ready")]
    );
    assert_eq!(commands(&mut window), vec![Command::Load]);
}

#[test]
fn the_initial_display_is_that_of_a_new_window() {
    let initial = initial_display().list;
    assert!(initial.contains(&status("Ready")));
    assert!(initial.contains(&UiAction::SetTime(text("0:00 / 0:00"))));
    assert!(initial.contains(&UiAction::SetSaveSensitive(false)));
    assert!(initial.contains(&UiAction::SetFileSubtitle(text("No file selected"))));
    assert!(initial.contains(&UiAction::ShowPage(Page::Empty)));
    assert_eq!(initial.len(), 10);
    assert_eq!(new_window().refresh_status(), status("Ready"));
    assert_eq!(shortcuts(), vec![('o', Shortcut::ChooseFile), ('s', Shortcut::Save)]);
}

#[test]
fn choosing_a_file_enables_saving() {
    let mut window = new_window();
    assert_eq!(
        window.on_choose_file(chosen("/m/a.mp3"), "  ").list,
        vec![
            UiAction::SetFileSubtitle(text("/m/a.mp3")),
            UiAction::SetFileTooltip(Some(text("/m/a.mp3"))),
            UiAction::SetSaveSensitive(false),
        ]
    );
    assert_eq!(
        window.update_save_enabled(" x").list,
        vec![UiAction::SetSaveSensitive(true)]
    );
    assert!(window.on_choose_file(FileChoice::Cancelled, "x").list.is_empty());
    assert!(window.state.pending.is_some());
    assert_eq!(
        window.on_choose_file(FileChoice::NotLocal, "x").list,
        vec![UiAction::ShowError {
            title: text("Invalid file"),
            body: text("The selected file could not be resolved to a local path."),
        }]
    );
    assert_eq!(
        window.on_choose_file(FileChoice::Failed(text("busy")), "x").list,
        vec![UiAction::ShowError { title: text("Could not open file"), body: text("busy") }]
    );
}

#[test]
fn saving_needs_a_title_and_a_file() {
    let mut window = new_window();
    assert!(window.on_save("Title").list.is_empty());
    window.on_choose_file(chosen("/m/a.mp3"), "");
    assert!(window.on_save(" \t").list.is_empty());
    assert!(commands(&mut window).is_empty());
    assert!(window.on_save("  Morning talk ").list.is_empty());
    assert_eq!(
        commands(&mut window),
        vec![Command::Insert { title: text("Morning talk"), file_path: text("/m/a.mp3") }]
    );
}

#[test]
fn paths_that_are_not_utf8_cannot_be_saved() {
    let mut window = new_window();
    let file = ChosenFile { display: text("/m/\u{fffd}.mp3"), path: None };
    window.on_choose_file(FileChoice::Chosen(file), "x");
    assert_eq!(
        window.on_save("x").list,
        vec![UiAction::ShowError {
            title: text("Invalid file"),
            body: text("The selected file has no valid UTF-8 path."),
        }]
    );
    assert!(commands(&mut window).is_empty());
}

#[test]
fn a_stored_entry_comes_first_and_empties_the_form() {
    let mut window = loaded_window();
    window.on_choose_file(chosen("/m/a.mp3"), "New");
    let turn = window.on_database_event(Event::Inserted(entry(3, "New")));
    assert!(turn.attempt.is_none());
    assert_eq!(
        finish(&mut window, turn),
        vec![
            UiAction::ClearRows,
            UiAction::AppendRow(text("New")),
            UiAction::AppendRow(text("Rain")),
            UiAction::AppendRow(text("Talk")),
            UiAction::ShowPage(Page::List),
            UiAction::UnselectRows,
            UiAction::AddToast(text("Audio saved.")),
            UiAction::SetTitleText(String::new()),
            UiAction::SetFileSubtitle(text("No file selected")),
            UiAction::SetFileTooltip(None),
            UiAction::SetSaveSensitive(false),
        ]
    );
    assert!(window.state.pending.is_none());
    assert_eq!(window.popover.activated(0), Some(3));
}

#[test]
fn the_last_selection_is_restored_on_launch() {
    let mut window = new_window();
    let turn = window.on_database_event(Event::Loaded {
        entries: vec![entry(2, "Rain"), entry(1, "Talk")],
        last_played: Some(1),
    });
    assert_eq!(
        finish(&mut window, turn),
        vec![
            UiAction::ClearRows,
            UiAction::AppendRow(text("Rain")),
            UiAction::AppendRow(text("Talk")),
            UiAction::ShowPage(Page::List),
            UiAction::SelectRow(1),
            status("Ready"),
        ]
    );
}

#[test]
fn a_reload_keeps_the_loaded_entry_highlighted() {
    let mut window = loaded_window();
    play(&mut window, 2);
    let turn = window.on_database_event(Event::Loaded {
        entries: vec![entry(2, "Rain"), entry(1, "Talk")],
        last_played: Some(1),
    });
    let actions = finish(&mut window, turn);
    assert_eq!(actions[4], UiAction::SelectRow(0));
    assert_eq!(actions[5], status("Playing: Rain"));
}

#[test]
fn activating_an_entry_plays_and_remembers_it() {
    let mut window = loaded_window();
    assert!(window.on_entry_activated(5).is_none());
    assert_eq!(
        play(&mut window, 1),
        vec![UiAction::SelectRow(1), status("Playing: Talk")]
    );
    assert_eq!(window.player.state(), PlaybackState::Playing);
    assert_eq!(window.state.playing_id, Some(1));
    assert!(window.state.has_current_uri);
    assert_eq!(commands(&mut window), vec![Command::SetLastPlayed { id: Some(1) }]);
}

#[test]
fn a_refused_entry_is_still_loaded() {
    let mut window = loaded_window();
    let turn = window.on_entry_located(&entry(2, "Rain"), Location::Uri(text("file:///r")));
    assert_eq!(
        window.finish(turn, false).list,
        vec![UiAction::SelectRow(0), status("Ready")]
    );
    assert_eq!(window.state.playing_id, Some(2));
}

#[test]
fn missing_files_are_offered_for_removal() {
    let mut window = loaded_window();
    play(&mut window, 2);
    commands(&mut window);
    let activation = window.on_entry_activated(2).unwrap();
    let turn = window.on_entry_located(&activation.entry, Location::Missing);
    assert_eq!(
        finish(&mut window, turn),
        vec![UiAction::ShowMissingFile { id: 2, file_path: text("/music/2.mp3") }]
    );
    assert_eq!(window.player.state(), PlaybackState::Playing);

    let turn = window.on_remove_missing(1);
    assert!(turn.attempt.is_none());
    assert!(finish(&mut window, turn).is_empty());
    let turn = window.on_remove_missing(2);
    assert!(finish(&mut window, turn).is_empty());
    assert_eq!(window.player.state(), PlaybackState::Stopped);
    assert_eq!(window.state.playing_id, None);
    assert_eq!(
        commands(&mut window),
        vec![Command::Delete { id: 1 }, Command::Delete { id: 2 }]
    );
}

#[test]
fn paths_without_a_uri_are_reported() {
    let mut window = loaded_window();
    let turn = window.on_entry_located(&entry(2, "Rain"), Location::NoUri(text("not absolute")));
    assert_eq!(
        finish(&mut window, turn),
        vec![UiAction::ShowError {
            title: text("Could not play file"),
            body: format!("{:?}: not absolute", entry(2, "Rain")),
        }]
    );
    assert_eq!(window.state.playing_id, None);
}

#[test]
fn the_play_button_toggles() {
    let mut window = loaded_window();
    let turn = window.on_play_toggled(true);
    assert_eq!(finish(&mut window, turn), vec![UiAction::SetPlayActive(false)]);
    play(&mut window, 2);
    let turn = window.on_play_toggled(true);
    assert!(turn.attempt.is_none());
    assert!(finish(&mut window, turn).is_empty());
    let turn = window.on_play_toggled(false);
    assert_eq!(finish(&mut window, turn), vec![status("Paused: Rain")]);
    let turn = window.on_play_toggled(true);
    assert_eq!(finish(&mut window, turn), vec![status("Playing: Rain")]);
}

#[test]
fn stopping_rewinds_the_controls() {
    let mut window = loaded_window();
    play(&mut window, 2);
    window.refresh(Some(5_000_000_000), Some(60_000_000_000), 0);
    assert_eq!(window.state.last_duration, 60);
    let turn = window.on_stop();
    assert_eq!(
        finish(&mut window, turn),
        vec![
            UiAction::SetPosition(0),
            UiAction::SetTime(text("0:00 / 0:00")),
            status("Ready"),
        ]
    );
    assert_eq!(window.player.state(), PlaybackState::Stopped);
    assert_eq!(window.state.playing_id, Some(2));
}

#[test]
fn seeking_needs_an_open_stream() {
    let mut window = loaded_window();
    assert_eq!(window.on_seek(10, 1), None);
    assert_eq!(window.state.last_interaction, Some(1));
    play(&mut window, 2);
    assert_eq!(window.state.last_interaction, None);
    assert_eq!(window.on_seek(10, 2), Some(PipelineRequest::Seek(10_000_000_000)));
}

#[test]
fn removing_the_loaded_entry_stops_playback() {
    let mut window = loaded_window();
    play(&mut window, 2);
    let turn = window.on_database_event(Event::Deleted(2));
    assert_eq!(
        finish(&mut window, turn),
        vec![
            UiAction::ClearRows,
            UiAction::AppendRow(text("Talk")),
            UiAction::ShowPage(Page::List),
            UiAction::UnselectRows,
            status("Ready"),
        ]
    );
    assert_eq!(window.player.state(), PlaybackState::Stopped);
    assert!(!window.state.has_current_uri);
}

#[test]
fn removing_another_entry_leaves_playback_alone() {
    let mut window = loaded_window();
    play(&mut window, 2);
    let turn = window.on_database_event(Event::Deleted(1));
    assert!(turn.attempt.is_none());
    let actions = finish(&mut window, turn);
    assert_eq!(actions.last(), Some(&status("Playing: Rain")));
    assert_eq!(actions[3], UiAction::SelectRow(0));
    assert_eq!(window.player.state(), PlaybackState::Playing);
}

#[test]
fn database_errors_are_shown() {
    let mut window = loaded_window();
    let turn = window.on_database_event(Event::Error(text("Database error: locked")));
    assert_eq!(
        finish(&mut window, turn),
        vec![UiAction::ShowError {
            title: text("Database error"),
            body: text("Database error: locked"),
        }]
    );
}

#[test]
fn the_end_of_a_stream_resets_the_controls() {
    let mut window = loaded_window();
    play(&mut window, 2);
    window.refresh(Some(1), Some(125_000_000_000), 0);
    let reaction = window.on_bus_message(BusMessage::EndOfStream);
    assert_eq!(reaction.event, Some(PlayerEvent::EndOfStream));
    assert_eq!(
        window.on_player_event(PlayerEvent::EndOfStream).list,
        vec![
            UiAction::SetPosition(0),
            UiAction::SetTime(text("0:00 / 2:05")),
            status("Ready"),
        ]
    );
}

#[test]
fn playback_errors_are_shown() {
    let mut window = loaded_window();
    play(&mut window, 2);
    window.on_bus_message(BusMessage::Error(text("no decoder")));
    assert_eq!(
        window.on_player_event(PlayerEvent::Error(text("no decoder"))).list,
        vec![
            status("Ready"),
            UiAction::ShowError { title: text("Playback error"), body: text("no decoder") },
        ]
    );
    assert_eq!(window.state.last_duration, 0);
}

#[test]
fn a_refresh_shows_the_stream() {
    let mut window = loaded_window();
    play(&mut window, 2);
    let shown = window.refresh(Some(65_900_000_000), Some(754_000_000_000), 0).list;
    assert_eq!(
        shown,
        vec![
            UiAction::SetPositionRange(754),
            UiAction::SetPosition(65),
            UiAction::SetPlayActive(true),
            UiAction::SetPlayIcon(text("media-playback-pause-symbolic")),
            UiAction::SetPlayTooltip(text("Pause")),
            UiAction::SetStopSensitive(true),
            UiAction::SetTime(text("1:05 / 12:34")),
            status("Playing: Rain"),
        ]
    );
    let turn = window.on_stop();
    window.finish(turn, true);
    let shown = window.refresh(Some(65_900_000_000), Some(754_000_000_000), 0).list;
    assert_eq!(
        shown,
        vec![
            UiAction::SetPlayActive(false),
            UiAction::SetPlayIcon(text("media-playback-start-symbolic")),
            UiAction::SetPlayTooltip(text("Play")),
            UiAction::SetStopSensitive(false),
            UiAction::SetTime(text("0:00 / 0:00")),
            status("Ready"),
        ]
    );
}

#[test]
fn a_dragged_slider_is_left_alone() {
    let mut window = loaded_window();
    play(&mut window, 2);
    window.on_seek(10, 1_000_000_000);
    let moved = |actions: Vec<UiAction<String>>| {
        actions.iter().any(|action| matches!(action, UiAction::SetPosition(_)))
    };
    assert!(!moved(window.refresh(Some(4_000_000_000), None, 1_299_999_999).list));
    assert!(moved(window.refresh(Some(4_000_000_000), None, 1_300_000_000).list));
    assert!(!moved(window.refresh(Some(999_999_999), None, 9_000_000_000).list));
    assert!(!moved(window.refresh(None, None, 9_000_000_000).list));
    assert!(!moved(window.refresh(Some(4_000_000_000), None, 5).list));
}

#[test]
fn unknown_titles_are_left_out_of_the_status() {
    let mut window = loaded_window();
    let turn = window.on_entry_located(&entry(7, "Gone"), Location::Uri(text("file:///g")));
    assert_eq!(
        finish(&mut window, turn),
        vec![UiAction::UnselectRows, status("Playing")]
    );
    let turn = window.on_play_toggled(false);
    assert_eq!(finish(&mut window, turn), vec![status("Paused")]);
}

#[test]
fn the_indicator_mirrors_the_window() {
    let mut window = loaded_window();
    play(&mut window, 2);
    let mut tray = LibraryTray::new();
    tray.status = window.tray_status();
    assert_eq!(tray.status.entries, vec![(2, text("Rain")), (1, text("Talk"))]);
    let TrayItem::Standard { label, .. } = &tray.menu()[0] else {
        panic!("the header is an item");
    };
    assert_eq!(window.refresh_status(), UiAction::SetStatus(label.clone()));
    let turn = window.on_play_toggled(false);
    window.finish(turn, true);
    let status = window.tray_status();
    assert!(status.paused);
    assert!(!status.playing);
}

#[test]
fn indicator_commands_act_on_the_window() {
    let mut window = loaded_window();
    assert!(matches!(window.on_tray_command(TrayCommand::Play(1)), TrayStep::Activate(1)));
    play(&mut window, 1);
    let TrayStep::Go(turn) = window.on_tray_command(TrayCommand::TogglePlayPause) else {
        panic!("toggling is a turn");
    };
    assert_eq!(finish(&mut window, turn), vec![status("Paused: Talk")]);
    let TrayStep::Go(turn) = window.on_tray_command(TrayCommand::Stop) else {
        panic!("stopping is a turn");
    };
    assert_eq!(finish(&mut window, turn).last(), Some(&status("Ready")));
    let TrayStep::Go(turn) = window.on_tray_command(TrayCommand::Open) else {
        panic!("opening is a turn");
    };
    assert_eq!(finish(&mut window, turn), vec![UiAction::PresentWindow]);
}

#[test]
fn closing_hides_and_quitting_stops() {
    let mut window = loaded_window();
    play(&mut window, 2);
    assert_eq!(window.on_close_request().list, vec![UiAction::HideWindow]);
    assert_eq!(window.player.state(), PlaybackState::Playing);
    let TrayStep::Go(turn) = window.on_tray_command(TrayCommand::Quit) else {
        panic!("quitting is a turn");
    };
    assert_eq!(finish(&mut window, turn), vec![UiAction::Quit]);
    assert_eq!(window.player.state(), PlaybackState::Stopped);
}

#[test]
fn nothing_is_toggled_from_the_indicator_while_nothing_is_loaded() {
    let mut window = loaded_window();
    let TrayStep::Go(turn) = window.on_tray_command(TrayCommand::TogglePlayPause) else {
        panic!("toggling is a turn");
    };
    assert!(turn.attempt.is_none());
    assert_eq!(finish(&mut window, turn), vec![UiAction::SetPlayActive(false)]);
}
