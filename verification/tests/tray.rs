use audio_library::tray::{LibraryTray, TrayCommand, TrayItem, TrayStatus};

fn item(label: &str, icon_name: &str, enabled: bool, command: Option<TrayCommand>) -> TrayItem<String> {
    TrayItem::Standard {
        label: label.to_string(),
        icon_name: icon_name.to_string(),
        enabled,
        command,
    }
}

fn tray(playing_id: Option<i64>, playing: bool, paused: bool) -> LibraryTray {
    let mut tray = LibraryTray::new();
    tray.status = TrayStatus {
        entries: vec![(4, "Lecture".to_string()), (9, "Rain".to_string())],
        playing_id,
        playing,
        paused,
    };
    tray
}

#[test]
fn an_empty_tray_says_so() {
    let tray = LibraryTray::new();
    assert_eq!(
        tray.menu(),
        vec![
            item("Nothing playing", "", false, None),
            TrayItem::Separator,
            item("No saved audio", "", false, None),
            TrayItem::Separator,
            item(
                "Play",
                "media-playback-start-symbolic",
                false,
                Some(TrayCommand::TogglePlayPause)
            ),
            item("Stop", "media-playback-stop-symbolic", false, Some(TrayCommand::Stop)),
            TrayItem::Separator,
            item("Open Audio Library", "window-new-symbolic", true, Some(TrayCommand::Open)),
            item("Quit", "application-exit-symbolic", true, Some(TrayCommand::Quit)),
        ]
    );
}

#[test]
fn the_loaded_entry_is_marked() {
    assert_eq!(
        tray(Some(9), true, false).menu(),
        vec![
            item("Playing: Rain", "", false, None),
            TrayItem::Separator,
            item("Lecture", "", true, Some(TrayCommand::Play(4))),
            item("▶ Rain", "media-playback-start-symbolic", true, Some(TrayCommand::Play(9))),
            TrayItem::Separator,
            item(
                "Pause",
                "media-playback-pause-symbolic",
                true,
                Some(TrayCommand::TogglePlayPause)
            ),
            item("Stop", "media-playback-stop-symbolic", true, Some(TrayCommand::Stop)),
            TrayItem::Separator,
            item("Open Audio Library", "window-new-symbolic", true, Some(TrayCommand::Open)),
            item("Quit", "application-exit-symbolic", true, Some(TrayCommand::Quit)),
        ]
    );
}

#[test]
fn the_header_follows_playback() {
    assert_eq!(tray(Some(4), false, true).menu()[0], item("Paused: Lecture", "", false, None));
    assert_eq!(tray(Some(4), false, false).menu()[0], item("Loaded: Lecture", "", false, None));
    assert_eq!(tray(Some(5), true, false).menu()[0], item("Playing: ", "", false, None));
    assert_eq!(tray(None, false, false).menu()[0], item("Nothing playing", "", false, None));
}

#[test]
fn every_entry_has_an_item_that_plays_it() {
    let menu = tray(None, false, false).menu();
    assert_eq!(menu.len(), 10);
    assert_eq!(menu[2], item("Lecture", "", true, Some(TrayCommand::Play(4))));
    assert_eq!(menu[3], item("Rain", "", true, Some(TrayCommand::Play(9))));
}

#[test]
fn the_tray_identifies_itself() {
    let tray = LibraryTray::new();
    assert_eq!(tray.id(), "audio-library");
    assert_eq!(tray.title(), "Audio Library");
    assert_eq!(tray.icon_name(), "multimedia-player-symbolic");
    assert_eq!(tray.activate(), TrayCommand::Open);
}

#[test]
fn statuses_can_be_copied() {
    let status = tray(Some(4), true, false).status;
    let copy = status.clone();
    assert_eq!(copy.entries, status.entries);
    assert_eq!(copy.playing_id, Some(4));
    assert!(copy.playing);
    assert!(!copy.paused);
    let empty = TrayStatus::default();
    assert!(empty.entries.is_empty());
    assert_eq!(empty.playing_id, None);
}
