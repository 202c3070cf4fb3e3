//! The main window: what every gesture and every event does.
//!
//! [`Window`] owns the layers and keeps them apart: [`AppState`] is plain data,
//! [`Database`] takes commands for the database worker, [`Player`] decides what
//! the media pipeline is asked, and [`EntryListPopover`] lists the library.
//!
//! A handler answers with a [`Turn`]. The caller first runs the attempt of the
//! turn, if there is one, and then hands the turn and the pipeline's answer to
//! [`Window::finish`], which says what to show.

use vstd::prelude::*;
use vstd::string::*;

use crate::database::{CommandView, Database, Event, EventView};
use crate::decimal::{format_time, time_text};
use crate::models::{
    entry_views, entry_with_id, find_entry, remove_entry, without, AudioEntry, EntryView,
};
use crate::pipeline::{request_views, PipelineRequest};
use crate::player::{
    attempt_view, forwarded, Attempt, AttemptView, BusMessage, PlaybackState, Player, PlayerError,
    PlayerEvent, PlayerEventView, PlayerView, Reaction,
};
use crate::text::{blank, join, law_trimmed_empty_iff_blank, non_empty, trim, trimmed};
use crate::tray::{listed_views, TrayCommand, TrayStatus, TrayStatusView};
use crate::ui::action::{Actions, Page, UiAction};
use crate::ui::popover::{selection, shown, EntryListPopover};

verus! {

/// How often the UI refreshes playback position and state, in milliseconds.
pub const POSITION_REFRESH_MS: u64 = 500;

/// While the user is dragging the position slider, the UI must not move it from
/// under them: this long, in nanoseconds, after they last touched it.
pub const DRAG_GRACE_NS: u128 = 300_000_000;

/// A file chosen in the file picker.
#[derive(Debug, PartialEq, Eq)]
pub struct ChosenFile {
    /// The path as it is shown.
    pub display: String,
    /// The path itself, where it is valid UTF-8.
    pub path: Option<String>,
}

/// What a [`ChosenFile`] stands for.
pub struct ChosenFileView {
    pub display: Seq<char>,
    pub path: Option<Seq<char>>,
}

impl View for ChosenFile {
    type V = ChosenFileView;

    open spec fn view(&self) -> ChosenFileView {
        ChosenFileView {
            display: self.display@,
            path: match self.path {
                Some(path) => Some(path@),
                None => None,
            },
        }
    }
}

/// What became of the file picker.
#[derive(Debug, PartialEq, Eq)]
pub enum FileChoice {
    /// A local file was chosen.
    Chosen(ChosenFile),
    /// What was chosen is no local file.
    NotLocal,
    /// The user cancelled.
    Cancelled,
    /// The picker failed, for this reason.
    Failed(String),
}

/// Where the file of an activated entry is.
#[derive(Debug, PartialEq, Eq)]
pub enum Location {
    /// The file does not exist: the library only stores references, and the
    /// file may have moved.
    Missing,
    /// The path has no URI, for this reason.
    NoUri(String),
    /// The file exists and has this URI.
    Uri(String),
}

/// What a [`Location`] stands for.
pub enum LocationView {
    Missing,
    NoUri(Seq<char>),
    Uri(Seq<char>),
}

impl View for Location {
    type V = LocationView;

    open spec fn view(&self) -> LocationView {
        match self {
            Location::Missing => LocationView::Missing,
            Location::NoUri(reason) => LocationView::NoUri(reason@),
            Location::Uri(uri) => LocationView::Uri(uri@),
        }
    }
}

/// Plain application state.
#[derive(Debug)]
pub struct AppState {
    /// Entries as returned by the database, newest first.
    pub entries: Vec<AudioEntry>,
    /// The file chosen in the file picker, not yet saved.
    pub pending: Option<ChosenFile>,
    /// Entry currently highlighted as "playing".
    pub playing_id: Option<i64>,
    /// Whether a file has been loaded into the player at all.
    pub has_current_uri: bool,
    /// Last known stream duration in seconds (0 = unknown).
    pub last_duration: u64,
    /// When the user last moved the position slider, in nanoseconds of a clock
    /// that does not go back.
    pub last_interaction: Option<u128>,
}

/// What an [`AppState`] stands for.
pub struct StateView {
    pub entries: Seq<EntryView>,
    pub pending: Option<ChosenFileView>,
    pub playing_id: Option<i64>,
    pub has_current_uri: bool,
    pub last_duration: u64,
    pub last_interaction: Option<u128>,
}

impl View for AppState {
    type V = StateView;

    open spec fn view(&self) -> StateView {
        StateView {
            entries: entry_views(self.entries@),
            pending: match self.pending {
                Some(file) => Some(file@),
                None => None,
            },
            playing_id: self.playing_id,
            has_current_uri: self.has_current_uri,
            last_duration: self.last_duration,
            last_interaction: self.last_interaction,
        }
    }
}

impl StateView {
    /// An empty library with nothing loaded.
    pub open spec fn empty() -> StateView {
        StateView {
            entries: seq![],
            pending: None,
            playing_id: None,
            has_current_uri: false,
            last_duration: 0,
            last_interaction: None,
        }
    }

    /// Whether the form can be saved: a title that is not blank, and a file.
    pub open spec fn can_save(self, title: Seq<char>) -> bool {
        !blank(title) && self.pending is Some
    }

    /// The title of the entry that is loaded, where it is in the library.
    pub open spec fn playing_title(self) -> Option<Seq<char>> {
        match self.playing_id {
            Some(id) => match entry_with_id(self.entries, id) {
                Some(entry) => Some(entry.title),
                None => None,
            },
            None => None,
        }
    }

    /// "Ready", "Playing: <title>" or "Paused: <title>".
    pub open spec fn status(self, playback: PlaybackState) -> Seq<char> {
        match playback {
            PlaybackState::Playing => match self.playing_title() {
                Some(title) => "Playing: "@ + title,
                None => "Playing"@,
            },
            PlaybackState::Paused => match self.playing_title() {
                Some(title) => "Paused: "@ + title,
                None => "Paused"@,
            },
            PlaybackState::Stopped => "Ready"@,
        }
    }

    /// The time label at the beginning of the stream.
    pub open spec fn start_time(self) -> Seq<char> {
        "0:00 / "@ + time_text(self.last_duration)
    }

    /// Whether the user is dragging the position slider.
    pub open spec fn dragging(self, now: u128) -> bool {
        match self.last_interaction {
            Some(then) => now - then < DRAG_GRACE_NS,
            None => false,
        }
    }
}

impl Default for AppState {
    fn default() -> (r: Self)
        ensures
            r@ == StateView::empty(),
    {
        let r = AppState {
            entries: Vec::new(),
            pending: None,
            playing_id: None,
            has_current_uri: false,
            last_duration: 0,
            last_interaction: None,
        };
        assert(r@.entries =~= seq![]);
        r
    }
}

impl AppState {
    /// Whether the form can be saved.
    pub fn can_save(&self, title: &str) -> (r: bool)
        ensures
            r == self@.can_save(title@),
    {
        proof {
            law_trimmed_empty_iff_blank(title@);
        }
        !trim(title).is_empty() && self.pending.is_some()
    }

    /// The title of the entry that is loaded, where it is in the library.
    fn playing_title(&self) -> (r: Option<String>)
        ensures
            match r {
                Some(title) => self@.playing_title() == Some(title@),
                None => self@.playing_title() is None,
            },
    {
        match self.playing_id {
            Some(id) => match find_entry(&self.entries, id) {
                Some(entry) => Some(entry.title.clone()),
                None => None,
            },
            None => None,
        }
    }

    /// The status line.
    pub fn status(&self, playback: PlaybackState) -> (r: String)
        ensures
            r@ == self@.status(playback),
    {
        match playback {
            PlaybackState::Playing => match self.playing_title() {
                Some(title) => join("Playing: ", title.as_str()),
                None => "Playing".to_owned(),
            },
            PlaybackState::Paused => match self.playing_title() {
                Some(title) => join("Paused: ", title.as_str()),
                None => "Paused".to_owned(),
            },
            PlaybackState::Stopped => "Ready".to_owned(),
        }
    }

    /// The time label at the beginning of the stream.
    fn start_time(&self) -> (r: String)
        ensures
            r@ == self@.start_time(),
    {
        join("0:00 / ", format_time(self.last_duration).as_str())
    }

    /// Whether the user is dragging the position slider.
    pub fn dragging(&self, now: u128) -> (r: bool)
        ensures
            r == self@.dragging(now),
    {
        match self.last_interaction {
            Some(then) => now < then || now - then < DRAG_GRACE_NS,
            None => false,
        }
    }
}

/// What a handler asks for.
#[derive(Debug)]
pub struct Turn {
    /// What the pipeline has to do before anything is shown.
    pub attempt: Option<Attempt>,
    /// What to show then.
    pub actions: Actions,
    /// Whether the status line is brought up to date at the end.
    pub refresh_status: bool,
}

/// What a [`Turn`] stands for.
pub struct TurnView {
    pub attempt: Option<AttemptView>,
    pub actions: Seq<UiAction<Seq<char>>>,
    pub refresh_status: bool,
}

impl View for Turn {
    type V = TurnView;

    open spec fn view(&self) -> TurnView {
        TurnView {
            attempt: attempt_view(self.attempt),
            actions: self.actions@,
            refresh_status: self.refresh_status,
        }
    }
}

impl TurnView {
    /// Nothing but changes to the widgets.
    pub open spec fn show(actions: Seq<UiAction<Seq<char>>>) -> TurnView {
        TurnView { attempt: None, actions, refresh_status: false }
    }
}

impl Turn {
    /// Nothing but changes to the widgets.
    fn show(actions: Actions) -> (r: Turn)
        ensures
            r@ == TurnView::show(actions@),
    {
        Turn { attempt: None, actions, refresh_status: false }
    }
}

/// What a command of the indicator leads to.
#[derive(Debug)]
pub enum TrayStep {
    /// Go on as when the user activates this entry in the popover.
    Activate(i64),
    /// Go on with this turn.
    Go(Turn),
}

/// What a [`TrayStep`] stands for.
pub enum TrayStepView {
    Activate(i64),
    Go(TurnView),
}

impl View for TrayStep {
    type V = TrayStepView;

    open spec fn view(&self) -> TrayStepView {
        match self {
            TrayStep::Activate(id) => TrayStepView::Activate(*id),
            TrayStep::Go(turn) => TrayStepView::Go(turn@),
        }
    }
}

/// The application window.
#[derive(Debug)]
pub struct Window {
    pub state: AppState,
    pub player: Player,
    pub database: Database,
    pub popover: EntryListPopover,
}

/// What a [`Window`] stands for.
pub struct WindowView {
    pub state: StateView,
    pub player: PlayerView,
    /// The commands that the database worker has not taken yet.
    pub commands: Seq<CommandView>,
    /// The entries that the popover shows.
    pub listed: Seq<EntryView>,
}

impl View for Window {
    type V = WindowView;

    open spec fn view(&self) -> WindowView {
        WindowView {
            state: self.state@,
            player: self.player@,
            commands: self.database@,
            listed: self.popover@,
        }
    }
}

impl WindowView {
    /// The popover shows the entries that the window knows.
    pub open spec fn wf(self) -> bool {
        self.listed == self.state.entries
    }

    /// A window with a player, nothing else.
    pub open spec fn created(player: PlayerView) -> WindowView {
        WindowView { state: StateView::empty(), player, commands: seq![], listed: seq![] }
    }

    /// What a window shows that has just been created: why there is no player,
    /// where there is none.
    pub open spec fn creation_actions(failure: Option<Seq<char>>) -> Seq<UiAction<Seq<char>>> {
        match failure {
            Some(reason) => seq![
                UiAction::ShowError {
                    title: "Playback unavailable"@,
                    body: "GStreamer could not be initialized:\n"@ + reason,
                },
            ],
            None => seq![],
        }
    }

    /// Bringing the save button up to date.
    pub open spec fn save_enabled(self, title: Seq<char>) -> UiAction<Seq<char>> {
        UiAction::SetSaveSensitive(self.state.can_save(title))
    }

    /// Bringing the status line up to date.
    pub open spec fn status(self) -> UiAction<Seq<char>> {
        UiAction::SetStatus(self.state.status(self.player.state))
    }

    /// The window after it has been set up: it asks for the library.
    pub open spec fn set_up(self) -> WindowView {
        WindowView { commands: self.commands.push(CommandView::Load), ..self }
    }

    /// The window after the file picker was closed.
    pub open spec fn file_chosen(self, choice: FileChoice) -> WindowView {
        match choice {
            FileChoice::Chosen(file) => WindowView {
                state: StateView { pending: Some(file@), ..self.state },
                ..self
            },
            _ => self,
        }
    }

    /// What is shown after the file picker was closed.
    pub open spec fn file_chosen_actions(self, choice: FileChoice, title: Seq<char>) -> Seq<
        UiAction<Seq<char>>,
    > {
        match choice {
            FileChoice::Chosen(file) => seq![
                UiAction::SetFileSubtitle(file.display@),
                UiAction::SetFileTooltip(Some(file.display@)),
                self.file_chosen(choice).save_enabled(title),
            ],
            FileChoice::NotLocal => seq![
                UiAction::ShowError {
                    title: "Invalid file"@,
                    body: "The selected file could not be resolved to a local path."@,
                },
            ],
            FileChoice::Cancelled => seq![],
            FileChoice::Failed(reason) => seq![
                UiAction::ShowError { title: "Could not open file"@, body: reason@ },
            ],
        }
    }

    /// The window after saving: an entry with the trimmed title is stored if the
    /// form is filled in and the path is valid UTF-8.
    pub open spec fn saved(self, title: Seq<char>) -> WindowView {
        if self.state.can_save(title) && self.state.pending->0.path is Some {
            WindowView {
                commands: self.commands.push(
                    CommandView::Insert {
                        title: trimmed(title),
                        file_path: self.state.pending->0.path->0,
                    },
                ),
                ..self
            }
        } else {
            self
        }
    }

    /// What is shown after saving: an error if the path is not valid UTF-8.
    pub open spec fn saved_actions(self, title: Seq<char>) -> Seq<UiAction<Seq<char>>> {
        if self.state.can_save(title) && self.state.pending->0.path is None {
            seq![
                UiAction::ShowError {
                    title: "Invalid file"@,
                    body: "The selected file has no valid UTF-8 path."@,
                },
            ]
        } else {
            seq![]
        }
    }

    /// The entry that the user activates by its id.
    pub open spec fn activated(self, id: i64) -> Option<EntryView> {
        entry_with_id(self.state.entries, id)
    }

    /// What is shown when the window is asked to close.
    pub open spec fn close_actions(self) -> Seq<UiAction<Seq<char>>> {
        seq![UiAction::HideWindow]
    }

    /// The window after it was found where the file of `entry` is: if it can be
    /// played, it is the one that is loaded, and it is remembered.
    pub open spec fn located(self, entry: EntryView, location: LocationView) -> WindowView {
        match location {
            LocationView::Uri(uri) => WindowView {
                state: StateView {
                    playing_id: Some(entry.id),
                    has_current_uri: true,
                    last_interaction: None,
                    ..self.state
                },
                commands: self.commands.push(CommandView::SetLastPlayed { id: Some(entry.id) }),
                ..self
            },
            _ => self,
        }
    }

    /// What to do once it was found where the file of `entry` is.
    pub open spec fn located_turn(self, entry: EntryView, location: LocationView) -> TurnView {
        match location {
            LocationView::Missing => TurnView::show(
                seq![UiAction::ShowMissingFile { id: entry.id, file_path: entry.file_path }],
            ),
            LocationView::NoUri(reason) => TurnView::show(
                seq![
                    UiAction::ShowError {
                        title: "Could not play file"@,
                        body: entry.debug_view() + ": "@ + reason,
                    },
                ],
            ),
            LocationView::Uri(uri) => TurnView {
                attempt: self.player.play_uri(uri),
                actions: seq![selection(self.listed, Some(entry.id))],
                refresh_status: true,
            },
        }
    }

    /// The window after the user chose to remove an entry whose file is missing.
    pub open spec fn missing_removed(self, id: i64) -> WindowView {
        WindowView {
            state: StateView {
                playing_id: if self.state.playing_id == Some(id) {
                    None
                } else {
                    self.state.playing_id
                },
                ..self.state
            },
            commands: self.commands.push(CommandView::Delete { id }),
            ..self
        }
    }

    /// What to do after the user chose to remove an entry whose file is missing.
    pub open spec fn missing_removed_turn(self, id: i64) -> TurnView {
        TurnView {
            attempt: if self.state.playing_id == Some(id) {
                self.player.stop()
            } else {
                None
            },
            actions: seq![],
            refresh_status: false,
        }
    }

    /// What to do when the play button has become `active` or not.
    pub open spec fn play_toggled_turn(self, active: bool) -> TurnView {
        if active == (self.player.state is Playing) {
            TurnView::show(seq![])
        } else if active && !self.state.has_current_uri {
            TurnView::show(seq![UiAction::SetPlayActive(false)])
        } else {
            TurnView {
                attempt: self.player.toggle_play_pause(),
                actions: seq![],
                refresh_status: true,
            }
        }
    }

    /// The window after the stop button.
    pub open spec fn stopped(self) -> WindowView {
        WindowView {
            state: StateView { last_interaction: None, last_duration: 0, ..self.state },
            ..self
        }
    }

    /// What to do on the stop button.
    pub open spec fn stopped_turn(self) -> TurnView {
        TurnView {
            attempt: self.player.stop(),
            actions: seq![
                UiAction::SetPosition(0),
                UiAction::SetTime(self.stopped().state.start_time()),
            ],
            refresh_status: true,
        }
    }

    /// The window after the user moved the position slider.
    pub open spec fn sought(self, now: u128) -> WindowView {
        WindowView { state: StateView { last_interaction: Some(now), ..self.state }, ..self }
    }

    /// Where to jump to, in nanoseconds, when the user moves the position slider.
    pub open spec fn seek(self, seconds: u64) -> Option<u64> {
        if self.player.state is Stopped {
            None
        } else {
            self.player.seek(seconds)
        }
    }

    /// The window after an event of the database worker.
    pub open spec fn after_event(self, event: EventView) -> WindowView {
        match event {
            EventView::Loaded { entries, last_played } => WindowView {
                state: StateView { entries, ..self.state },
                listed: entries,
                ..self
            },
            EventView::Inserted(entry) => WindowView {
                state: StateView {
                    entries: self.state.entries.insert(0, entry),
                    pending: None,
                    ..self.state
                },
                listed: self.state.entries.insert(0, entry),
                ..self
            },
            EventView::Deleted(id) => WindowView {
                state: StateView {
                    entries: without(self.state.entries, id),
                    playing_id: if self.state.playing_id == Some(id) {
                        None
                    } else {
                        self.state.playing_id
                    },
                    has_current_uri: self.state.has_current_uri && self.state.playing_id != Some(
                        id,
                    ),
                    ..self.state
                },
                listed: without(self.state.entries, id),
                ..self
            },
            EventView::Error(message) => self,
        }
    }

    /// What to do on an event of the database worker.
    ///
    /// A loaded library is shown with the loaded entry highlighted, or, while
    /// there is none, with the one that was selected when the app last ran.
    pub open spec fn event_turn(self, event: EventView) -> TurnView {
        let after = self.after_event(event);
        match event {
            EventView::Loaded { entries, last_played } => TurnView {
                attempt: None,
                actions: shown(
                    entries,
                    if self.state.playing_id is Some {
                        self.state.playing_id
                    } else {
                        last_played
                    },
                ),
                refresh_status: true,
            },
            EventView::Inserted(entry) => TurnView::show(
                shown(after.state.entries, self.state.playing_id) + seq![
                    UiAction::AddToast("Audio saved."@),
                    UiAction::SetTitleText(seq![]),
                    UiAction::SetFileSubtitle("No file selected"@),
                    UiAction::SetFileTooltip(None),
                    after.save_enabled(seq![]),
                ],
            ),
            EventView::Deleted(id) => TurnView {
                attempt: if self.state.playing_id == Some(id) {
                    self.player.stop()
                } else {
                    None
                },
                actions: shown(after.state.entries, after.state.playing_id),
                refresh_status: true,
            },
            EventView::Error(message) => TurnView::show(
                seq![UiAction::ShowError { title: "Database error"@, body: message }],
            ),
        }
    }

    /// The window after an event of the player.
    pub open spec fn after_player_event(self, event: PlayerEventView) -> WindowView {
        match event {
            PlayerEventView::EndOfStream => WindowView {
                state: StateView { last_interaction: None, ..self.state },
                ..self
            },
            PlayerEventView::Error(message) => WindowView {
                state: StateView { last_duration: 0, ..self.state },
                ..self
            },
        }
    }

    /// What is shown on an event of the player.
    pub open spec fn player_event_actions(self, event: PlayerEventView) -> Seq<
        UiAction<Seq<char>>,
    > {
        match event {
            PlayerEventView::EndOfStream => seq![
                UiAction::SetPosition(0),
                UiAction::SetTime(self.state.start_time()),
                self.status(),
            ],
            PlayerEventView::Error(message) => seq![
                self.status(),
                UiAction::ShowError { title: "Playback error"@, body: message },
            ],
        }
    }

    /// The second at which the stream stands, 0 while stopped.
    pub open spec fn current_second(self, answer: Option<u64>) -> u64 {
        if self.player.state is Stopped {
            0
        } else {
            self.player.seconds(answer)
        }
    }

    /// The window after a periodic refresh.
    pub open spec fn refreshed(self, duration: Option<u64>) -> WindowView {
        WindowView {
            state: StateView { last_duration: self.current_second(duration), ..self.state },
            ..self
        }
    }

    /// What is shown on a periodic refresh, from what the pipeline answered for
    /// the position and the duration.
    pub open spec fn refresh_actions(
        self,
        position: Option<u64>,
        duration: Option<u64>,
        now: u128,
    ) -> Seq<UiAction<Seq<char>>> {
        let position = self.current_second(position);
        let duration = self.current_second(duration);
        let playing = self.player.state is Playing;
        let range: Seq<UiAction<Seq<char>>> = if duration != self.state.last_duration {
            seq![UiAction::SetPositionRange(duration)]
        } else {
            seq![]
        };
        let slider: Seq<UiAction<Seq<char>>> = if !self.state.dragging(now) && position > 0 {
            seq![UiAction::SetPosition(position)]
        } else {
            seq![]
        };
        range + slider + seq![
            UiAction::SetPlayActive(playing),
            UiAction::SetPlayIcon(
                if playing {
                    "media-playback-pause-symbolic"@
                } else {
                    "media-playback-start-symbolic"@
                },
            ),
            UiAction::SetPlayTooltip(
                if playing {
                    "Pause"@
                } else {
                    "Play"@
                },
            ),
            UiAction::SetStopSensitive(!(self.player.state is Stopped)),
            UiAction::SetTime(time_text(position) + " / "@ + time_text(duration)),
            self.status(),
        ]
    }

    /// The window after the pipeline has answered the attempt of a turn.
    pub open spec fn finished(self, attempt: Option<AttemptView>, accepted: bool) -> WindowView {
        WindowView { player: self.player.finished(attempt, accepted), ..self }
    }

    /// What is shown after the pipeline has answered the attempt of a turn.
    pub open spec fn finished_actions(self, turn: TurnView, accepted: bool) -> Seq<
        UiAction<Seq<char>>,
    > {
        if turn.refresh_status {
            turn.actions.push(self.finished(turn.attempt, accepted).status())
        } else {
            turn.actions
        }
    }

    /// What the indicator mirrors of the window.
    pub open spec fn tray_status(self) -> TrayStatusView {
        TrayStatusView {
            entries: self.state.entries.map_values(|entry: EntryView| (entry.id, entry.title)),
            playing_id: self.state.playing_id,
            playing: self.player.state is Playing,
            paused: self.player.state is Paused,
        }
    }

    /// The window after a command of the indicator.
    pub open spec fn after_tray_command(self, command: TrayCommand) -> WindowView {
        match command {
            TrayCommand::Stop => self.stopped(),
            _ => self,
        }
    }

    /// What a command of the indicator leads to. Quitting stops playback first;
    /// toggling does nothing while nothing is loaded.
    pub open spec fn tray_step(self, command: TrayCommand) -> TrayStepView {
        match command {
            TrayCommand::Play(id) => TrayStepView::Activate(id),
            TrayCommand::TogglePlayPause => TrayStepView::Go(
                self.play_toggled_turn(!(self.player.state is Playing)),
            ),
            TrayCommand::Stop => TrayStepView::Go(self.stopped_turn()),
            TrayCommand::Open => TrayStepView::Go(TurnView::show(seq![UiAction::PresentWindow])),
            TrayCommand::Quit => TrayStepView::Go(
                TurnView {
                    attempt: self.player.stop(),
                    actions: seq![UiAction::Quit],
                    refresh_status: false,
                },
            ),
        }
    }
}

/// What a keyboard shortcut asks for.
#[derive(Debug, Clone, Copy, PartialEq, Eq, Structural)]
pub enum Shortcut {
    /// Open the file picker.
    ChooseFile,
    /// Save the form.
    Save,
}

/// The keyboard shortcuts: a key, pressed together with the control key, and
/// what it asks for.
pub fn shortcuts() -> (r: Vec<(char, Shortcut)>)
    ensures
        r@ == seq![('o', Shortcut::ChooseFile), ('s', Shortcut::Save)],
{
    let mut r: Vec<(char, Shortcut)> = Vec::new();
    r.push(('o', Shortcut::ChooseFile));
    r.push(('s', Shortcut::Save));
    r
}

/// What freshly built widgets show, before anything has happened.
pub open spec fn initial_actions() -> Seq<UiAction<Seq<char>>> {
    seq![
        UiAction::SetFileSubtitle("No file selected"@),
        UiAction::SetSaveSensitive(false),
        UiAction::SetStatus("Ready"@),
        UiAction::SetPositionRange(0),
        UiAction::SetPosition(0),
        UiAction::SetTime("0:00 / 0:00"@),
        UiAction::SetPlayIcon("media-playback-start-symbolic"@),
        UiAction::SetPlayTooltip("Play"@),
        UiAction::SetStopSensitive(false),
        UiAction::ShowPage(Page::Empty),
    ]
}

/// What freshly built widgets show, before anything has happened.
pub fn initial_display() -> (r: Actions)
    ensures
        r@ == initial_actions(),
{
    let mut actions = Actions::new();
    actions.push(UiAction::SetFileSubtitle("No file selected".to_owned()));
    actions.push(UiAction::SetSaveSensitive(false));
    actions.push(UiAction::SetStatus("Ready".to_owned()));
    actions.push(UiAction::SetPositionRange(0));
    actions.push(UiAction::SetPosition(0));
    actions.push(UiAction::SetTime("0:00 / 0:00".to_owned()));
    actions.push(UiAction::SetPlayIcon("media-playback-start-symbolic".to_owned()));
    actions.push(UiAction::SetPlayTooltip("Play".to_owned()));
    actions.push(UiAction::SetStopSensitive(false));
    actions.push(UiAction::ShowPage(Page::Empty));
    assert(actions@ =~= initial_actions());
    actions
}

/// What to do for an entry that the user activated: close the popover, and find
/// out where its file is.
#[derive(Debug)]
pub struct Activation {
    pub entry: AudioEntry,
    pub actions: Actions,
}

impl Window {
    /// Build the window around a player. Without one the window is useless for
    /// playback: it shows a clear error and keeps a non-functional player, so
    /// that the app still runs.
    pub fn new(player: Result<Player, PlayerError>) -> (r: (Window, Actions))
        ensures
            r.0@ == WindowView::created(
                match player {
                    Ok(player) => player@,
                    Err(_) => PlayerView::disabled(),
                },
            ),
            r.1@ == match player {
                Ok(_) => Seq::<UiAction<Seq<char>>>::empty(),
                Err(error) => seq![
                    UiAction::ShowError {
                        title: "Playback unavailable"@,
                        body: "GStreamer could not be initialized:\n"@ + error.reason(),
                    },
                ],
            },
            r.1@ == WindowView::creation_actions(
                match player {
                    Ok(_) => None,
                    Err(error) => Some(error.reason()),
                },
            ),
    {
        let mut actions = Actions::new();
        let player = match player {
            Ok(player) => player,
            Err(error) => {
                actions.push(
                    UiAction::ShowError {
                        title: "Playback unavailable".to_owned(),
                        body: join(
                            "GStreamer could not be initialized:\n",
                            error.to_text().as_str(),
                        ),
                    },
                );
                Player::disabled()
            },
        };
        let window = Window {
            state: AppState::default(),
            player,
            database: Database::new(),
            popover: EntryListPopover::new(),
        };
        (window, actions)
    }

    /// Start up: load the library. The empty-state UI is shown until the reply.
    pub fn setup(&mut self, title: &str) -> (r: Actions)
        ensures
            final(self)@ == old(self)@.set_up(),
            r@ == seq![old(self)@.save_enabled(title@), old(self)@.status()],
    {
        self.database.load();
        let mut actions = self.update_save_enabled(title);
        actions.push(self.refresh_status());
        actions
    }

    /// The save button is only usable once both fields are filled in. Called
    /// whenever the text of the title field changes.
    pub fn update_save_enabled(&self, title: &str) -> (r: Actions)
        ensures
            r@ == seq![self@.save_enabled(title@)],
    {
        let mut actions = Actions::new();
        actions.push(UiAction::SetSaveSensitive(self.state.can_save(title)));
        actions
    }

    /// Bring the status line up to date.
    pub fn refresh_status(&self) -> (r: UiAction<String>)
        ensures
            r@ == self@.status(),
    {
        UiAction::SetStatus(self.state.status(self.player.state()))
    }

    /// The file picker was closed.
    pub fn on_choose_file(&mut self, choice: FileChoice, title: &str) -> (r: Actions)
        ensures
            final(self)@ == old(self)@.file_chosen(choice),
            r@ == old(self)@.file_chosen_actions(choice, title@),
    {
        let mut actions = Actions::new();
        match choice {
            FileChoice::Chosen(file) => {
                actions.push(UiAction::SetFileSubtitle(file.display.clone()));
                actions.push(UiAction::SetFileTooltip(Some(file.display.clone())));
                self.state.pending = Some(file);
                actions.push(UiAction::SetSaveSensitive(self.state.can_save(title)));
            },
            FileChoice::NotLocal => {
                actions.push(
                    UiAction::ShowError {
                        title: "Invalid file".to_owned(),
                        body: "The selected file could not be resolved to a local path.".to_owned(),
                    },
                );
            },
            FileChoice::Cancelled => {},
            FileChoice::Failed(reason) => {
                actions.push(
                    UiAction::ShowError { title: "Could not open file".to_owned(), body: reason },
                );
            },
        }
        actions
    }

    /// Store the entered title and the chosen file into the database.
    pub fn on_save(&mut self, title: &str) -> (r: Actions)
        ensures
            final(self)@ == old(self)@.saved(title@),
            r@ == old(self)@.saved_actions(title@),
    {
        proof {
            law_trimmed_empty_iff_blank(title@);
        }
        let mut actions = Actions::new();
        let title: String = match non_empty(title) {
            Some(title) => title,
            None => {
                return actions;
            },
        };
        match &self.state.pending {
            None => {},
            Some(file) => match &file.path {
                None => {
                    actions.push(
                        UiAction::ShowError {
                            title: "Invalid file".to_owned(),
                            body: "The selected file has no valid UTF-8 path.".to_owned(),
                        },
                    );
                },
                Some(path) => {
                    let path: String = path.clone();
                    self.database.insert(title, path);
                },
            },
        }
        actions
    }

    /// The user picked an entry from the library.
    pub fn on_entry_activated(&self, id: i64) -> (r: Option<Activation>)
        ensures
            match r {
                Some(activation) => entry_with_id(self@.state.entries, id) == Some(
                    activation.entry@,
                ) && activation.actions@ == seq![UiAction::<Seq<char>>::Popdown],
                None => entry_with_id(self@.state.entries, id) is None,
            },
            match r {
                Some(activation) => self@.activated(id) == Some(activation.entry@),
                None => self@.activated(id) is None,
            },
    {
        match find_entry(&self.state.entries, id) {
            Some(entry) => {
                let mut actions = Actions::new();
                actions.push(UiAction::Popdown);
                Some(Activation { entry: entry.clone(), actions })
            },
            None => None,
        }
    }

    /// It was found where the file of an activated entry is.
    pub fn on_entry_located(&mut self, entry: &AudioEntry, location: Location) -> (r: Turn)
        ensures
            final(self)@ == old(self)@.located(entry@, location@),
            r@ == old(self)@.located_turn(entry@, location@),
    {
        let mut actions = Actions::new();
        match location {
            Location::Missing => {
                actions.push(
                    UiAction::ShowMissingFile {
                        id: entry.id,
                        file_path: entry.file_path.clone(),
                    },
                );
                Turn::show(actions)
            },
            Location::NoUri(reason) => {
                let mut body = entry.debug_text();
                body.append(": ");
                body.append(reason.as_str());
                actions.push(
                    UiAction::ShowError { title: "Could not play file".to_owned(), body },
                );
                Turn::show(actions)
            },
            Location::Uri(uri) => {
                let attempt = self.player.play_uri(uri.as_str());
                self.state.playing_id = Some(entry.id);
                self.state.has_current_uri = true;
                self.state.last_interaction = None;
                self.database.set_last_played(Some(entry.id));
                actions.push(self.popover.select(Some(entry.id)));
                Turn { attempt, actions, refresh_status: true }
            },
        }
    }

    /// The user chose to remove an entry whose file is missing.
    pub fn on_remove_missing(&mut self, id: i64) -> (r: Turn)
        ensures
            final(self)@ == old(self)@.missing_removed(id),
            r@ == old(self)@.missing_removed_turn(id),
    {
        self.database.delete(id);
        let playing: bool = self.state.playing_id == Some(id);
        let attempt: Option<Attempt> = if playing {
            self.state.playing_id = None;
            self.player.stop()
        } else {
            None
        };
        Turn { attempt, actions: Actions::new(), refresh_status: false }
    }

    /// The play button was pressed or released.
    pub fn on_play_toggled(&self, active: bool) -> (r: Turn)
        ensures
            r@ == self@.play_toggled_turn(active),
    {
        let mut actions = Actions::new();
        // Ignore programmatic changes made by refresh().
        if active == (self.player.state() == PlaybackState::Playing) {
            return Turn::show(actions);
        }
        if active && !self.state.has_current_uri {
            actions.push(UiAction::SetPlayActive(false));
            return Turn::show(actions);
        }
        Turn { attempt: self.player.toggle_play_pause(), actions, refresh_status: true }
    }

    /// The stop button was pressed.
    pub fn on_stop(&mut self) -> (r: Turn)
        ensures
            final(self)@ == old(self)@.stopped(),
            r@ == old(self)@.stopped_turn(),
    {
        let attempt = self.player.stop();
        self.state.last_interaction = None;
        self.state.last_duration = 0;
        let mut actions = Actions::new();
        actions.push(UiAction::SetPosition(0));
        actions.push(UiAction::SetTime(self.state.start_time()));
        assert(self.state@ == old(self)@.stopped().state);
        assert(actions@ =~= old(self)@.stopped_turn().actions);
        Turn { attempt, actions, refresh_status: true }
    }

    /// The position slider was moved by the user to a second, at the time `now`.
    pub fn on_seek(&mut self, seconds: u64, now: u128) -> (r: Option<PipelineRequest<String>>)
        ensures
            final(self)@ == old(self)@.sought(now),
            match r {
                Some(request) => old(self)@.seek(seconds) is Some && request@ == PipelineRequest::<
                    Seq<char>,
                >::Seek(old(self)@.seek(seconds)->0),
                None => old(self)@.seek(seconds) is None,
            },
    {
        self.state.last_interaction = Some(now);
        if self.player.state() != PlaybackState::Stopped {
            self.player.seek(seconds)
        } else {
            None
        }
    }

    /// A reply of the database worker arrived.
    pub fn on_database_event(&mut self, event: Event) -> (r: Turn)
        ensures
            final(self)@ == old(self)@.after_event(event@),
            r@ == old(self)@.event_turn(event@),
    {
        match event {
            Event::Loaded { entries, last_played } => {
                let selected: Option<i64> = match self.state.playing_id {
                    Some(id) => Some(id),
                    None => last_played,
                };
                let actions = self.popover.set_entries(&entries, selected);
                self.state.entries = entries;
                Turn { attempt: None, actions, refresh_status: true }
            },
            Event::Inserted(entry) => {
                let ghost views = entry_views(self.state.entries@);
                self.state.entries.insert(0, entry);
                assert(entry_views(self.state.entries@) =~= views.insert(0, entry@));
                let mut actions = self.popover.set_entries(
                    &self.state.entries,
                    self.state.playing_id,
                );
                actions.push(UiAction::AddToast("Audio saved.".to_owned()));
                actions.push(UiAction::SetTitleText(String::new()));
                self.state.pending = None;
                actions.push(UiAction::SetFileSubtitle("No file selected".to_owned()));
                actions.push(UiAction::SetFileTooltip(None));
                actions.push(UiAction::SetSaveSensitive(false));
                assert(actions@ =~= old(self)@.event_turn(event@).actions);
                Turn::show(actions)
            },
            Event::Deleted(id) => {
                self.state.entries = remove_entry(&self.state.entries, id);
                let playing: bool = self.state.playing_id == Some(id);
                let attempt: Option<Attempt> = if playing {
                    self.state.playing_id = None;
                    self.state.has_current_uri = false;
                    self.player.stop()
                } else {
                    None
                };
                let actions = self.popover.set_entries(
                    &self.state.entries,
                    self.state.playing_id,
                );
                Turn { attempt, actions, refresh_status: true }
            },
            Event::Error(message) => {
                let mut actions = Actions::new();
                actions.push(
                    UiAction::ShowError { title: "Database error".to_owned(), body: message },
                );
                Turn::show(actions)
            },
        }
    }

    /// A message came over the pipeline's bus.
    pub fn on_bus_message(&mut self, message: BusMessage) -> (r: Reaction)
        ensures
            final(self)@ == (WindowView {
                player: old(self)@.player.after_message(message@),
                ..old(self)@
            }),
            request_views(r.requests@) == old(self)@.player.message_requests(message@),
            r.event_view() == forwarded(message@),
    {
        self.player.on_message(message)
    }

    /// An asynchronous condition from the player.
    pub fn on_player_event(&mut self, event: PlayerEvent) -> (r: Actions)
        ensures
            final(self)@ == old(self)@.after_player_event(event@),
            r@ == old(self)@.player_event_actions(event@),
    {
        let mut actions = Actions::new();
        match event {
            PlayerEvent::EndOfStream => {
                self.state.last_interaction = None;
                actions.push(UiAction::SetPosition(0));
                actions.push(UiAction::SetTime(self.state.start_time()));
                actions.push(self.refresh_status());
            },
            PlayerEvent::Error(message) => {
                self.state.last_duration = 0;
                actions.push(self.refresh_status());
                actions.push(
                    UiAction::ShowError { title: "Playback error".to_owned(), body: message },
                );
            },
        }
        assert(actions@ =~= old(self)@.player_event_actions(event@));
        actions
    }

    /// Periodic refresh of the transport controls, position and status, from
    /// what the pipeline answered for the position and the duration.
    pub fn refresh(&mut self, position: Option<u64>, duration: Option<u64>, now: u128) -> (r:
        Actions)
        ensures
            final(self)@ == old(self)@.refreshed(duration),
            r@ == old(self)@.refresh_actions(position, duration, now),
    {
        let playback: PlaybackState = self.player.state();
        let stopped: bool = playback == PlaybackState::Stopped;
        let position: u64 = if stopped {
            0
        } else {
            self.player.position(position)
        };
        let duration: u64 = if stopped {
            0
        } else {
            self.player.duration(duration)
        };
        let playing: bool = playback == PlaybackState::Playing;
        let mut actions = Actions::new();
        if duration != self.state.last_duration {
            self.state.last_duration = duration;
            actions.push(UiAction::SetPositionRange(duration));
        }
        if !self.state.dragging(now) && position > 0 {
            actions.push(UiAction::SetPosition(position));
        }
        actions.push(UiAction::SetPlayActive(playing));
        if playing {
            actions.push(UiAction::SetPlayIcon("media-playback-pause-symbolic".to_owned()));
            actions.push(UiAction::SetPlayTooltip("Pause".to_owned()));
        } else {
            actions.push(UiAction::SetPlayIcon("media-playback-start-symbolic".to_owned()));
            actions.push(UiAction::SetPlayTooltip("Play".to_owned()));
        }
        actions.push(UiAction::SetStopSensitive(!stopped));
        let mut time = format_time(position);
        time.append(" / ");
        time.append(format_time(duration).as_str());
        actions.push(UiAction::SetTime(time));
        actions.push(self.refresh_status());
        actions
    }

    /// End a turn once the pipeline has answered the last request of its
    /// attempt. Without an attempt `accepted` has no effect.
    pub fn finish(&mut self, turn: Turn, accepted: bool) -> (r: Actions)
        ensures
            final(self)@ == old(self)@.finished(turn@.attempt, accepted),
            r@ == old(self)@.finished_actions(turn@, accepted),
    {
        match &turn.attempt {
            Some(attempt) => {
                self.player.settle(attempt, accepted);
            },
            None => {},
        }
        let mut actions = turn.actions;
        if turn.refresh_status {
            actions.push(self.refresh_status());
        }
        actions
    }

    /// The state that the indicator mirrors.
    pub fn tray_status(&self) -> (r: TrayStatus)
        ensures
            r@ == self@.tray_status(),
    {
        let ghost listed = self@.tray_status().entries;
        let mut entries: Vec<(i64, String)> = Vec::new();
        let n: usize = self.state.entries.len();
        let mut i: usize = 0;
        while i < n
            invariant
                n == self.state.entries@.len(),
                i <= n,
                listed == self@.tray_status().entries,
                listed_views(entries@) == listed.take(i as int),
            decreases n - i,
        {
            let ghost before = listed_views(entries@);
            entries.push((self.state.entries[i].id, self.state.entries[i].title.clone()));
            proof {
                assert(listed_views(entries@) =~= before.push(listed[i as int]));
                assert(listed.take(i + 1) =~= listed.take(i as int).push(listed[i as int]));
            }
            i = i + 1;
        }
        assert(listed.take(n as int) =~= listed);
        let playback: PlaybackState = self.player.state();
        TrayStatus {
            entries,
            playing_id: self.state.playing_id,
            playing: playback == PlaybackState::Playing,
            paused: playback == PlaybackState::Paused,
        }
    }

    /// A command of the indicator arrived.
    pub fn on_tray_command(&mut self, command: TrayCommand) -> (r: TrayStep)
        ensures
            final(self)@ == old(self)@.after_tray_command(command),
            r@ == old(self)@.tray_step(command),
    {
        match command {
            TrayCommand::Play(id) => TrayStep::Activate(id),
            TrayCommand::TogglePlayPause => {
                let active: bool = self.player.state() != PlaybackState::Playing;
                TrayStep::Go(self.on_play_toggled(active))
            },
            TrayCommand::Stop => TrayStep::Go(self.on_stop()),
            TrayCommand::Open => {
                let mut actions = Actions::new();
                actions.push(UiAction::PresentWindow);
                TrayStep::Go(Turn::show(actions))
            },
            TrayCommand::Quit => {
                let mut actions = Actions::new();
                actions.push(UiAction::Quit);
                TrayStep::Go(
                    Turn { attempt: self.player.stop(), actions, refresh_status: false },
                )
            },
        }
    }

    /// The window was asked to close: it hides, and playback continues. The app
    /// goes on in the indicator until it is told to quit.
    pub fn on_close_request(&self) -> (r: Actions)
        ensures
            r@ == seq![UiAction::<Seq<char>>::HideWindow],
            r@ == self@.close_actions(),
    {
        let mut actions = Actions::new();
        actions.push(UiAction::HideWindow);
        actions
    }
}

} // verus!
