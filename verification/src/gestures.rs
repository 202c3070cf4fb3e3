//! What every gesture and every event leads to, as the user sees and hears it:
//! the stream that the pipeline has open afterwards, the row that is
//! highlighted, the texts that are shown, the command that is queued, and what
//! is left as it was.

use vstd::prelude::*;

use crate::consistency::WindowStep;
use crate::database::{CommandView, EventView};
use crate::decimal::{digits, time_text};
use crate::models::{lemma_position, without, EntryView};
use crate::pipeline::{PipelineRequest, PipelineState, PipelineView, StreamView};
use crate::playback::{
    law_play_starts_the_new_stream, law_stop_rewinds, law_toggle_replays_from_the_beginning,
    lemma_after_one, run,
};
use crate::player::{PlayerEventView, PlayerView};
use crate::text::{blank, law_trimmed_empty_iff_blank, trimmed};
use crate::tray::TrayCommand;
use crate::ui::action::{Page, UiAction};
use crate::ui::popover::{selection, shown};
use crate::window::{
    ChosenFile, FileChoice, LocationView, StateView, TrayStepView, TurnView, WindowView,
};

verus! {

/// Whether `action` highlights the first row of the entry `id`, and no row where
/// there is none or no id is given.
pub open spec fn highlights(
    action: UiAction<Seq<char>>,
    entries: Seq<EntryView>,
    id: Option<i64>,
) -> bool {
    match action {
        UiAction::SelectRow(k) => {
            &&& k < entries.len()
            &&& id == Some(entries[k as int].id)
            &&& forall|j: int| 0 <= j < k ==> id != Some((#[trigger] entries[j]).id)
        },
        UiAction::UnselectRows => forall|j: int|
            0 <= j < entries.len() ==> id != Some((#[trigger] entries[j]).id),
        _ => false,
    }
}

/// Whether `actions` begins with rebuilding the rows from `entries`: one row for
/// each, in order, the page that fits, and the highlight of the entry `id`.
pub open spec fn rebuilds(
    actions: Seq<UiAction<Seq<char>>>,
    entries: Seq<EntryView>,
    id: Option<i64>,
) -> bool {
    let n = entries.len() as int;
    &&& actions.len() >= n + 3
    &&& actions[0] == UiAction::<Seq<char>>::ClearRows
    &&& forall|i: int|
        0 <= i < n ==> actions[i + 1] == UiAction::AppendRow((#[trigger] entries[i]).title)
    &&& n == 0 ==> actions[n + 1] == UiAction::<Seq<char>>::ShowPage(Page::Empty)
    &&& n > 0 ==> actions[n + 1] == UiAction::<Seq<char>>::ShowPage(Page::List)
    &&& highlights(actions[n + 2], entries, id)
}

proof fn lemma_selection(entries: Seq<EntryView>, id: Option<i64>)
    requires
        entries.len() <= usize::MAX,
    ensures
        highlights(selection(entries, id), entries, id),
{
    if let Some(id) = id {
        lemma_position(entries, id);
    }
}

proof fn lemma_shown(
    actions: Seq<UiAction<Seq<char>>>,
    entries: Seq<EntryView>,
    id: Option<i64>,
)
    requires
        entries.len() <= usize::MAX,
        actions.len() >= entries.len() + 3,
        actions.take(entries.len() as int + 3) == shown(entries, id),
    ensures
        rebuilds(actions, entries, id),
{
    lemma_selection(entries, id);
    let front = actions.take(entries.len() as int + 3);
    assert(front[0] == actions[0]);
    assert forall|i: int| 0 <= i < entries.len() implies actions[i + 1] == UiAction::AppendRow(
        (#[trigger] entries[i]).title,
    ) by {
        assert(front[i + 1] == actions[i + 1]);
    }
    assert(front[entries.len() as int + 1] == actions[entries.len() as int + 1]);
    assert(front[entries.len() as int + 2] == actions[entries.len() as int + 2]);
}

// ---------------------------------------------------------------------------
// Playing an entry
// ---------------------------------------------------------------------------

/// Playing an entry whose file has a URI: whatever the pipeline was doing, it then
/// has the stream of exactly that URI open at its beginning, and plays it. The
/// path of the entry plays no part in it.
pub proof fn law_located_entry_is_the_stream_that_plays(
    window: WindowView,
    entry: EntryView,
    uri: Seq<char>,
    pipeline: PipelineView,
)
    requires
        window.player.available,
    ensures
        ({
            let turn = window.located_turn(entry, LocationView::Uri(uri));
            let after = run(pipeline, turn.attempt);
            let done = window.located(entry, LocationView::Uri(uri)).finished(turn.attempt, true);
            &&& turn.attempt is Some
            &&& after.state is Playing
            &&& after.stream == Some(StreamView { uri, position: 0 })
            &&& after.uri == uri
            &&& done.player.state is Playing
        }),
{
    law_play_starts_the_new_stream(window.player, pipeline, uri);
    reveal_with_fuel(PipelineView::after_all, 4);
    let requests = window.located_turn(entry, LocationView::Uri(uri)).attempt->0.requests;
    assert(requests.drop_first().drop_first().drop_first() =~= Seq::empty());
}

/// Playing an entry makes it the loaded one, queues that it is remembered, and
/// highlights its row. The library and the form stay as they are.
pub proof fn law_located_entry_is_loaded_and_remembered(
    window: WindowView,
    entry: EntryView,
    uri: Seq<char>,
)
    requires
        window.listed.len() <= usize::MAX,
    ensures
        ({
            let location = LocationView::Uri(uri);
            let turn = window.located_turn(entry, location);
            let after = window.located(entry, location);
            &&& after.state.playing_id == Some(entry.id)
            &&& after.state.has_current_uri
            &&& after.state.last_interaction is None
            &&& after.commands == window.commands.push(
                CommandView::SetLastPlayed { id: Some(entry.id) },
            )
            &&& after.state.entries == window.state.entries
            &&& after.state.pending == window.state.pending
            &&& after.state.last_duration == window.state.last_duration
            &&& after.listed == window.listed
            &&& after.player == window.player
            &&& turn.refresh_status
            &&& turn.actions.len() == 1
            &&& highlights(turn.actions[0], window.listed, Some(entry.id))
            &&& turn.attempt is Some <==> window.player.available
        }),
{
    lemma_selection(window.listed, Some(entry.id));
}

/// An entry whose file is missing is offered for removal, with its path; one whose
/// path has no URI is reported, with its description and the reason. Nothing is
/// asked of the pipeline, and the window stays as it is.
pub proof fn law_unplayable_entry_is_reported(
    window: WindowView,
    entry: EntryView,
    reason: Seq<char>,
)
    ensures
        ({
            let turn = window.located_turn(entry, LocationView::Missing);
            &&& window.located(entry, LocationView::Missing) == window
            &&& turn.attempt is None
            &&& !turn.refresh_status
            &&& turn.actions.len() == 1
            &&& turn.actions[0] == (UiAction::ShowMissingFile {
                id: entry.id,
                file_path: entry.file_path,
            })
        }),
        ({
            let turn = window.located_turn(entry, LocationView::NoUri(reason));
            let body = turn.actions[0]->body;
            let before = body.len() - reason.len();
            &&& window.located(entry, LocationView::NoUri(reason)) == window
            &&& turn.attempt is None
            &&& !turn.refresh_status
            &&& turn.actions.len() == 1
            &&& turn.actions[0] is ShowError
            &&& turn.actions[0]->ShowError_title == "Could not play file"@
            &&& before >= 0
            &&& body.skip(before) == reason
            &&& body.take(before) == entry.debug_view() + ": "@
        }),
{
    let body = window.located_turn(entry, LocationView::NoUri(reason)).actions[0]->body;
    let before = body.len() - reason.len();
    assert(body.skip(before) =~= reason);
    assert(body.take(before) =~= entry.debug_view() + ": "@);
}

// ---------------------------------------------------------------------------
// The play button
// ---------------------------------------------------------------------------

/// Pressing the play button of a stopped player with a file loaded plays the
/// pipeline's URI from its beginning.
pub proof fn law_play_button_starts_over(window: WindowView, pipeline: PipelineView)
    requires
        window.player.available,
        window.player.state is Stopped,
        window.state.has_current_uri,
    ensures
        ({
            let turn = window.play_toggled_turn(true);
            let after = run(pipeline, turn.attempt);
            &&& turn.attempt is Some
            &&& turn.refresh_status
            &&& turn.actions.len() == 0
            &&& after.state is Playing
            &&& after.stream == Some(StreamView { uri: pipeline.uri, position: 0 })
            &&& after.uri == pipeline.uri
            &&& window.finished(turn.attempt, true).player.state is Playing
        }),
{
    law_toggle_replays_from_the_beginning(window.player, pipeline);
    reveal_with_fuel(PipelineView::after_all, 4);
    let requests = window.play_toggled_turn(true).attempt->0.requests;
    assert(requests.drop_first().drop_first().drop_first() =~= Seq::empty());
}

/// Pressing the play button of a paused player with a file loaded goes on with
/// the open stream where it stands.
pub proof fn law_play_button_resumes(window: WindowView, pipeline: PipelineView)
    requires
        window.player.available,
        window.player.state is Paused,
        window.state.has_current_uri,
        pipeline.state is Paused,
        pipeline.wf(),
    ensures
        ({
            let turn = window.play_toggled_turn(true);
            let after = run(pipeline, turn.attempt);
            &&& turn.attempt is Some
            &&& turn.refresh_status
            &&& turn.actions.len() == 0
            &&& after.state is Playing
            &&& after.stream == pipeline.stream
            &&& after.uri == pipeline.uri
            &&& window.finished(turn.attempt, true).player.state is Playing
        }),
{
    lemma_after_one(pipeline, PipelineRequest::SetState(PipelineState::Playing));
}

/// Releasing the play button of a playing player holds the open stream where it
/// stands.
pub proof fn law_play_button_pauses(window: WindowView, pipeline: PipelineView)
    requires
        window.player.available,
        window.player.state is Playing,
        pipeline.state is Playing,
        pipeline.wf(),
    ensures
        ({
            let turn = window.play_toggled_turn(false);
            let after = run(pipeline, turn.attempt);
            &&& turn.attempt is Some
            &&& turn.refresh_status
            &&& turn.actions.len() == 0
            &&& after.state is Paused
            &&& after.stream == pipeline.stream
            &&& after.uri == pipeline.uri
            &&& window.finished(turn.attempt, true).player.state is Paused
        }),
{
    lemma_after_one(pipeline, PipelineRequest::SetState(PipelineState::Paused));
}

/// While nothing is loaded the play button does not stay pressed, and nothing is
/// asked of the pipeline.
pub proof fn law_play_button_needs_a_file(window: WindowView)
    requires
        !(window.player.state is Playing),
        !window.state.has_current_uri,
    ensures
        ({
            let turn = window.play_toggled_turn(true);
            &&& turn.attempt is None
            &&& !turn.refresh_status
            &&& turn.actions.len() == 1
            &&& turn.actions[0] == UiAction::<Seq<char>>::SetPlayActive(false)
        }),
{
}

/// A play button that shows what the player does already asks for nothing.
pub proof fn law_play_button_that_agrees_does_nothing(window: WindowView, active: bool)
    requires
        active <==> window.player.state is Playing,
    ensures
        ({
            let turn = window.play_toggled_turn(active);
            &&& turn.attempt is None
            &&& !turn.refresh_status
            &&& turn.actions.len() == 0
        }),
{
}

/// Without a pipeline the play button asks for nothing, and the status line is
/// still that of a stopped player.
pub proof fn law_play_button_without_a_pipeline(window: WindowView, accepted: bool)
    requires
        window.player.wf(),
        !window.player.available,
        window.state.has_current_uri,
    ensures
        ({
            let turn = window.play_toggled_turn(true);
            &&& turn.attempt is None
            &&& window.finished(turn.attempt, accepted) == window
            &&& window.finished_actions(turn, accepted).len() == 1
            &&& window.finished_actions(turn, accepted)[0] == UiAction::SetStatus("Ready"@)
        }),
{
}

// ---------------------------------------------------------------------------
// The stop button and the slider
// ---------------------------------------------------------------------------

proof fn lemma_no_time()
    ensures
        "0:00 / "@ + time_text(0) == "0:00 / 0:00"@,
{
    reveal_strlit("0:00 / 0:00");
    reveal_strlit("0:00 / ");
    reveal_strlit(":");
    reveal_with_fuel(digits, 2);
    assert(time_text(0) =~= seq!['0', ':', '0', '0']);
    assert("0:00 / "@ + time_text(0) =~= "0:00 / 0:00"@);
}

/// The stop button closes the stream and rewinds what is shown. What is loaded
/// stays loaded, so that the play button then starts it over.
pub proof fn law_stop_button_rewinds(window: WindowView, pipeline: PipelineView)
    requires
        window.player.available,
    ensures
        ({
            let turn = window.stopped_turn();
            let after = run(pipeline, turn.attempt);
            let done = window.stopped().finished(turn.attempt, true);
            let shown = window.stopped().finished_actions(turn, true);
            &&& turn.attempt is Some
            &&& after.stream is None
            &&& after.uri == pipeline.uri
            &&& done.player.state is Stopped
            &&& shown.len() == 3
            &&& shown[0] == UiAction::<Seq<char>>::SetPosition(0)
            &&& shown[1] == UiAction::SetTime("0:00 / 0:00"@)
            &&& shown[2] == UiAction::SetStatus("Ready"@)
            &&& done.state.last_duration == 0
            &&& done.state.last_interaction is None
            &&& done.state.playing_id == window.state.playing_id
            &&& done.state.has_current_uri == window.state.has_current_uri
            &&& done.state.entries == window.state.entries
            &&& done.state.pending == window.state.pending
            &&& done.commands == window.commands
            &&& done.listed == window.listed
        }),
        window.state.has_current_uri ==> ({
            let stop = window.stopped_turn();
            let stopped = window.stopped().finished(stop.attempt, true);
            let again = run(
                run(pipeline, stop.attempt),
                stopped.play_toggled_turn(true).attempt,
            );
            &&& again.state is Playing
            &&& again.stream == Some(StreamView { uri: pipeline.uri, position: 0 })
        }),
{
    lemma_no_time();
    law_stop_rewinds(window.player, pipeline);
    lemma_after_one(pipeline, PipelineRequest::SetState(PipelineState::Ready));
    let stop = window.stopped_turn();
    if window.state.has_current_uri {
        law_play_button_starts_over(
            window.stopped().finished(stop.attempt, true),
            run(pipeline, stop.attempt),
        );
    }
}

/// Moving the slider while a stream is open, playing or paused, jumps to that
/// second of it; only the time of the gesture is noted.
pub proof fn law_slider_jumps_to_its_second(
    window: WindowView,
    seconds: u64,
    now: u128,
    pipeline: PipelineView,
)
    requires
        window.player.available,
        window.player.state is Playing || window.player.state is Paused,
        seconds * 1_000_000_000 <= u64::MAX,
        pipeline.stream is Some,
    ensures
        ({
            let target = window.seek(seconds);
            let after = pipeline.after(PipelineRequest::Seek(target->0));
            &&& target is Some
            &&& target->0 == seconds * 1_000_000_000
            &&& after.stream == Some(
                StreamView {
                    uri: pipeline.stream->0.uri,
                    position: (seconds * 1_000_000_000) as nat,
                },
            )
            &&& after.state == pipeline.state
        }),
        ({
            let after = window.sought(now);
            &&& after.state.last_interaction == Some(now)
            &&& after == WindowView {
                state: StateView { last_interaction: Some(now), ..window.state },
                ..window
            }
        }),
{
}

/// A second whose nanoseconds cannot be counted is as far as one can jump, and
/// without an open stream the slider asks for nothing.
pub proof fn law_slider_at_its_limits(window: WindowView, seconds: u64)
    ensures
        window.player.available && !(window.player.state is Stopped) && seconds * 1_000_000_000
            > u64::MAX ==> window.seek(seconds) == Some(u64::MAX),
        window.player.state is Stopped || !window.player.available ==> window.seek(seconds) is None,
{
}

// ---------------------------------------------------------------------------
// The periodic refresh
// ---------------------------------------------------------------------------

/// Whether `second` is the whole seconds of an answer in nanoseconds, 0 where
/// there is no answer.
pub open spec fn whole_seconds(second: u64, answer: Option<u64>) -> bool {
    match answer {
        Some(nanoseconds) => second * 1_000_000_000 <= nanoseconds < (second + 1) * 1_000_000_000,
        None => second == 0,
    }
}

/// The refresh shows the whole seconds of the answered position and duration in
/// the time label while a stream is open, playing or paused, and no time while
/// it is stopped. The duration is kept; nothing else of the window changes.
pub proof fn law_refresh_shows_the_time(
    window: WindowView,
    position: Option<u64>,
    duration: Option<u64>,
    p: u64,
    d: u64,
    now: u128,
    i: int,
)
    requires
        window.player.available && !(window.player.state is Stopped) ==> {
            &&& whole_seconds(p, position)
            &&& whole_seconds(d, duration)
        },
        !window.player.available || window.player.state is Stopped ==> p == 0 && d == 0,
    ensures
        ({
            let shown = window.refresh_actions(position, duration, now);
            let after = window.refreshed(duration);
            let time = UiAction::SetTime(time_text(p) + " / "@ + time_text(d));
            &&& shown.contains(time)
            &&& 0 <= i < shown.len() && shown[i] is SetTime ==> shown[i] == time
            &&& after.state.last_duration == d
            &&& after == WindowView {
                state: StateView { last_duration: d, ..window.state },
                ..window
            }
        }),
{
    let shown = window.refresh_actions(position, duration, now);
    let time = UiAction::SetTime(time_text(p) + " / "@ + time_text(d));
    assert(shown[shown.len() - 2] == time);
}

/// The refresh moves the slider to the position, unless it is unknown or at the
/// very beginning, or the user touched the slider less than 300 milliseconds ago;
/// and it gives the slider a new range exactly when the duration has changed.
pub proof fn law_refresh_moves_the_slider(
    window: WindowView,
    position: Option<u64>,
    duration: Option<u64>,
    p: u64,
    d: u64,
    now: u128,
    i: int,
)
    requires
        window.player.available,
        !(window.player.state is Stopped),
        whole_seconds(p, position),
        whole_seconds(d, duration),
    ensures
        ({
            let shown = window.refresh_actions(position, duration, now);
            let free = match window.state.last_interaction {
                Some(then) => now >= then + 300_000_000,
                None => true,
            };
            &&& shown.contains(UiAction::<Seq<char>>::SetPosition(p)) <==> free && p > 0
            &&& 0 <= i < shown.len() && shown[i] is SetPosition ==> shown[i] == UiAction::<
                Seq<char>,
            >::SetPosition(p)
            &&& shown.contains(UiAction::<Seq<char>>::SetPositionRange(d)) <==> d
                != window.state.last_duration
            &&& 0 <= i < shown.len() && shown[i] is SetPositionRange ==> shown[i] == UiAction::<
                Seq<char>,
            >::SetPositionRange(d)
        }),
{
    let shown = window.refresh_actions(position, duration, now);
    let range = d != window.state.last_duration;
    let slider = !window.state.dragging(now) && p > 0;
    if range {
        assert(shown[0] == UiAction::<Seq<char>>::SetPositionRange(d));
    }
    if slider {
        assert(shown[if range {
            1int
        } else {
            0
        }] == UiAction::<Seq<char>>::SetPosition(p));
    }
}

/// While the player is stopped the refresh leaves the slider where it is, and
/// gives it the range of no stream once.
pub proof fn law_refresh_of_a_stopped_player(
    window: WindowView,
    position: Option<u64>,
    duration: Option<u64>,
    now: u128,
    i: int,
)
    requires
        window.player.state is Stopped,
        0 <= i < window.refresh_actions(position, duration, now).len(),
    ensures
        ({
            let shown = window.refresh_actions(position, duration, now);
            &&& !(shown[i] is SetPosition)
            &&& shown[i] is SetPositionRange ==> shown[i] == UiAction::<
                Seq<char>,
            >::SetPositionRange(0)
            &&& shown.contains(UiAction::<Seq<char>>::SetPositionRange(0)) <==> 0
                != window.state.last_duration
        }),
{
    let shown = window.refresh_actions(position, duration, now);
    if 0 != window.state.last_duration {
        assert(shown[0] == UiAction::<Seq<char>>::SetPositionRange(0));
    }
}

/// The refresh sets the buttons as the player is: the play button is pressed and
/// offers to pause exactly while it plays, the stop button can be used exactly
/// while it is not stopped, and the status line is brought up to date.
pub proof fn law_refresh_sets_the_buttons(
    window: WindowView,
    position: Option<u64>,
    duration: Option<u64>,
    now: u128,
    i: int,
)
    requires
        0 <= i < window.refresh_actions(position, duration, now).len(),
    ensures
        ({
            let shown = window.refresh_actions(position, duration, now);
            let playing = window.player.state is Playing;
            let active = UiAction::<Seq<char>>::SetPlayActive(playing);
            let stop = UiAction::<Seq<char>>::SetStopSensitive(
                window.player.state is Playing || window.player.state is Paused,
            );
            let icon = UiAction::SetPlayIcon(
                if playing {
                    "media-playback-pause-symbolic"@
                } else {
                    "media-playback-start-symbolic"@
                },
            );
            let tooltip = UiAction::SetPlayTooltip(
                if playing {
                    "Pause"@
                } else {
                    "Play"@
                },
            );
            &&& shown.contains(active)
            &&& shown.contains(stop)
            &&& shown.contains(icon)
            &&& shown.contains(tooltip)
            &&& shown.last() == window.status()
            &&& shown[i] is SetPlayActive ==> shown[i] == active
            &&& shown[i] is SetStopSensitive ==> shown[i] == stop
            &&& shown[i] is SetPlayIcon ==> shown[i] == icon
            &&& shown[i] is SetPlayTooltip ==> shown[i] == tooltip
            &&& {
                ||| shown[i] is SetPositionRange
                ||| shown[i] is SetPosition
                ||| shown[i] is SetPlayActive
                ||| shown[i] is SetPlayIcon
                ||| shown[i] is SetPlayTooltip
                ||| shown[i] is SetStopSensitive
                ||| shown[i] is SetTime
                ||| shown[i] is SetStatus
            }
        }),
{
    let shown = window.refresh_actions(position, duration, now);
    let n = shown.len();
    assert(shown[n - 6] is SetPlayActive);
    assert(shown[n - 5] is SetPlayIcon);
    assert(shown[n - 4] is SetPlayTooltip);
    assert(shown[n - 3] is SetStopSensitive);
}

// ---------------------------------------------------------------------------
// The form
// ---------------------------------------------------------------------------

/// Whatever was chosen before, the file that was chosen last is the one that is
/// shown and the one that saving stores, under the trimmed title.
pub proof fn law_last_chosen_file_is_the_one_that_is_saved(
    window: WindowView,
    file: ChosenFile,
    typed: Seq<char>,
    title: Seq<char>,
)
    ensures
        ({
            let choice = FileChoice::Chosen(file);
            let after = window.file_chosen(choice);
            let shown = window.file_chosen_actions(choice, typed);
            &&& after.state.pending == Some(file@)
            &&& after == WindowView {
                state: StateView { pending: Some(file@), ..window.state },
                ..window
            }
            &&& shown.len() == 3
            &&& shown[0] == UiAction::SetFileSubtitle(file.display@)
            &&& shown[1] == UiAction::SetFileTooltip(Some(file.display@))
            &&& shown[2] == UiAction::<Seq<char>>::SetSaveSensitive(!blank(typed))
            &&& !blank(title) && file@.path is Some ==> {
                &&& after.saved(title).commands == window.commands.push(
                    CommandView::Insert { title: trimmed(title), file_path: file@.path->0 },
                )
                &&& after.saved_actions(title).len() == 0
            }
            &&& !blank(title) && file@.path is None ==> {
                &&& after.saved(title) == after
                &&& after.saved_actions(title).len() == 1
                &&& after.saved_actions(title)[0] == (UiAction::ShowError {
                    title: "Invalid file"@,
                    body: "The selected file has no valid UTF-8 path."@,
                })
            }
            &&& blank(title) ==> after.saved(title) == after && after.saved_actions(title).len()
                == 0
        }),
{
}

/// A picker that is cancelled or fails leaves the form as it is; a failure is
/// reported, a cancellation is not.
pub proof fn law_no_file_chosen(window: WindowView, reason: String, typed: Seq<char>)
    ensures
        window.file_chosen(FileChoice::Cancelled) == window,
        window.file_chosen(FileChoice::NotLocal) == window,
        window.file_chosen(FileChoice::Failed(reason)) == window,
        window.file_chosen_actions(FileChoice::Cancelled, typed).len() == 0,
        ({
            let shown = window.file_chosen_actions(FileChoice::NotLocal, typed);
            &&& shown.len() == 1
            &&& shown[0] == (UiAction::ShowError {
                title: "Invalid file"@,
                body: "The selected file could not be resolved to a local path."@,
            })
        }),
        ({
            let shown = window.file_chosen_actions(FileChoice::Failed(reason), typed);
            &&& shown.len() == 1
            &&& shown[0] == (UiAction::ShowError {
                title: "Could not open file"@,
                body: reason@,
            })
        }),
{
}

/// Saving queues at most one command and changes nothing else; the form is kept
/// until the entry is stored. Nothing is stored without a title and a file.
pub proof fn law_saving_keeps_the_form(window: WindowView, title: Seq<char>)
    ensures
        window.saved(title).state == window.state,
        window.saved(title).player == window.player,
        window.saved(title).listed == window.listed,
        window.saved(title).commands == window.commands || exists|command: CommandView|
            window.saved(title).commands == #[trigger] window.commands.push(command),
        blank(title) || window.state.pending is None ==> {
            &&& window.saved(title) == window
            &&& window.saved_actions(title).len() == 0
            &&& window.save_enabled(title) == UiAction::<Seq<char>>::SetSaveSensitive(false)
        },
        !blank(title) && window.state.pending is Some ==> window.save_enabled(title)
            == UiAction::<Seq<char>>::SetSaveSensitive(true),
        trimmed(title).len() == 0 <==> blank(title),
{
    law_trimmed_empty_iff_blank(title);
    let command = CommandView::Insert {
        title: trimmed(title),
        file_path: window.state.pending->0.path->0,
    };
    assert(window.saved(title).commands == window.commands || window.saved(title).commands
        == window.commands.push(command));
}

// ---------------------------------------------------------------------------
// Events of the database worker
// ---------------------------------------------------------------------------

/// A loaded library replaces the list: its rows are rebuilt with the loaded entry
/// highlighted or, while there is none, the remembered one. Playback and the form
/// are left alone.
pub proof fn law_loaded_library_is_shown(
    window: WindowView,
    entries: Seq<EntryView>,
    last_played: Option<i64>,
)
    requires
        entries.len() <= usize::MAX,
    ensures
        ({
            let event = EventView::Loaded { entries, last_played };
            let after = window.after_event(event);
            let turn = window.event_turn(event);
            &&& after.state.entries == entries
            &&& after.listed == entries
            &&& after == WindowView {
                state: StateView { entries, ..window.state },
                listed: entries,
                ..window
            }
            &&& turn.attempt is None
            &&& turn.refresh_status
            &&& turn.actions.len() == entries.len() + 3
            &&& window.state.playing_id is Some ==> rebuilds(
                turn.actions,
                entries,
                window.state.playing_id,
            )
            &&& window.state.playing_id is None ==> rebuilds(turn.actions, entries, last_played)
        }),
{
    let turn = window.event_turn(EventView::Loaded { entries, last_played });
    let id = if window.state.playing_id is Some {
        window.state.playing_id
    } else {
        last_played
    };
    assert(turn.actions.take(entries.len() as int + 3) =~= turn.actions);
    lemma_shown(turn.actions, entries, id);
}

/// A stored entry goes to the front of the list and the form is emptied. The
/// loaded entry stays highlighted, and playback is left alone.
pub proof fn law_stored_entry_is_shown_first(window: WindowView, entry: EntryView)
    requires
        window.state.entries.len() < usize::MAX,
    ensures
        ({
            let event = EventView::Inserted(entry);
            let after = window.after_event(event);
            let turn = window.event_turn(event);
            let n = window.state.entries.len() as int;
            &&& after.state.entries == seq![entry] + window.state.entries
            &&& after.listed == after.state.entries
            &&& after.state.pending is None
            &&& after.state.playing_id == window.state.playing_id
            &&& after.state.has_current_uri == window.state.has_current_uri
            &&& after.state.last_duration == window.state.last_duration
            &&& after.state.last_interaction == window.state.last_interaction
            &&& after.player == window.player
            &&& after.commands == window.commands
            &&& turn.attempt is None
            &&& !turn.refresh_status
            &&& turn.actions.len() == n + 9
            &&& rebuilds(turn.actions, after.state.entries, window.state.playing_id)
            &&& turn.actions[n + 4] == UiAction::AddToast("Audio saved."@)
            &&& turn.actions[n + 5] is SetTitleText
            &&& turn.actions[n + 5]->SetTitleText_0.len() == 0
            &&& turn.actions[n + 6] == UiAction::SetFileSubtitle("No file selected"@)
            &&& turn.actions[n + 7] == UiAction::<Seq<char>>::SetFileTooltip(None)
            &&& turn.actions[n + 8] == UiAction::<Seq<char>>::SetSaveSensitive(false)
        }),
{
    let event = EventView::Inserted(entry);
    let after = window.after_event(event);
    let turn = window.event_turn(event);
    assert(after.state.entries =~= seq![entry] + window.state.entries);
    assert(turn.actions.take(after.state.entries.len() as int + 3) =~= shown(
        after.state.entries,
        window.state.playing_id,
    ));
    lemma_shown(turn.actions, after.state.entries, window.state.playing_id);
}

/// A removed entry leaves the list and the rows. If it is the loaded one the
/// stream is closed and nothing is loaded any more; if it is not, playback is
/// left alone.
pub proof fn law_removed_entry_disappears(window: WindowView, id: i64, pipeline: PipelineView)
    requires
        window.state.entries.len() <= usize::MAX,
    ensures
        ({
            let event = EventView::Deleted(id);
            let after = window.after_event(event);
            let turn = window.event_turn(event);
            let loaded = window.state.playing_id == Some(id);
            &&& forall|i: int|
                0 <= i < after.state.entries.len() ==> (#[trigger] after.state.entries[i]).id != id
            &&& forall|entry: EntryView|
                entry.id != id ==> (after.state.entries.to_multiset().count(entry)
                    == #[trigger] window.state.entries.to_multiset().count(entry))
            &&& after.listed == after.state.entries
            &&& turn.refresh_status
            &&& turn.actions.len() == after.state.entries.len() + 3
            &&& rebuilds(turn.actions, after.state.entries, after.state.playing_id)
            &&& loaded ==> after.state.playing_id is None && !after.state.has_current_uri
            &&& !loaded ==> after.state.playing_id == window.state.playing_id
                && after.state.has_current_uri == window.state.has_current_uri
            &&& turn.attempt is Some <==> loaded && window.player.available
            &&& turn.attempt is Some ==> {
                &&& run(pipeline, turn.attempt).stream is None
                &&& after.finished(turn.attempt, true).player.state is Stopped
            }
            &&& after.state.pending == window.state.pending
            &&& after.state.last_duration == window.state.last_duration
            &&& after.state.last_interaction == window.state.last_interaction
            &&& after.player == window.player
            &&& after.commands == window.commands
        }),
{
    let after = window.after_event(EventView::Deleted(id));
    let turn = window.event_turn(EventView::Deleted(id));
    let keep = |entry: EntryView| entry.id != id;
    assert forall|i: int| 0 <= i < after.state.entries.len() implies (
    #[trigger] after.state.entries[i]).id != id by {
        window.state.entries.lemma_filter_pred(keep, i);
    }
    lemma_without_len(window.state.entries, id);
    assert forall|entry: EntryView| entry.id != id implies after.state.entries.to_multiset().count(
        entry,
    ) == #[trigger] window.state.entries.to_multiset().count(entry) by {
        lemma_without_count(window.state.entries, id, entry);
    }
    assert(turn.actions.take(after.state.entries.len() as int + 3) =~= turn.actions);
    lemma_shown(turn.actions, after.state.entries, after.state.playing_id);
    lemma_after_one(pipeline, PipelineRequest::SetState(PipelineState::Ready));
}

proof fn lemma_without_len(entries: Seq<EntryView>, id: i64)
    ensures
        without(entries, id).len() <= entries.len(),
    decreases entries.len(),
{
    reveal(Seq::filter);
    if entries.len() > 0 {
        lemma_without_len(entries.drop_last(), id);
    }
}

proof fn lemma_without_count(entries: Seq<EntryView>, id: i64, entry: EntryView)
    requires
        entry.id != id,
    ensures
        without(entries, id).to_multiset().count(entry) == entries.to_multiset().count(entry),
    decreases entries.len(),
{
    broadcast use vstd::seq_lib::group_to_multiset_ensures;

    reveal(Seq::filter);
    if entries.len() > 0 {
        let front = entries.drop_last();
        lemma_without_count(front, id, entry);
        assert(entries =~= front.push(entries.last()));
    } else {
        assert(without(entries, id) =~= entries);
    }
}

/// Removing entries keeps the order of the others.
pub proof fn law_removal_keeps_the_order(entries: Seq<EntryView>, id: i64, i: int, j: int)
    requires
        0 <= i < j < without(entries, id).len(),
    ensures
        exists|a: int, b: int|
            0 <= a < b < entries.len() && #[trigger] entries[a] == without(entries, id)[i]
                && #[trigger] entries[b] == without(entries, id)[j],
    decreases entries.len(),
{
    reveal(Seq::filter);
    let front = entries.drop_last();
    if entries.len() > 0 {
        let kept = without(front, id);
        if j < kept.len() {
            law_removal_keeps_the_order(front, id, i, j);
            let (a, b) = choose|a: int, b: int|
                0 <= a < b < front.len() && #[trigger] front[a] == kept[i] && #[trigger] front[b]
                    == kept[j];
            assert(entries[a] == without(entries, id)[i] && entries[b] == without(
                entries,
                id,
            )[j]);
        } else {
            lemma_kept_is_there(front, id, i);
            let a = choose|a: int| 0 <= a < front.len() && #[trigger] front[a] == kept[i];
            assert(entries[a] == without(entries, id)[i]);
            assert(entries[entries.len() - 1] == without(entries, id)[j]);
        }
    }
}

proof fn lemma_kept_is_there(entries: Seq<EntryView>, id: i64, i: int)
    requires
        0 <= i < without(entries, id).len(),
    ensures
        exists|a: int| 0 <= a < entries.len() && #[trigger] entries[a] == without(entries, id)[i],
    decreases entries.len(),
{
    reveal(Seq::filter);
    if entries.len() > 0 {
        let front = entries.drop_last();
        let kept = without(front, id);
        if i < kept.len() {
            lemma_kept_is_there(front, id, i);
            let a = choose|a: int| 0 <= a < front.len() && #[trigger] front[a] == kept[i];
            assert(entries[a] == without(entries, id)[i]);
        } else {
            assert(entries[entries.len() - 1] == without(entries, id)[i]);
        }
    }
}

/// A failure of the database worker is shown as it is reported, and nothing
/// changes.
pub proof fn law_database_failure_is_shown(window: WindowView, message: Seq<char>)
    ensures
        ({
            let turn = window.event_turn(EventView::Error(message));
            &&& window.after_event(EventView::Error(message)) == window
            &&& turn.attempt is None
            &&& !turn.refresh_status
            &&& turn.actions.len() == 1
            &&& turn.actions[0] == (UiAction::ShowError {
                title: "Database error"@,
                body: message,
            })
        }),
{
}

/// Choosing to remove an entry whose file is missing queues its removal. If it is
/// the loaded one the stream is closed; if it is not, playback is left alone.
pub proof fn law_removal_of_a_missing_entry_is_queued(
    window: WindowView,
    id: i64,
    pipeline: PipelineView,
)
    ensures
        ({
            let after = window.missing_removed(id);
            let turn = window.missing_removed_turn(id);
            let loaded = window.state.playing_id == Some(id);
            &&& after.commands == window.commands.push(CommandView::Delete { id })
            &&& after.state.playing_id == if loaded {
                None
            } else {
                window.state.playing_id
            }
            &&& after == WindowView {
                state: StateView { playing_id: after.state.playing_id, ..window.state },
                commands: after.commands,
                ..window
            }
            &&& turn.actions.len() == 0
            &&& !turn.refresh_status
            &&& turn.attempt is Some <==> loaded && window.player.available
            &&& turn.attempt is Some ==> {
                &&& run(pipeline, turn.attempt).stream is None
                &&& after.finished(turn.attempt, true).player.state is Stopped
            }
        }),
{
    lemma_after_one(pipeline, PipelineRequest::SetState(PipelineState::Ready));
}

// ---------------------------------------------------------------------------
// Events of the player
// ---------------------------------------------------------------------------

/// The end of a stream rewinds what is shown, and its duration stays known. A
/// failure is shown with its reason, and the duration is forgotten.
pub proof fn law_player_events_are_shown(window: WindowView, message: Seq<char>)
    ensures
        ({
            let event = PlayerEventView::EndOfStream;
            let shown = window.player_event_actions(event);
            &&& window.after_player_event(event) == WindowView {
                state: StateView { last_interaction: None, ..window.state },
                ..window
            }
            &&& shown.len() == 3
            &&& shown[0] == UiAction::<Seq<char>>::SetPosition(0)
            &&& shown[1] == UiAction::SetTime("0:00 / "@ + time_text(window.state.last_duration))
            &&& shown[2] == window.status()
        }),
        ({
            let event = PlayerEventView::Error(message);
            let shown = window.player_event_actions(event);
            &&& window.after_player_event(event) == WindowView {
                state: StateView { last_duration: 0, ..window.state },
                ..window
            }
            &&& shown.len() == 2
            &&& shown[0] == window.status()
            &&& shown[1] == (UiAction::ShowError { title: "Playback error"@, body: message })
        }),
{
}

// ---------------------------------------------------------------------------
// The status line
// ---------------------------------------------------------------------------

/// The status line names the loaded entry while it plays or is paused: the first
/// entry of the library with its id. It names none that is not in the library,
/// and nothing while the player is stopped.
pub proof fn law_status_line_names_the_loaded_entry(window: WindowView, id: i64, k: int)
    requires
        window.state.playing_id == Some(id),
        0 <= k < window.state.entries.len(),
        window.state.entries[k].id == id,
        forall|j: int| 0 <= j < k ==> (#[trigger] window.state.entries[j]).id != id,
    ensures
        window.player.state is Playing ==> window.status() == UiAction::SetStatus(
            "Playing: "@ + window.state.entries[k].title,
        ),
        window.player.state is Paused ==> window.status() == UiAction::SetStatus(
            "Paused: "@ + window.state.entries[k].title,
        ),
        window.player.state is Stopped ==> window.status() == UiAction::SetStatus("Ready"@),
{
    lemma_position(window.state.entries, id);
}

/// Without a loaded entry in the library the status line only says what the
/// player does.
pub proof fn law_status_line_without_an_entry(window: WindowView)
    requires
        forall|j: int|
            0 <= j < window.state.entries.len() ==> window.state.playing_id != Some(
                (#[trigger] window.state.entries[j]).id,
            ),
    ensures
        window.player.state is Playing ==> window.status() == UiAction::SetStatus("Playing"@),
        window.player.state is Paused ==> window.status() == UiAction::SetStatus("Paused"@),
        window.player.state is Stopped ==> window.status() == UiAction::SetStatus("Ready"@),
{
    if let Some(id) = window.state.playing_id {
        lemma_position(window.state.entries, id);
    }
}

/// Ending a turn shows what the turn asked for, in order, and then the status
/// line if it was to be brought up to date. Only the player can change.
pub proof fn law_turn_ends_with_the_status_line(window: WindowView, turn: TurnView, accepted: bool)
    ensures
        ({
            let after = window.finished(turn.attempt, accepted);
            let shown = window.finished_actions(turn, accepted);
            &&& after.state == window.state
            &&& after.commands == window.commands
            &&& after.listed == window.listed
            &&& after.player.available == window.player.available
            &&& turn.attempt is None || !accepted || !window.player.available ==> after.player
                == window.player
            &&& turn.attempt is Some && accepted && window.player.available
                ==> after.player.state == turn.attempt->0.target
            &&& !turn.refresh_status ==> shown == turn.actions
            &&& turn.refresh_status ==> {
                &&& shown.len() == turn.actions.len() + 1
                &&& shown.take(turn.actions.len() as int) == turn.actions
                &&& shown.last() == after.status()
            }
        }),
{
    let shown = window.finished_actions(turn, accepted);
    if turn.refresh_status {
        assert(shown.take(turn.actions.len() as int) =~= turn.actions);
    }
}

// ---------------------------------------------------------------------------
// The indicator
// ---------------------------------------------------------------------------

/// The indicator's commands do what the window's own controls do: playing an
/// entry is activating it, toggling is the play button, stopping is the stop
/// button. Opening only shows the window.
pub proof fn law_indicator_commands_are_the_controls(window: WindowView, id: i64)
    ensures
        window.tray_step(TrayCommand::Play(id)) == TrayStepView::Activate(id),
        window.after_tray_command(TrayCommand::Play(id)) == window,
        window.player.state is Playing ==> window.tray_step(TrayCommand::TogglePlayPause)
            == TrayStepView::Go(window.play_toggled_turn(false)),
        !(window.player.state is Playing) ==> window.tray_step(TrayCommand::TogglePlayPause)
            == TrayStepView::Go(window.play_toggled_turn(true)),
        window.after_tray_command(TrayCommand::TogglePlayPause) == window,
        window.tray_step(TrayCommand::Stop) == TrayStepView::Go(window.stopped_turn()),
        window.after_tray_command(TrayCommand::Stop) == window.stopped(),
        ({
            let step = window.tray_step(TrayCommand::Open);
            &&& step is Go
            &&& step->Go_0.attempt is None
            &&& !step->Go_0.refresh_status
            &&& step->Go_0.actions.len() == 1
            &&& step->Go_0.actions[0] == UiAction::<Seq<char>>::PresentWindow
        }),
        window.after_tray_command(TrayCommand::Open) == window,
        window.after_tray_command(TrayCommand::Quit) == window,
{
}

/// Quitting closes the stream before the application ends.
pub proof fn law_quitting_closes_the_stream(window: WindowView, pipeline: PipelineView)
    requires
        window.player.available,
    ensures
        ({
            let step = window.tray_step(TrayCommand::Quit);
            &&& step is Go
            &&& step->Go_0.attempt is Some
            &&& run(pipeline, step->Go_0.attempt).stream is None
            &&& step->Go_0.actions.len() == 1
            &&& step->Go_0.actions[0] == UiAction::<Seq<char>>::Quit
            &&& !step->Go_0.refresh_status
        }),
{
    lemma_after_one(pipeline, PipelineRequest::SetState(PipelineState::Ready));
}

/// The indicator mirrors what is loaded and how it plays.
pub proof fn law_indicator_mirrors_playback(window: WindowView)
    ensures
        window.tray_status().playing_id == window.state.playing_id,
        window.tray_status().playing <==> window.player.state is Playing,
        window.tray_status().paused <==> window.player.state is Paused,
        window.tray_status().entries.len() == window.state.entries.len(),
{
}

// ---------------------------------------------------------------------------
// What is left as it was
// ---------------------------------------------------------------------------

/// The list of entries changes only by events of the database worker.
pub proof fn law_entries_change_only_by_database_events(window: WindowView, step: WindowStep)
    requires
        window.after_step(step).state.entries != window.state.entries || window.after_step(
            step,
        ).listed != window.listed,
    ensures
        step is Database,
{
}

/// The chosen file changes only by choosing another one, and is forgotten only
/// once an entry has been stored.
pub proof fn law_chosen_file_is_kept(window: WindowView, step: WindowStep)
    requires
        window.after_step(step).state.pending != window.state.pending,
    ensures
        step is ChooseFile && step->ChooseFile_0 is Chosen && window.after_step(step).state.pending
            is Some || step is Database && step->Database_0 is Inserted && window.after_step(
            step,
        ).state.pending is None,
{
}

/// What is loaded changes only by playing another entry, or by removing it.
pub proof fn law_loaded_entry_is_kept(window: WindowView, step: WindowStep)
    requires
        window.after_step(step).state.playing_id != window.state.playing_id,
    ensures
        match step {
            WindowStep::Locate { entry, location } => location is Uri && window.after_step(
                step,
            ).state.playing_id == Some(entry.id),
            WindowStep::RemoveMissing { id } => window.state.playing_id == Some(id)
                && window.after_step(step).state.playing_id is None,
            WindowStep::Database(event) => event is Deleted && window.state.playing_id == Some(
                event->Deleted_0,
            ) && window.after_step(step).state.playing_id is None,
            _ => false,
        },
{
}

/// Once something is loaded the play button has a file to play, until the loaded
/// entry is removed from the library.
pub proof fn law_file_to_play_is_kept(window: WindowView, step: WindowStep)
    requires
        window.after_step(step).state.has_current_uri != window.state.has_current_uri,
    ensures
        match step {
            WindowStep::Locate { entry, location } => location is Uri && window.after_step(
                step,
            ).state.has_current_uri,
            WindowStep::Database(event) => event is Deleted && window.state.playing_id == Some(
                event->Deleted_0,
            ) && !window.after_step(step).state.has_current_uri,
            _ => false,
        },
{
}

/// Commands are queued behind those that wait, at most one at a time, and only by
/// setting up, saving, playing an entry and removing one.
pub proof fn law_commands_are_queued_by_gestures(window: WindowView, step: WindowStep)
    ensures
        window.after_step(step).commands == window.commands || {
            &&& window.after_step(step).commands.len() == window.commands.len() + 1
            &&& window.after_step(step).commands.drop_last() == window.commands
            &&& match step {
                WindowStep::SetUp => window.after_step(step).commands.last() is Load,
                WindowStep::Save { title } => window.after_step(step).commands.last() is Insert,
                WindowStep::Locate { entry, location } => window.after_step(step).commands.last()
                    == (CommandView::SetLastPlayed { id: Some(entry.id) }),
                WindowStep::RemoveMissing { id } => window.after_step(step).commands.last()
                    == (CommandView::Delete { id }),
                _ => false,
            }
        },
        step is SetUp ==> window.after_step(step).commands != window.commands,
        step is RemoveMissing ==> window.after_step(step).commands != window.commands,
{
    let after = window.after_step(step).commands;
    if after.len() == window.commands.len() + 1 {
        assert(after.drop_last() =~= window.commands);
    }
}

/// The playback state changes only by what the pipeline answers or reports.
pub proof fn law_playback_state_follows_the_pipeline(window: WindowView, step: WindowStep)
    requires
        window.after_step(step).player != window.player,
    ensures
        step is Bus || step is Finish,
{
}

/// Setting up asks for the library and changes nothing else.
pub proof fn law_setting_up_loads_the_library(window: WindowView)
    ensures
        window.set_up().commands == window.commands.push(CommandView::Load),
        window.set_up().state == window.state,
        window.set_up().player == window.player,
        window.set_up().listed == window.listed,
{
}

/// A new window has an empty library, nothing loaded, nothing chosen and nothing
/// queued.
pub proof fn law_new_window_is_empty(player: PlayerView)
    ensures
        ({
            let window = WindowView::created(player);
            &&& window.player == player
            &&& window.state.entries.len() == 0
            &&& window.listed.len() == 0
            &&& window.commands.len() == 0
            &&& window.state.pending is None
            &&& window.state.playing_id is None
            &&& !window.state.has_current_uri
            &&& window.state.last_duration == 0
            &&& window.state.last_interaction is None
        }),
{
}

/// A window without a player says why, and one with a player says nothing.
pub proof fn law_missing_player_is_explained(reason: Seq<char>)
    ensures
        WindowView::creation_actions(None).len() == 0,
        ({
            let shown = WindowView::creation_actions(Some(reason));
            let body = shown[0]->body;
            let before = body.len() - reason.len();
            &&& shown.len() == 1
            &&& shown[0] is ShowError
            &&& shown[0]->ShowError_title == "Playback unavailable"@
            &&& before >= 0
            &&& body.skip(before) == reason
            &&& body.take(before) == "GStreamer could not be initialized:\n"@
        }),
{
    let body = WindowView::creation_actions(Some(reason))[0]->body;
    let before = body.len() - reason.len();
    assert(body.skip(before) =~= reason);
    assert(body.take(before) =~= "GStreamer could not be initialized:\n"@);
}

/// Every row of the popover, and every entry of the indicator, can be activated:
/// what is activated is the first entry of the library with that id. An id that
/// the library does not hold activates nothing.
pub proof fn law_listed_entries_can_be_activated(window: WindowView, id: i64, k: int)
    ensures
        0 <= k < window.state.entries.len() && window.state.entries[k].id == id && (forall|j: int|
            0 <= j < k ==> (#[trigger] window.state.entries[j]).id != id) ==> window.activated(id)
            == Some(window.state.entries[k]),
        (forall|j: int|
            0 <= j < window.state.entries.len() ==> (#[trigger] window.state.entries[j]).id != id)
            ==> window.activated(id) is None,
{
    lemma_position(window.state.entries, id);
}

/// Closing only hides the window, whatever it is doing.
pub proof fn law_closing_only_hides(window: WindowView)
    ensures
        window.close_actions().len() == 1,
        window.close_actions()[0] == UiAction::<Seq<char>>::HideWindow,
{
}

/// Without a pipeline stopping and quitting ask nothing of it, and still show and
/// do the rest.
pub proof fn law_stopping_without_a_pipeline(window: WindowView, accepted: bool)
    requires
        window.player.wf(),
        !window.player.available,
    ensures
        ({
            let turn = window.stopped_turn();
            let shown = window.stopped().finished_actions(turn, accepted);
            &&& turn.attempt is None
            &&& shown.len() == 3
            &&& shown[0] == UiAction::<Seq<char>>::SetPosition(0)
            &&& shown[1] == UiAction::SetTime("0:00 / 0:00"@)
            &&& shown[2] == UiAction::SetStatus("Ready"@)
        }),
        ({
            let quit = window.tray_step(TrayCommand::Quit);
            &&& quit is Go
            &&& quit->Go_0.attempt is None
            &&& quit->Go_0.actions.len() == 1
            &&& quit->Go_0.actions[0] == UiAction::<Seq<char>>::Quit
        }),
{
    lemma_no_time();
}

} // verus!
