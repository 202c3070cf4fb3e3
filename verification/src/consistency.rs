//! What holds of the window together with the database, the player and the
//! indicator.

use vstd::prelude::*;

use crate::database::{remembered, CommandView, EventView};
use crate::decimal::{digits, time_text};
use crate::models::{entry_with_id, lemma_position, without, EntryView};
use crate::player::{AttemptView, BusMessageView, PlayerEventView, PlayerView};
use crate::tables::{
    is_listing, law_deleting_removes_the_entry_and_clears_the_selection,
    law_last_played_is_remembered_across_loads, law_listing_without_an_entry,
    law_newest_entry_is_listed_first, lemma_run_command, new_entry, newer, run_command, text_less, StoreView,
    TablesView,
};
use crate::text::{law_trimmed_empty_iff_blank, law_trimming_twice_is_trimming_once, trimmed};
use crate::tray::{listed_title, TrayCommand};
use crate::ui::action::UiAction;
use crate::ui::popover::{row_id, selection, shown};
use crate::window::{
    initial_actions, FileChoice, LocationView, TurnView, WindowView, DRAG_GRACE_NS,
};

verus! {

/// One thing that can happen to a window.
pub enum WindowStep {
    SetUp,
    ChooseFile(FileChoice),
    Save { title: Seq<char> },
    Locate { entry: EntryView, location: LocationView },
    RemoveMissing { id: i64 },
    Stop,
    Seek { now: u128 },
    Database(EventView),
    Bus(BusMessageView),
    Player(PlayerEventView),
    Refresh { duration: Option<u64> },
    Tray(TrayCommand),
    Finish { attempt: Option<AttemptView>, accepted: bool },
}

impl WindowView {
    /// The window after one step.
    pub open spec fn after_step(self, step: WindowStep) -> WindowView {
        match step {
            WindowStep::SetUp => self.set_up(),
            WindowStep::ChooseFile(choice) => self.file_chosen(choice),
            WindowStep::Save { title } => self.saved(title),
            WindowStep::Locate { entry, location } => self.located(entry, location),
            WindowStep::RemoveMissing { id } => self.missing_removed(id),
            WindowStep::Stop => self.stopped(),
            WindowStep::Seek { now } => self.sought(now),
            WindowStep::Database(event) => self.after_event(event),
            WindowStep::Bus(message) => WindowView {
                player: self.player.after_message(message),
                ..self
            },
            WindowStep::Player(event) => self.after_player_event(event),
            WindowStep::Refresh { duration } => self.refreshed(duration),
            WindowStep::Tray(command) => self.after_tray_command(command),
            WindowStep::Finish { attempt, accepted } => self.finished(attempt, accepted),
        }
    }

    /// The window after `steps`, in order.
    pub open spec fn after_steps(self, steps: Seq<WindowStep>) -> WindowView
        decreases steps.len(),
    {
        if steps.len() == 0 {
            self
        } else {
            self.after_step(steps[0]).after_steps(steps.drop_first())
        }
    }
}

/// Whatever happens, the popover shows the entries that the window knows, and a
/// player without a pipeline stays stopped.
pub proof fn law_window_stays_well_formed(player: PlayerView, steps: Seq<WindowStep>)
    requires
        player.wf(),
    ensures
        WindowView::created(player).wf(),
        WindowView::created(player).after_steps(steps).wf(),
        WindowView::created(player).after_steps(steps).player.wf(),
        WindowView::created(player).after_steps(steps).player.available == player.available,
{
    lemma_steps(WindowView::created(player), steps);
}

proof fn lemma_steps(window: WindowView, steps: Seq<WindowStep>)
    requires
        window.wf(),
        window.player.wf(),
    ensures
        window.after_steps(steps).wf(),
        window.after_steps(steps).player.wf(),
        window.after_steps(steps).player.available == window.player.available,
    decreases steps.len(),
{
    if steps.len() > 0 {
        lemma_steps(window.after_step(steps[0]), steps.drop_first());
    }
}

/// What freshly built widgets show is what a window that has just been created
/// would show of itself.
pub proof fn law_initial_display_is_that_of_a_new_window(player: PlayerView, title: Seq<char>)
    requires
        player.state is Stopped,
    ensures
        initial_actions().contains(WindowView::created(player).save_enabled(title)),
        initial_actions().contains(WindowView::created(player).status()),
        initial_actions().contains(
            UiAction::SetTime(WindowView::created(player).state.start_time()),
        ),
        initial_actions().contains(UiAction::SetStopSensitive(!(player.state is Stopped))),
        initial_actions().contains(
            UiAction::SetPositionRange(WindowView::created(player).state.last_duration),
        ),
{
    let window = WindowView::created(player);
    reveal_strlit("0:00 / 0:00");
    reveal_strlit("0:00 / ");
    reveal_strlit(":");
    reveal_with_fuel(digits, 2);
    assert(time_text(0) =~= seq!['0', ':', '0', '0']);
    assert("0:00 / 0:00"@ =~= window.state.start_time());
    assert(initial_actions()[1] == window.save_enabled(title));
    assert(initial_actions()[2] == window.status());
    assert(initial_actions()[3] == UiAction::<Seq<char>>::SetPositionRange(
        window.state.last_duration,
    ));
    assert(initial_actions()[5] == UiAction::SetTime(window.state.start_time()));
    assert(initial_actions()[8] == UiAction::<Seq<char>>::SetStopSensitive(false));
}

/// The list in the window is the listing of what is stored, and stays so: each
/// command, once its event has arrived, changes both in the same way. An entry
/// that is added goes to the front, which is where the store lists it as long
/// as the clock has not gone back by a day.
pub proof fn law_window_follows_the_database(
    window: WindowView,
    command: CommandView,
    tables: TablesView,
    store: StoreView,
)
    requires
        tables.wf(),
        is_listing(tables.rows, store.list),
        is_listing(tables.rows, window.state.entries),
        command is Insert ==> forall|i: int|
            0 <= i < tables.rows.len() ==> {
                ||| text_less((#[trigger] tables.rows[i]).created_at, store.today)
                ||| tables.rows[i].created_at == store.today
            },
    ensures
        ({
            let (after, event) = run_command(command, tables, store);
            let entries = match event {
                Some(event) => window.after_event(event).state.entries,
                None => window.state.entries,
            };
            is_listing(after.rows, entries)
        }),
{
    lemma_run_command(command, tables, store);
    match command {
        CommandView::Insert { title, file_path } => {
            if store.has_id(tables) {
                let entry = new_entry(title, file_path, store);
                assert forall|i: int| 0 <= i < tables.rows.len() implies newer(
                    entry,
                    #[trigger] tables.rows[i],
                ) by {
                    assert(tables.rows[i].id <= tables.last_id);
                }
                law_newest_entry_is_listed_first(tables.rows, window.state.entries, entry);
            }
        },
        CommandView::Delete { id } => {
            law_listing_without_an_entry(tables.rows, window.state.entries, id);
        },
        _ => {},
    }
}

/// The entry that was remembered is highlighted when the app is launched again
/// and has loaded its library.
pub proof fn law_selection_is_restored_on_the_next_launch(
    id: i64,
    tables: TablesView,
    store: StoreView,
    later: StoreView,
    player: PlayerView,
)
    ensures
        ({
            let (after, _) = run_command(
                CommandView::SetLastPlayed { id: Some(id) },
                tables,
                store,
            );
            let (_, event) = run_command(CommandView::Load, after, later);
            let turn = WindowView::created(player).event_turn(event->0);
            &&& event is Some
            &&& turn.actions == shown(later.list, Some(id))
            &&& turn.actions.last() == selection(later.list, Some(id))
        }),
{
    law_last_played_is_remembered_across_loads(Some(id), tables, store, later);
}

/// The save button is enabled exactly when saving does something: it stores an
/// entry, or it says why it cannot.
pub proof fn law_save_button_is_enabled_exactly_when_saving_acts(
    window: WindowView,
    title: Seq<char>,
)
    ensures
        window.save_enabled(title) == UiAction::<Seq<char>>::SetSaveSensitive(true) <==> {
            ||| window.saved(title).commands.len() > window.commands.len()
            ||| window.saved_actions(title).len() > 0
        },
        window.save_enabled(title) == UiAction::<Seq<char>>::SetSaveSensitive(false) ==> {
            &&& window.saved(title) == window
            &&& window.saved_actions(title).len() == 0
        },
{
}

/// A stored title is never blank and has no white space around it.
pub proof fn law_saved_title_is_trimmed(window: WindowView, title: Seq<char>)
    requires
        window.saved(title).commands.len() > window.commands.len(),
    ensures
        window.saved(title).commands.last() == (CommandView::Insert {
            title: trimmed(title),
            file_path: window.state.pending->0.path->0,
        }),
        trimmed(title).len() > 0,
        trimmed(trimmed(title)) == trimmed(title),
{
    law_trimmed_empty_iff_blank(title);
    law_trimming_twice_is_trimming_once(title);
}

/// Saving stores the chosen file under the trimmed title, and once the worker
/// has answered that entry is the first of the library.
pub proof fn law_saved_file_becomes_the_first_entry(
    window: WindowView,
    title: Seq<char>,
    tables: TablesView,
    store: StoreView,
)
    requires
        window.state.can_save(title),
        window.state.pending->0.path is Some,
        store.has_id(tables),
    ensures
        ({
            let saved = window.saved(title);
            let (after, event) = run_command(saved.commands.last(), tables, store);
            let first = saved.after_event(event->0).state.entries[0];
            &&& event is Some
            &&& first.title == trimmed(title)
            &&& first.file_path == window.state.pending->0.path->0
            &&& after.rows == tables.rows.push(first)
        }),
{
    lemma_run_command(window.saved(title).commands.last(), tables, store);
}

/// An entry that is played is the one that is highlighted on the next launch.
pub proof fn law_played_entry_is_highlighted_on_the_next_launch(
    window: WindowView,
    entry: EntryView,
    uri: Seq<char>,
    tables: TablesView,
    store: StoreView,
    later: StoreView,
    player: PlayerView,
)
    ensures
        ({
            let located = window.located(entry, LocationView::Uri(uri));
            let (after, _) = run_command(located.commands.last(), tables, store);
            let (_, event) = run_command(CommandView::Load, after, later);
            &&& event is Some
            &&& WindowView::created(player).event_turn(event->0).actions == shown(
                later.list,
                Some(entry.id),
            )
        }),
{
    law_selection_is_restored_on_the_next_launch(entry.id, tables, store, later, player);
}

/// Removing an entry whose file is missing takes it out of the stored entries
/// and, once the worker has answered, out of the library and the popover.
pub proof fn law_missing_entry_is_removed(
    window: WindowView,
    id: i64,
    tables: TablesView,
    store: StoreView,
)
    requires
        tables.wf(),
    ensures
        ({
            let removed = window.missing_removed(id);
            let (after, event) = run_command(removed.commands.last(), tables, store);
            let shown_after = removed.after_event(event->0);
            &&& event == Some(EventView::Deleted(id))
            &&& forall|entry: EntryView| after.rows.contains(entry) ==> entry.id != id
            &&& entry_with_id(shown_after.state.entries, id) is None
            &&& shown_after.listed == shown_after.state.entries
            &&& shown_after.state.playing_id != Some(id)
            &&& remembered(after.selection) != Some(id)
        }),
{
    let removed = window.missing_removed(id);
    lemma_run_command(removed.commands.last(), tables, store);
    law_deleting_removes_the_entry_and_clears_the_selection(id, tables, store);
    let entries = without(window.state.entries, id);
    lemma_position(entries, id);
    assert forall|i: int| 0 <= i < entries.len() implies (#[trigger] entries[i]).id != id by {
        window.state.entries.lemma_filter_pred(|entry: EntryView| entry.id != id, i);
    }
}

/// Once an entry has been stored the form is empty again: the file is forgotten
/// and there is nothing to save.
pub proof fn law_form_is_empty_after_saving(window: WindowView, entry: EntryView, title: Seq<char>)
    ensures
        ({
            let after = window.after_event(EventView::Inserted(entry));
            &&& after.state.pending is None
            &&& !after.state.can_save(title)
            &&& after.state.entries[0] == entry
            &&& window.event_turn(EventView::Inserted(entry)).actions.contains(
                UiAction::SetTitleText(seq![]),
            )
            &&& window.event_turn(EventView::Inserted(entry)).actions.last()
                == UiAction::<Seq<char>>::SetSaveSensitive(false)
        }),
{
    let actions = window.event_turn(EventView::Inserted(entry)).actions;
    assert(actions[actions.len() - 4] == UiAction::SetTitleText(Seq::<char>::empty()));
}

/// Every row of the popover belongs to an entry that can be activated.
pub proof fn law_every_row_can_be_activated(window: WindowView, index: int)
    requires
        window.wf(),
        0 <= index < window.listed.len(),
    ensures
        row_id(window.listed, index) is Some,
        entry_with_id(window.state.entries, row_id(window.listed, index)->0) is Some,
        entry_with_id(window.state.entries, row_id(window.listed, index)->0)->0.id == row_id(
            window.listed,
            index,
        )->0,
{
    let id = window.listed[index].id;
    lemma_position(window.state.entries, id);
    assert(window.state.entries[index].id == id);
}

/// Playing an entry of the library loads it, remembers it, highlights its row
/// and, once the pipeline plays, announces its title.
pub proof fn law_played_entry_is_announced(
    window: WindowView,
    id: i64,
    entry: EntryView,
    uri: Seq<char>,
)
    requires
        window.player.available,
        entry_with_id(window.state.entries, id) == Some(entry),
    ensures
        ({
            let location = LocationView::Uri(uri);
            let turn = window.located_turn(entry, location);
            let located = window.located(entry, location);
            &&& entry.id == id
            &&& located.state.playing_id == Some(id)
            &&& located.state.has_current_uri
            &&& located.commands.last() == (CommandView::SetLastPlayed { id: Some(id) })
            &&& located.finished(turn.attempt, true).player.state is Playing
            &&& located.finished_actions(turn, true) == seq![
                selection(window.listed, Some(id)),
                UiAction::SetStatus("Playing: "@ + entry.title),
            ]
        }),
{
    lemma_position(window.state.entries, id);
    let location = LocationView::Uri(uri);
    let turn = window.located_turn(entry, location);
    let located = window.located(entry, location);
    assert(located.state.playing_title() == Some(entry.title));
    assert(located.finished_actions(turn, true) =~= seq![
        selection(window.listed, Some(id)),
        UiAction::SetStatus("Playing: "@ + entry.title),
    ]);
}

/// An entry whose file is missing, or has no URI, leaves playback alone.
pub proof fn law_unplayable_entry_leaves_playback_alone(
    window: WindowView,
    entry: EntryView,
    location: LocationView,
    accepted: bool,
)
    requires
        !(location is Uri),
    ensures
        window.located(entry, location) == window,
        window.finished(window.located_turn(entry, location).attempt, accepted) == window,
{
}

/// Removing the entry that is loaded stops playback and leaves nothing loaded.
/// Choosing to remove it because its file is missing stops playback at once.
pub proof fn law_removing_the_loaded_entry_stops_playback(window: WindowView, id: i64)
    requires
        window.player.wf(),
        window.state.playing_id == Some(id),
    ensures
        ({
            let chosen = window.missing_removed(id).finished(
                window.missing_removed_turn(id).attempt,
                true,
            );
            &&& chosen.player.state is Stopped
            &&& chosen.state.playing_id is None
        }),
        ({
            let event = EventView::Deleted(id);
            let turn = window.event_turn(event);
            let after = window.after_event(event).finished(turn.attempt, true);
            &&& after.player.state is Stopped
            &&& after.state.playing_id is None
            &&& !after.state.has_current_uri
            &&& window.after_event(event).finished_actions(turn, true).last()
                == UiAction::SetStatus("Ready"@)
        }),
{
}

/// Removing another entry leaves what is loaded, and how it plays, as it is.
pub proof fn law_removing_another_entry_leaves_playback_alone(
    window: WindowView,
    id: i64,
    accepted: bool,
)
    requires
        window.state.playing_id != Some(id),
    ensures
        ({
            let event = EventView::Deleted(id);
            let after = window.after_event(event).finished(
                window.event_turn(event).attempt,
                accepted,
            );
            &&& after.player == window.player
            &&& after.state.playing_id == window.state.playing_id
            &&& after.state.has_current_uri == window.state.has_current_uri
        }),
{
}

/// The play button as the periodic refresh sets it is no gesture: the handler of
/// the button ignores it.
pub proof fn law_refresh_is_no_gesture(
    window: WindowView,
    position: Option<u64>,
    duration: Option<u64>,
    now: u128,
    i: int,
)
    requires
        0 <= i < window.refresh_actions(position, duration, now).len(),
        window.refresh_actions(position, duration, now)[i] is SetPlayActive,
    ensures
        window.play_toggled_turn(
            window.refresh_actions(position, duration, now)[i]->SetPlayActive_0,
        ) == TurnView::show(seq![]),
{
}

/// The position slider does not move from under a user who touched it less than
/// the grace period ago.
pub proof fn law_dragged_slider_is_left_alone(
    window: WindowView,
    position: Option<u64>,
    duration: Option<u64>,
    then: u128,
    now: u128,
    i: int,
)
    requires
        now < then + DRAG_GRACE_NS,
        0 <= i < window.sought(then).refresh_actions(position, duration, now).len(),
    ensures
        !(window.sought(then).refresh_actions(position, duration, now)[i] is SetPosition),
{
}

proof fn lemma_listed_title(entries: Seq<EntryView>, id: i64)
    ensures
        listed_title(entries.map_values(|entry: EntryView| (entry.id, entry.title)), id)
            == match entry_with_id(entries, id) {
            Some(entry) => entry.title,
            None => seq![],
        },
    decreases entries.len(),
{
    let listed = entries.map_values(|entry: EntryView| (entry.id, entry.title));
    if entries.len() > 0 && entries[0].id != id {
        let rest = entries.drop_first();
        lemma_listed_title(rest, id);
        lemma_position(rest, id);
        assert(listed.drop_first() =~= rest.map_values(
            |entry: EntryView| (entry.id, entry.title),
        ));
    }
}

/// While an entry of the library plays or is paused, the now-playing line of the
/// indicator is the status line of the window.
pub proof fn law_indicator_agrees_with_the_status_line(window: WindowView)
    requires
        window.state.playing_title() is Some,
        !(window.player.state is Stopped),
    ensures
        UiAction::SetStatus(window.tray_status().header()) == window.status(),
{
    lemma_listed_title(window.state.entries, window.state.playing_id->0);
}

/// The indicator lists the entries of the window, in their order.
pub proof fn law_indicator_lists_the_library(window: WindowView, i: int)
    requires
        0 <= i < window.state.entries.len(),
    ensures
        window.tray_status().entries.len() == window.state.entries.len(),
        window.tray_status().entries[i] == (
            window.state.entries[i].id,
            window.state.entries[i].title,
        ),
{
}

/// Quitting from the indicator stops playback and ends the application.
pub proof fn law_quitting_stops_playback(window: WindowView)
    requires
        window.player.wf(),
    ensures
        ({
            let step = window.tray_step(TrayCommand::Quit);
            let turn = step->Go_0;
            let after = window.after_tray_command(TrayCommand::Quit);
            &&& step is Go
            &&& after.finished(turn.attempt, true).player.state is Stopped
            &&& after.finished_actions(turn, true) == seq![UiAction::<Seq<char>>::Quit]
        }),
{
}

} // verus!
