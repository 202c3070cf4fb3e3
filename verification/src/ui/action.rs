//! What the window is told to show.

use vstd::prelude::*;

verus! {

/// The two pages of the library popover.
#[derive(Debug, Clone, Copy, PartialEq, Eq, Structural)]
pub enum Page {
    /// The note that there are no entries.
    Empty,
    /// The list of entries.
    List,
}

/// One change to the widgets; `S` is the type of its texts.
#[derive(Debug, PartialEq, Eq)]
pub enum UiAction<S> {
    /// Close the library popover.
    Popdown,
    /// Remove all rows of the popover.
    ClearRows,
    /// Append a row with a title to the popover.
    AppendRow(S),
    /// Show a page of the popover.
    ShowPage(Page),
    /// Highlight the row at an index.
    SelectRow(usize),
    /// Highlight no row.
    UnselectRows,
    /// Set the text of the title field.
    SetTitleText(S),
    /// Set the text below the file row.
    SetFileSubtitle(S),
    /// Set or remove the tooltip of the file row.
    SetFileTooltip(Option<S>),
    /// Enable or disable the save button.
    SetSaveSensitive(bool),
    /// Set the status line.
    SetStatus(S),
    /// Set the time label.
    SetTime(S),
    /// Move the position slider to a second.
    SetPosition(u64),
    /// Let the position slider reach from 0 to a second.
    SetPositionRange(u64),
    /// Press or release the play button.
    SetPlayActive(bool),
    /// Set the icon of the play button.
    SetPlayIcon(S),
    /// Set the tooltip of the play button.
    SetPlayTooltip(S),
    /// Enable or disable the stop button.
    SetStopSensitive(bool),
    /// Show a toast.
    AddToast(S),
    /// Show an error dialog.
    ShowError { title: S, body: S },
    /// Offer to remove an entry whose file is missing.
    ShowMissingFile { id: i64, file_path: S },
    /// Show the window.
    PresentWindow,
    /// Hide the window.
    HideWindow,
    /// End the application.
    Quit,
}

impl View for UiAction<String> {
    type V = UiAction<Seq<char>>;

    open spec fn view(&self) -> UiAction<Seq<char>> {
        match self {
            UiAction::Popdown => UiAction::Popdown,
            UiAction::ClearRows => UiAction::ClearRows,
            UiAction::AppendRow(title) => UiAction::AppendRow(title@),
            UiAction::ShowPage(page) => UiAction::ShowPage(*page),
            UiAction::SelectRow(index) => UiAction::SelectRow(*index),
            UiAction::UnselectRows => UiAction::UnselectRows,
            UiAction::SetTitleText(text) => UiAction::SetTitleText(text@),
            UiAction::SetFileSubtitle(text) => UiAction::SetFileSubtitle(text@),
            UiAction::SetFileTooltip(text) => UiAction::SetFileTooltip(
                match text {
                    Some(text) => Some(text@),
                    None => None,
                },
            ),
            UiAction::SetSaveSensitive(sensitive) => UiAction::SetSaveSensitive(*sensitive),
            UiAction::SetStatus(text) => UiAction::SetStatus(text@),
            UiAction::SetTime(text) => UiAction::SetTime(text@),
            UiAction::SetPosition(second) => UiAction::SetPosition(*second),
            UiAction::SetPositionRange(second) => UiAction::SetPositionRange(*second),
            UiAction::SetPlayActive(active) => UiAction::SetPlayActive(*active),
            UiAction::SetPlayIcon(name) => UiAction::SetPlayIcon(name@),
            UiAction::SetPlayTooltip(text) => UiAction::SetPlayTooltip(text@),
            UiAction::SetStopSensitive(sensitive) => UiAction::SetStopSensitive(*sensitive),
            UiAction::AddToast(text) => UiAction::AddToast(text@),
            UiAction::ShowError { title, body } => UiAction::ShowError {
                title: title@,
                body: body@,
            },
            UiAction::ShowMissingFile { id, file_path } => UiAction::ShowMissingFile {
                id: *id,
                file_path: file_path@,
            },
            UiAction::PresentWindow => UiAction::PresentWindow,
            UiAction::HideWindow => UiAction::HideWindow,
            UiAction::Quit => UiAction::Quit,
        }
    }
}

/// Changes to the widgets, to be made in order.
#[derive(Debug, PartialEq, Eq)]
pub struct Actions {
    pub list: Vec<UiAction<String>>,
}

impl View for Actions {
    type V = Seq<UiAction<Seq<char>>>;

    open spec fn view(&self) -> Seq<UiAction<Seq<char>>> {
        self.list@.map_values(|action: UiAction<String>| action@)
    }
}

impl Actions {
    /// No change.
    pub fn new() -> (r: Self)
        ensures
            r@ == Seq::<UiAction<Seq<char>>>::empty(),
    {
        let r = Actions { list: Vec::new() };
        assert(r@ =~= Seq::<UiAction<Seq<char>>>::empty());
        r
    }

    /// Make `action` last.
    pub fn push(&mut self, action: UiAction<String>)
        ensures
            final(self)@ == old(self)@.push(action@),
    {
        self.list.push(action);
        assert(self@ =~= old(self)@.push(action@));
    }
}

} // verus!
