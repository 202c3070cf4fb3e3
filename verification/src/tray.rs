//! The top-bar indicator: its menu and the commands that the menu sends.
//!
//! Menu callbacks run away from the main loop, so they never touch the window.
//! They send a [`TrayCommand`], and the main loop pushes fresh state back in a
//! [`TrayStatus`].

use vstd::prelude::*;
use vstd::string::*;

use crate::text::join;

verus! {

/// Commands the indicator sends to the main loop.
#[derive(Debug, Clone, Copy, PartialEq, Eq, Structural)]
pub enum TrayCommand {
    /// Start/switch playback to the entry with this database id.
    Play(i64),
    /// Toggle between play and pause.
    TogglePlayPause,
    /// Stop playback and rewind.
    Stop,
    /// Show (or create) the main window.
    Open,
    /// Quit the application (stops playback, closes the database).
    Quit,
}

/// Playback state mirrored into the indicator menu.
#[derive(Debug)]
pub struct TrayStatus {
    /// Stored entries as `(id, title)`, in display order.
    pub entries: Vec<(i64, String)>,
    /// Database id of the entry that is loaded for playback, if any.
    pub playing_id: Option<i64>,
    /// Whether audio is currently playing.
    pub playing: bool,
    /// Whether playback is paused.
    pub paused: bool,
}

/// What a [`TrayStatus`] stands for.
pub struct TrayStatusView {
    pub entries: Seq<(i64, Seq<char>)>,
    pub playing_id: Option<i64>,
    pub playing: bool,
    pub paused: bool,
}

/// What a sequence of listed entries stands for.
pub open spec fn listed_views(entries: Seq<(i64, String)>) -> Seq<(i64, Seq<char>)> {
    entries.map_values(|entry: (i64, String)| (entry.0, entry.1@))
}

impl View for TrayStatus {
    type V = TrayStatusView;

    open spec fn view(&self) -> TrayStatusView {
        TrayStatusView {
            entries: listed_views(self.entries@),
            playing_id: self.playing_id,
            playing: self.playing,
            paused: self.paused,
        }
    }
}

impl TrayStatusView {
    /// An empty library with nothing loaded.
    pub open spec fn empty() -> TrayStatusView {
        TrayStatusView { entries: seq![], playing_id: None, playing: false, paused: false }
    }
}

impl Clone for TrayStatus {
    fn clone(&self) -> (r: Self)
        ensures
            r@ == self@,
    {
        let mut entries: Vec<(i64, String)> = Vec::new();
        let mut i: usize = 0;
        while i < self.entries.len()
            invariant
                i <= self.entries@.len(),
                listed_views(entries@) == listed_views(self.entries@).take(i as int),
            decreases self.entries@.len() - i,
        {
            let ghost copied = listed_views(entries@);
            entries.push((self.entries[i].0, self.entries[i].1.clone()));
            proof {
                let views = listed_views(self.entries@);
                assert(listed_views(entries@) =~= copied.push(views[i as int]));
                assert(views.take(i + 1) =~= views.take(i as int).push(views[i as int]));
            }
            i = i + 1;
        }
        assert(listed_views(entries@) =~= listed_views(self.entries@));
        TrayStatus {
            entries,
            playing_id: self.playing_id,
            playing: self.playing,
            paused: self.paused,
        }
    }
}

impl Default for TrayStatus {
    fn default() -> (r: Self)
        ensures
            r@ == TrayStatusView::empty(),
    {
        let r = TrayStatus {
            entries: Vec::new(),
            playing_id: None,
            playing: false,
            paused: false,
        };
        assert(r@.entries =~= seq![]);
        r
    }
}

/// One item of the indicator menu; `S` is the type of its texts.
#[derive(Debug, PartialEq, Eq)]
pub enum TrayItem<S> {
    /// A line between groups.
    Separator,
    /// An item with a label. `icon_name` is empty where it has no icon, and
    /// activating it sends `command`, if there is one.
    Standard { label: S, icon_name: S, enabled: bool, command: Option<TrayCommand> },
}

impl View for TrayItem<String> {
    type V = TrayItem<Seq<char>>;

    open spec fn view(&self) -> TrayItem<Seq<char>> {
        match self {
            TrayItem::Separator => TrayItem::Separator,
            TrayItem::Standard { label, icon_name, enabled, command } => TrayItem::Standard {
                label: label@,
                icon_name: icon_name@,
                enabled: *enabled,
                command: *command,
            },
        }
    }
}

/// What a sequence of menu items stands for.
pub open spec fn item_views(items: Seq<TrayItem<String>>) -> Seq<TrayItem<Seq<char>>> {
    items.map_values(|item: TrayItem<String>| item@)
}

/// The title of the first listed entry with this id, empty where there is none.
pub open spec fn listed_title(entries: Seq<(i64, Seq<char>)>, id: i64) -> Seq<char>
    decreases entries.len(),
{
    if entries.len() == 0 {
        seq![]
    } else if entries[0].0 == id {
        entries[0].1
    } else {
        listed_title(entries.drop_first(), id)
    }
}

impl TrayStatusView {
    /// The now-playing line.
    pub open spec fn header(self) -> Seq<char> {
        match self.playing_id {
            Some(id) => {
                let title = listed_title(self.entries, id);
                if self.playing {
                    "Playing: "@ + title
                } else if self.paused {
                    "Paused: "@ + title
                } else {
                    "Loaded: "@ + title
                }
            },
            None => "Nothing playing"@,
        }
    }

    /// The item that plays a listed entry; the one that is loaded is marked.
    pub open spec fn entry_item(self, entry: (i64, Seq<char>)) -> TrayItem<Seq<char>> {
        let now_playing = self.playing_id == Some(entry.0);
        TrayItem::Standard {
            label: if now_playing {
                "▶ "@ + entry.1
            } else {
                entry.1
            },
            icon_name: if now_playing {
                "media-playback-start-symbolic"@
            } else {
                seq![]
            },
            enabled: true,
            command: Some(TrayCommand::Play(entry.0)),
        }
    }

    /// The items of the library, or a note that it is empty.
    pub open spec fn library_items(self) -> Seq<TrayItem<Seq<char>>> {
        if self.entries.len() == 0 {
            seq![
                TrayItem::Standard {
                    label: "No saved audio"@,
                    icon_name: seq![],
                    enabled: false,
                    command: None,
                },
            ]
        } else {
            self.entries.map_values(|entry: (i64, Seq<char>)| self.entry_item(entry))
        }
    }

    /// The whole menu: the now-playing line, the library, the transport
    /// controls, and the items for the window and the application.
    pub open spec fn menu(self) -> Seq<TrayItem<Seq<char>>> {
        seq![
            TrayItem::Standard {
                label: self.header(),
                icon_name: seq![],
                enabled: false,
                command: None,
            },
            TrayItem::Separator,
        ] + self.library_items() + seq![
            TrayItem::Separator,
            TrayItem::Standard {
                label: if self.playing {
                    "Pause"@
                } else {
                    "Play"@
                },
                icon_name: if self.playing {
                    "media-playback-pause-symbolic"@
                } else {
                    "media-playback-start-symbolic"@
                },
                enabled: self.playing_id is Some,
                command: Some(TrayCommand::TogglePlayPause),
            },
            TrayItem::Standard {
                label: "Stop"@,
                icon_name: "media-playback-stop-symbolic"@,
                enabled: self.playing_id is Some,
                command: Some(TrayCommand::Stop),
            },
            TrayItem::Separator,
            TrayItem::Standard {
                label: "Open Audio Library"@,
                icon_name: "window-new-symbolic"@,
                enabled: true,
                command: Some(TrayCommand::Open),
            },
            TrayItem::Standard {
                label: "Quit"@,
                icon_name: "application-exit-symbolic"@,
                enabled: true,
                command: Some(TrayCommand::Quit),
            },
        ]
    }
}

/// The status notifier item shown in the top bar.
#[derive(Debug)]
pub struct LibraryTray {
    /// Library + playback state, kept current from the main loop.
    pub status: TrayStatus,
}

proof fn lemma_listed_title_skip(entries: Seq<(i64, Seq<char>)>, id: i64, k: int)
    requires
        0 <= k <= entries.len(),
        forall|i: int| 0 <= i < k ==> (#[trigger] entries[i]).0 != id,
    ensures
        listed_title(entries, id) == listed_title(entries.skip(k), id),
    decreases k,
{
    if k == 0 {
        assert(entries.skip(0) =~= entries);
    } else {
        lemma_listed_title_skip(entries, id, k - 1);
        let rest = entries.skip(k - 1);
        assert(rest[0] == entries[k - 1]);
        assert(rest.drop_first() =~= entries.skip(k));
    }
}

impl LibraryTray {
    /// Create the tray with an empty library.
    pub fn new() -> (r: Self)
        ensures
            r.status@ == TrayStatusView::empty(),
    {
        LibraryTray { status: TrayStatus::default() }
    }

    /// The identifier of the item.
    pub fn id(&self) -> (r: String)
        ensures
            r@ == "audio-library"@,
    {
        "audio-library".to_owned()
    }

    /// The title of the item.
    pub fn title(&self) -> (r: String)
        ensures
            r@ == "Audio Library"@,
    {
        "Audio Library".to_owned()
    }

    /// The icon of the item, present in the Adwaita icon theme.
    pub fn icon_name(&self) -> (r: String)
        ensures
            r@ == "multimedia-player-symbolic"@,
    {
        "multimedia-player-symbolic".to_owned()
    }

    /// A left click on the icon opens the main window.
    pub fn activate(&self) -> (r: TrayCommand)
        ensures
            r == TrayCommand::Open,
    {
        TrayCommand::Open
    }

    /// The title of the first listed entry with this id, empty where there is
    /// none.
    fn title_of(&self, id: i64) -> (r: String)
        ensures
            r@ == listed_title(self.status@.entries, id),
    {
        let ghost views = self.status@.entries;
        let mut i: usize = 0;
        while i < self.status.entries.len()
            invariant
                i <= self.status.entries@.len(),
                views == listed_views(self.status.entries@),
                forall|j: int| 0 <= j < i ==> (#[trigger] views[j]).0 != id,
            decreases self.status.entries@.len() - i,
        {
            assert(views[i as int].0 == self.status.entries@[i as int].0);
            if self.status.entries[i].0 == id {
                proof {
                    lemma_listed_title_skip(views, id, i as int);
                    assert(views.skip(i as int)[0] == views[i as int]);
                }
                return self.status.entries[i].1.clone();
            }
            i = i + 1;
        }
        proof {
            lemma_listed_title_skip(views, id, views.len() as int);
        }
        String::new()
    }

    /// The now-playing line.
    fn header(&self) -> (r: String)
        ensures
            r@ == self.status@.header(),
    {
        match self.status.playing_id {
            Some(id) => {
                let title = self.title_of(id);
                if self.status.playing {
                    join("Playing: ", title.as_str())
                } else if self.status.paused {
                    join("Paused: ", title.as_str())
                } else {
                    join("Loaded: ", title.as_str())
                }
            },
            None => "Nothing playing".to_owned(),
        }
    }

    /// The item that plays the listed entry at `i`.
    fn entry_item(&self, i: usize) -> (r: TrayItem<String>)
        requires
            i < self.status.entries@.len(),
        ensures
            r@ == self.status@.entry_item(self.status@.entries[i as int]),
    {
        let id: i64 = self.status.entries[i].0;
        let title: &String = &self.status.entries[i].1;
        let now_playing: bool = match self.status.playing_id {
            Some(playing) => playing == id,
            None => false,
        };
        let label: String = if now_playing {
            join("▶ ", title.as_str())
        } else {
            title.clone()
        };
        let icon_name: String = if now_playing {
            "media-playback-start-symbolic".to_owned()
        } else {
            String::new()
        };
        TrayItem::Standard { label, icon_name, enabled: true, command: Some(TrayCommand::Play(id)) }
    }

    /// Append the items of the library, or a note that it is empty.
    fn push_library(&self, items: &mut Vec<TrayItem<String>>)
        ensures
            item_views(final(items)@) == item_views(old(items)@) + self.status@.library_items(),
    {
        let ghost before = item_views(items@);
        let ghost status = self.status@;
        let n: usize = self.status.entries.len();
        if n == 0 {
            items.push(
                TrayItem::Standard {
                    label: "No saved audio".to_owned(),
                    icon_name: String::new(),
                    enabled: false,
                    command: None,
                },
            );
            assert(item_views(items@) =~= before + status.library_items());
        } else {
            let mut i: usize = 0;
            while i < n
                invariant
                    n == self.status.entries@.len(),
                    n > 0,
                    i <= n,
                    status == self.status@,
                    item_views(items@) == before + status.library_items().take(i as int),
                decreases n - i,
            {
                let ghost pushed = item_views(items@);
                let item = self.entry_item(i);
                items.push(item);
                proof {
                    let library = status.library_items();
                    assert(item@ == library[i as int]);
                    assert(item_views(items@) =~= pushed.push(item@));
                    assert(library.take(i + 1) =~= library.take(i as int).push(item@));
                }
                i = i + 1;
            }
            assert(status.library_items().take(n as int) =~= status.library_items());
        }
    }

    /// The menu for the current status.
    pub fn menu(&self) -> (r: Vec<TrayItem<String>>)
        ensures
            item_views(r@) == self.status@.menu(),
    {
        let ghost status = self.status@;
        let mut items: Vec<TrayItem<String>> = Vec::new();
        items.push(
            TrayItem::Standard {
                label: self.header(),
                icon_name: String::new(),
                enabled: false,
                command: None,
            },
        );
        items.push(TrayItem::Separator);
        let ghost top = item_views(items@);
        self.push_library(&mut items);
        let ghost listed = item_views(items@);
        items.push(TrayItem::Separator);
        items.push(
            TrayItem::Standard {
                label: if self.status.playing {
                    "Pause".to_owned()
                } else {
                    "Play".to_owned()
                },
                icon_name: if self.status.playing {
                    "media-playback-pause-symbolic".to_owned()
                } else {
                    "media-playback-start-symbolic".to_owned()
                },
                enabled: self.status.playing_id.is_some(),
                command: Some(TrayCommand::TogglePlayPause),
            },
        );
        items.push(
            TrayItem::Standard {
                label: "Stop".to_owned(),
                icon_name: "media-playback-stop-symbolic".to_owned(),
                enabled: self.status.playing_id.is_some(),
                command: Some(TrayCommand::Stop),
            },
        );
        items.push(TrayItem::Separator);
        items.push(
            TrayItem::Standard {
                label: "Open Audio Library".to_owned(),
                icon_name: "window-new-symbolic".to_owned(),
                enabled: true,
                command: Some(TrayCommand::Open),
            },
        );
        items.push(
            TrayItem::Standard {
                label: "Quit".to_owned(),
                icon_name: "application-exit-symbolic".to_owned(),
                enabled: true,
                command: Some(TrayCommand::Quit),
            },
        );
        proof {
            let bottom = status.menu().skip(2 + status.library_items().len() as int);
            assert(top =~= status.menu().take(2));
            assert(item_views(items@) =~= listed + bottom);
            assert(status.menu() =~= top + status.library_items() + bottom);
        }
        items
    }
}

/// The menu lists every saved title, in order, and activating an entry plays it.
pub proof fn law_menu_lists_every_entry(status: TrayStatusView, i: int)
    requires
        0 <= i < status.entries.len(),
    ensures
        status.menu().len() == status.entries.len() + 8,
        status.menu()[i + 2] == status.entry_item(status.entries[i]),
        status.menu()[i + 2]->command == Some(TrayCommand::Play(status.entries[i].0)),
{
}

/// The transport items can be used exactly while an entry is loaded, and the
/// items for the window and the application always can.
pub proof fn law_transport_needs_a_loaded_entry(status: TrayStatusView, i: int)
    requires
        0 <= i < status.menu().len(),
        status.menu()[i] is Standard,
    ensures
        status.menu()[i]->command == Some(TrayCommand::TogglePlayPause)
            || status.menu()[i]->command == Some(TrayCommand::Stop) ==> status.menu()[i]->enabled
            == status.playing_id is Some,
        status.menu()[i]->command == Some(TrayCommand::Open) || status.menu()[i]->command == Some(
            TrayCommand::Quit,
        ) ==> status.menu()[i]->enabled,
        status.menu()[i]->command is None ==> !status.menu()[i]->enabled,
{
}

/// The item of an entry shows its title and plays it; the one of the loaded entry
/// is marked.
pub proof fn law_entry_items_show_their_titles(status: TrayStatusView, i: int)
    requires
        0 <= i < status.entries.len(),
    ensures
        ({
            let item = status.menu()[i + 2];
            let (id, title) = status.entries[i];
            &&& item is Standard
            &&& item->enabled
            &&& item->command == Some(TrayCommand::Play(id))
            &&& status.playing_id == Some(id) ==> item->label == "▶ "@ + title && item->icon_name
                == "media-playback-start-symbolic"@
            &&& status.playing_id != Some(id) ==> item->label == title && item->icon_name.len() == 0
        }),
{
}

/// The first item tells what is loaded and how it plays. It cannot be used.
pub proof fn law_header_tells_what_is_loaded(status: TrayStatusView, k: int)
    ensures
        ({
            let header = status.menu()[0];
            &&& header is Standard
            &&& !header->enabled
            &&& header->command is None
            &&& header->icon_name.len() == 0
            &&& status.playing_id is None ==> header->label == "Nothing playing"@
            &&& status.playing_id is Some && 0 <= k < status.entries.len() && status.entries[k].0
                == status.playing_id->0 && (forall|j: int|
                0 <= j < k ==> (#[trigger] status.entries[j]).0 != status.playing_id->0) ==> {
                let title = status.entries[k].1;
                &&& status.playing ==> header->label == "Playing: "@ + title
                &&& !status.playing && status.paused ==> header->label == "Paused: "@ + title
                &&& !status.playing && !status.paused ==> header->label == "Loaded: "@ + title
            }
            &&& status.playing_id is Some && (forall|j: int|
                0 <= j < status.entries.len() ==> (#[trigger] status.entries[j]).0
                    != status.playing_id->0) ==> {
                &&& status.playing ==> header->label == "Playing: "@
                &&& !status.playing && status.paused ==> header->label == "Paused: "@
                &&& !status.playing && !status.paused ==> header->label == "Loaded: "@
            }
        }),
{
    let entries = status.entries;
    if let Some(id) = status.playing_id {
        if 0 <= k < entries.len() && entries[k].0 == id && (forall|j: int|
            0 <= j < k ==> (#[trigger] entries[j]).0 != id) {
            lemma_listed_title_skip(entries, id, k);
            assert(entries.skip(k)[0] == entries[k]);
        }
        if forall|j: int| 0 <= j < entries.len() ==> (#[trigger] entries[j]).0 != id {
            lemma_listed_title_skip(entries, id, entries.len() as int);
            assert("Playing: "@ + Seq::<char>::empty() =~= "Playing: "@);
            assert("Paused: "@ + Seq::<char>::empty() =~= "Paused: "@);
            assert("Loaded: "@ + Seq::<char>::empty() =~= "Loaded: "@);
        }
    }
}

/// Behind the library come the transport items and those for the window and the
/// application, always the same ones in the same order.
pub proof fn law_menu_ends_with_the_controls(status: TrayStatusView)
    ensures
        ({
            let menu = status.menu();
            let n = menu.len() as int;
            let toggle = menu[n - 5];
            let stop = menu[n - 4];
            let open = menu[n - 2];
            let quit = menu[n - 1];
            &&& n == 8 + if status.entries.len() == 0 {
                1
            } else {
                status.entries.len() as int
            }
            &&& menu[1] is Separator
            &&& menu[n - 6] is Separator
            &&& menu[n - 3] is Separator
            &&& toggle is Standard
            &&& toggle->command == Some(TrayCommand::TogglePlayPause)
            &&& toggle->enabled == status.playing_id is Some
            &&& status.playing ==> toggle->label == "Pause"@ && toggle->icon_name
                == "media-playback-pause-symbolic"@
            &&& !status.playing ==> toggle->label == "Play"@ && toggle->icon_name
                == "media-playback-start-symbolic"@
            &&& stop is Standard
            &&& stop->command == Some(TrayCommand::Stop)
            &&& stop->enabled == status.playing_id is Some
            &&& stop->label == "Stop"@
            &&& stop->icon_name == "media-playback-stop-symbolic"@
            &&& open is Standard
            &&& open->command == Some(TrayCommand::Open)
            &&& open->enabled
            &&& open->label == "Open Audio Library"@
            &&& open->icon_name == "window-new-symbolic"@
            &&& quit is Standard
            &&& quit->command == Some(TrayCommand::Quit)
            &&& quit->enabled
            &&& quit->label == "Quit"@
            &&& quit->icon_name == "application-exit-symbolic"@
        }),
        status.entries.len() == 0 ==> {
            let note = status.menu()[2];
            &&& note is Standard
            &&& !note->enabled
            &&& note->command is None
            &&& note->label == "No saved audio"@
            &&& note->icon_name.len() == 0
        },
{
}

} // verus!
