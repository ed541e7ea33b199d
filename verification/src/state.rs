//! The shared application state record and the value shapes it stores:
//! the focus, the three list panes, the source descriptors, the pagination
//! slots, the search buffer, the status line and the playback flag.
//!
//! The binary owns the lock and the wake primitive around a value of
//! [`State`]; every field here is plain data, and every mutation goes
//! through the verified handlers.

use crate::navigation::{advance_index, advance_index_spec, HeadTo};
use vstd::prelude::*;

verus! {

/// Number of entries in the fixed sidebar menu.
pub const SIDEBAR_LIST_COUNT: usize = 6;

/// Number of focus values the Tab/BackTab cycle walks through.
pub const FOCUS_CYCLE_LEN: usize = 5;

/// The pane that currently receives navigation and text-input keys.
///
/// `Shutdown` is the terminal value: it means the application is shutting
/// down, and every collaborator thread exits once it observes it.
#[derive(Clone, Copy, Debug, PartialEq, Eq, Structural)]
pub enum Window {
    Shutdown,
    Sidebar,
    Musicbar,
    Playlistbar,
    Artistbar,
    Searchbar,
    Helpbar,
}

impl Window {
    /// The focus one step forward in the fixed cycle
    /// sidebar -> musicbar -> playlistbar -> artistbar -> searchbar -> sidebar.
    /// `Helpbar` re-enters the cycle at the sidebar; `Shutdown` is absorbing.
    pub open spec fn next_spec(self) -> Window {
        match self {
            Window::Sidebar => Window::Musicbar,
            Window::Musicbar => Window::Playlistbar,
            Window::Playlistbar => Window::Artistbar,
            Window::Artistbar => Window::Searchbar,
            Window::Searchbar => Window::Sidebar,
            Window::Helpbar => Window::Sidebar,
            Window::Shutdown => Window::Shutdown,
        }
    }

    /// The focus one step backward in the fixed cycle.
    pub open spec fn prev_spec(self) -> Window {
        match self {
            Window::Sidebar => Window::Searchbar,
            Window::Musicbar => Window::Sidebar,
            Window::Playlistbar => Window::Musicbar,
            Window::Artistbar => Window::Playlistbar,
            Window::Searchbar => Window::Artistbar,
            Window::Helpbar => Window::Sidebar,
            Window::Shutdown => Window::Shutdown,
        }
    }

    /// Whether this focus value takes part in the Tab/BackTab cycle.
    pub open spec fn in_cycle(self) -> bool {
        !(self is Shutdown) && !(self is Helpbar)
    }

    pub fn next(self) -> (r: Window)
        ensures
            r == self.next_spec(),
    {
        match self {
            Window::Sidebar => Window::Musicbar,
            Window::Musicbar => Window::Playlistbar,
            Window::Playlistbar => Window::Artistbar,
            Window::Artistbar => Window::Searchbar,
            Window::Searchbar => Window::Sidebar,
            Window::Helpbar => Window::Sidebar,
            Window::Shutdown => Window::Shutdown,
        }
    }

    pub fn prev(self) -> (r: Window)
        ensures
            r == self.prev_spec(),
    {
        match self {
            Window::Sidebar => Window::Searchbar,
            Window::Musicbar => Window::Sidebar,
            Window::Playlistbar => Window::Musicbar,
            Window::Artistbar => Window::Playlistbar,
            Window::Searchbar => Window::Artistbar,
            Window::Helpbar => Window::Sidebar,
            Window::Shutdown => Window::Shutdown,
        }
    }
}

/// The focus reached after `k` forward steps.
pub open spec fn focus_next_many(w: Window, k: nat) -> Window
    decreases k,
{
    if k == 0 {
        w
    } else {
        focus_next_many(w, (k - 1) as nat).next_spec()
    }
}

/// Law: advancing the focus forward once per cycle member returns to the
/// start, for every focus value inside the cycle.
pub proof fn lemma_focus_cycle(w: Window)
    requires
        w.in_cycle(),
    ensures
        focus_next_many(w, FOCUS_CYCLE_LEN as nat) == w,
{
    reveal_with_fuel(focus_next_many, 6);
}

/// The logical menu entry a sidebar slot stands for.
#[derive(Clone, Copy, Debug, PartialEq, Eq, Structural)]
pub enum SidebarOption {
    Trending,
    YoutubeCommunity,
    Favourites,
    RecentlyPlayed,
    Search,
    /// The blank slot, and the fallback for any out-of-range index.
    Nothing,
}

/// Decoding of a sidebar slot index. Total: any index outside the known
/// slots falls back to `Nothing` instead of failing.
pub open spec fn sidebar_option_spec(index: int) -> SidebarOption {
    if index == 0 {
        SidebarOption::Trending
    } else if index == 1 {
        SidebarOption::YoutubeCommunity
    } else if index == 2 {
        SidebarOption::Favourites
    } else if index == 3 {
        SidebarOption::RecentlyPlayed
    } else if index == 4 {
        SidebarOption::Search
    } else {
        SidebarOption::Nothing
    }
}

/// Decode the selected sidebar slot into the menu entry it stands for.
pub fn sidebar_option(index: usize) -> (r: SidebarOption)
    ensures
        r == sidebar_option_spec(index as int),
{
    if index == 0 {
        SidebarOption::Trending
    } else if index == 1 {
        SidebarOption::YoutubeCommunity
    } else if index == 2 {
        SidebarOption::Favourites
    } else if index == 3 {
        SidebarOption::RecentlyPlayed
    } else if index == 4 {
        SidebarOption::Search
    } else {
        SidebarOption::Nothing
    }
}

/// One entry of the music list: a playable item.
#[derive(Clone, Debug, PartialEq, Eq)]
pub struct MusicUnit {
    pub id: String,
    pub name: String,
}

/// One entry of the playlist list.
#[derive(Clone, Debug, PartialEq, Eq)]
pub struct PlaylistUnit {
    pub id: String,
    pub name: String,
}

/// One entry of the artist list.
#[derive(Clone, Debug, PartialEq, Eq)]
pub struct ArtistUnit {
    pub id: String,
    pub name: String,
    pub video_count: String,
}

/// A list pane: an ordered sequence of items and an optional selection.
///
/// Invariant: a selection, when present, indexes into the items. In
/// particular an empty pane never carries a selection.
#[derive(Debug)]
pub struct Pane<T> {
    pub items: Vec<T>,
    pub selected: Option<usize>,
}

impl<T> Pane<T> {
    pub open spec fn wf(self) -> bool {
        self.selected matches Some(i) ==> i < self.items.len()
    }

    /// How `advance_selection` relates the pane before and after one step:
    /// the items stay, and the selection moves circularly; an unset
    /// selection lands on the first item, except that an empty pane keeps
    /// its selection unset.
    pub open spec fn advanced_selection(pre: Pane<T>, post: Pane<T>, direction: HeadTo) -> bool {
        &&& post.items == pre.items
        &&& post.selected == (match pre.selected {
            Option::None => if pre.items.len() == 0 {
                Option::<usize>::None
            } else {
                Option::Some(0usize)
            },
            Option::Some(c) => Option::Some(
                advance_index_spec(c as int, pre.items.len() as int, direction) as usize,
            ),
        })
    }

    /// An empty pane with no selection.
    pub fn new() -> (p: Pane<T>)
        ensures
            p.items@ == Seq::<T>::empty(),
            p.selected is None,
            p.wf(),
    {
        Pane { items: Vec::new(), selected: Option::None }
    }

    /// Move the selection one step in `direction`, wrapping around.
    /// On an empty pane the selection stays unset.
    pub fn advance_selection(&mut self, direction: HeadTo)
        requires
            old(self).wf(),
        ensures
            final(self).wf(),
            Self::advanced_selection(*old(self), *final(self), direction),
            old(self).items.len() == 0 ==> final(self).selected is None,
    {
        let limit = self.items.len();
        match self.selected {
            Option::None => {
                if limit > 0 {
                    self.selected = Option::Some(0);
                }
            },
            Option::Some(current) => {
                self.selected = Option::Some(advance_index(current, limit, direction));
            },
        }
    }
}

/// What content the musicbar should be loaded with.
#[derive(Clone, Debug, PartialEq, Eq)]
pub enum MusicbarSource {
    Trending,
    Search(String),
    Playlist(String),
    Artist(String),
    Unset,
}

/// What content the playlistbar should be loaded with.
#[derive(Clone, Debug, PartialEq, Eq)]
pub enum PlaylistbarSource {
    Search(String),
    Artist(String),
    Unset,
}

/// What content the artistbar should be loaded with.
#[derive(Clone, Debug, PartialEq, Eq)]
pub enum ArtistbarSource {
    Search(String),
    Unset,
}

/// The three source descriptors, one per middle pane.
#[derive(Clone, Debug, PartialEq, Eq)]
pub struct Sources {
    pub music: MusicbarSource,
    pub playlist: PlaylistbarSource,
    pub artist: ArtistbarSource,
}

/// The three pagination slots, one per middle pane. `None` means no page
/// was requested yet.
#[derive(Clone, Copy, Debug, PartialEq, Eq, Structural)]
pub struct Pages {
    pub music: Option<usize>,
    pub playlist: Option<usize>,
    pub artist: Option<usize>,
}

/// The search buffer: the draft edited character by character while the
/// searchbar has focus, and the query last committed by submitting.
#[derive(Clone, Debug, PartialEq, Eq)]
pub struct SearchBuf {
    pub draft: String,
    pub committed: String,
}

/// The single shared application state record.
#[derive(Debug)]
pub struct State {
    /// Which pane currently receives input.
    pub active: Window,
    /// Selected slot of the fixed sidebar menu.
    pub sidebar: usize,
    pub musicbar: Pane<MusicUnit>,
    pub playlistbar: Pane<PlaylistUnit>,
    pub artistbar: Pane<ArtistUnit>,
    /// Source descriptors: what each middle pane should be filled with.
    pub filled_source: Sources,
    /// Pages requested so far, one slot per middle pane.
    pub fetched_page: Pages,
    pub search: SearchBuf,
    /// Status line shown to the user, reflecting the most recent intent.
    pub help: &'static str,
    /// Pause/resume flag of the playback collaborator.
    pub paused: bool,
}

impl State {
    /// Well-formedness: the sidebar selection indexes the fixed menu, and
    /// each list pane satisfies its selection invariant.
    pub open spec fn wf(self) -> bool {
        &&& self.sidebar < SIDEBAR_LIST_COUNT
        &&& self.musicbar.wf()
        &&& self.playlistbar.wf()
        &&& self.artistbar.wf()
    }

    /// Every requested page number leaves room for one forward step.
    pub open spec fn pages_have_headroom(self) -> bool {
        &&& (self.fetched_page.music matches Some(p) ==> p < usize::MAX)
        &&& (self.fetched_page.playlist matches Some(p) ==> p < usize::MAX)
        &&& (self.fetched_page.artist matches Some(p) ==> p < usize::MAX)
    }

    /// The state the application starts in: sidebar focused on its first
    /// slot, every pane empty, nothing requested, search empty, not paused.
    pub fn new() -> (s: State)
        ensures
            s.wf(),
            s.pages_have_headroom(),
            s.active == Window::Sidebar,
            s.sidebar == 0,
            s.musicbar.items@ == Seq::<MusicUnit>::empty(),
            s.musicbar.selected is None,
            s.playlistbar.items@ == Seq::<PlaylistUnit>::empty(),
            s.playlistbar.selected is None,
            s.artistbar.items@ == Seq::<ArtistUnit>::empty(),
            s.artistbar.selected is None,
            s.filled_source.music is Unset,
            s.filled_source.playlist is Unset,
            s.filled_source.artist is Unset,
            s.fetched_page.music is None,
            s.fetched_page.playlist is None,
            s.fetched_page.artist is None,
            s.search.draft@ == Seq::<char>::empty(),
            s.search.committed@ == Seq::<char>::empty(),
            s.help@ == ""@,
            s.paused == false,
    {
        State {
            active: Window::Sidebar,
            sidebar: 0,
            musicbar: Pane::new(),
            playlistbar: Pane::new(),
            artistbar: Pane::new(),
            filled_source: Sources {
                music: MusicbarSource::Unset,
                playlist: PlaylistbarSource::Unset,
                artist: ArtistbarSource::Unset,
            },
            fetched_page: Pages { music: Option::None, playlist: Option::None, artist: Option::None },
            search: SearchBuf { draft: String::new(), committed: String::new() },
            help: "",
            paused: false,
        }
    }
}

} // verus!
