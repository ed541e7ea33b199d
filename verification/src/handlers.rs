//! One verified handler per semantic action. Each handler mutates the
//! shared state record; which collaborators must be woken afterwards is
//! reported by the dispatcher (`crate::dispatch`), which routes events here.
//!
//! For every handler a relation spec function states exactly how the state
//! after the call follows from the state before it; the handler's `ensures`
//! is that relation, and the dispatcher's contract is assembled from them.

use crate::navigation::{advance_index, advance_index_spec, get_page, get_page_spec, HeadTo};
use crate::state::{
    ArtistUnit, ArtistbarSource, MusicbarSource, Pages, Pane, PlaylistbarSource, Sources, State,
    Window, SIDEBAR_LIST_COUNT,
};
use crate::strutil::{pop_char, push_char, trim_of, trimmed};
use vstd::prelude::*;

verus! {

/// The sidebar selection and the three list panes are unchanged.
pub open spec fn same_lists(pre: State, post: State) -> bool {
    &&& post.sidebar == pre.sidebar
    &&& post.musicbar == pre.musicbar
    &&& post.playlistbar == pre.playlistbar
    &&& post.artistbar == pre.artistbar
}

/// The fetch plan — source descriptors, pagination, status line — is
/// unchanged.
pub open spec fn same_fetch_plan(pre: State, post: State) -> bool {
    &&& post.filled_source == pre.filled_source
    &&& post.fetched_page == pre.fetched_page
    &&& post.help@ == pre.help@
}

/// Everything but the focus is unchanged.
pub open spec fn frame_except_focus(pre: State, post: State) -> bool {
    &&& same_lists(pre, post)
    &&& same_fetch_plan(pre, post)
    &&& post.search == pre.search
    &&& post.paused == pre.paused
}

/// Everything but the list panes is unchanged.
pub open spec fn frame_except_lists(pre: State, post: State) -> bool {
    &&& post.active == pre.active
    &&& same_fetch_plan(pre, post)
    &&& post.search == pre.search
    &&& post.paused == pre.paused
}

/// Everything but the fetch plan is unchanged.
pub open spec fn frame_except_fetch_plan(pre: State, post: State) -> bool {
    &&& post.active == pre.active
    &&& same_lists(pre, post)
    &&& post.search == pre.search
    &&& post.paused == pre.paused
}

/// The focus moved one step forward in the cycle; nothing else changed.
pub open spec fn focus_next_rel(pre: State, post: State) -> bool {
    &&& post.active == pre.active.next_spec()
    &&& frame_except_focus(pre, post)
}

/// The focus moved one step backward in the cycle; nothing else changed.
pub open spec fn focus_prev_rel(pre: State, post: State) -> bool {
    &&& post.active == pre.active.prev_spec()
    &&& frame_except_focus(pre, post)
}

/// The focus reached the terminal value; nothing else changed.
pub open spec fn quit_rel(pre: State, post: State) -> bool {
    &&& post.active is Shutdown
    &&& frame_except_focus(pre, post)
}

/// The searchbar took the focus; nothing else changed.
pub open spec fn activate_search_rel(pre: State, post: State) -> bool {
    &&& post.active is Searchbar
    &&& frame_except_focus(pre, post)
}

/// Escape: from the searchbar, the draft clears and the focus advances to
/// the next pane in the cycle; from anywhere else, nothing happens.
pub open spec fn esc_rel(pre: State, post: State) -> bool {
    if pre.active is Searchbar {
        &&& post.active == pre.active.next_spec()
        &&& post.search.draft@ == Seq::<char>::empty()
        &&& post.search.committed == pre.search.committed
        &&& same_lists(pre, post)
        &&& same_fetch_plan(pre, post)
        &&& post.paused == pre.paused
    } else {
        post == pre
    }
}

/// Backspace: from the searchbar, the last draft character is removed (an
/// empty draft stays empty); from anywhere else, the focus moves one step
/// backward.
pub open spec fn backspace_rel(pre: State, post: State) -> bool {
    if pre.active is Searchbar {
        &&& (pre.search.draft@.len() == 0 ==> post.search.draft@ == pre.search.draft@)
        &&& (pre.search.draft@.len() > 0 ==> post.search.draft@ == pre.search.draft@.drop_last())
        &&& post.search.committed == pre.search.committed
        &&& post.active == pre.active
        &&& same_lists(pre, post)
        &&& same_fetch_plan(pre, post)
        &&& post.paused == pre.paused
    } else {
        focus_prev_rel(pre, post)
    }
}

/// A character was appended to the search draft; nothing else changed.
pub open spec fn edit_draft_rel(pre: State, post: State, ch: char) -> bool {
    &&& post.search.draft@ == pre.search.draft@.push(ch)
    &&& post.search.committed == pre.search.committed
    &&& post.active == pre.active
    &&& same_lists(pre, post)
    &&& same_fetch_plan(pre, post)
    &&& post.paused == pre.paused
}

/// The draft was committed: the committed query becomes the trimmed draft,
/// all three source descriptors ask for a search with that query, all
/// three pagination slots reset to page zero, and the status line reports
/// the search. The draft itself is kept.
pub open spec fn start_search_rel(pre: State, post: State) -> bool {
    &&& post.active == pre.active
    &&& same_lists(pre, post)
    &&& post.search.draft == pre.search.draft
    &&& post.search.committed@ == trim_of(pre.search.draft@)
    &&& post.fetched_page == (Pages {
        music: Option::Some(0usize),
        playlist: Option::Some(0usize),
        artist: Option::Some(0usize),
    })
    &&& (post.filled_source.music matches MusicbarSource::Search(q) && q@ == trim_of(
        pre.search.draft@,
    ))
    &&& (post.filled_source.playlist matches PlaylistbarSource::Search(q) && q@ == trim_of(
        pre.search.draft@,
    ))
    &&& (post.filled_source.artist matches ArtistbarSource::Search(q) && q@ == trim_of(
        pre.search.draft@,
    ))
    &&& post.help@ == "Searching.."@
    &&& post.paused == pre.paused
}

/// The musicbar was pointed at the trending feed: its source descriptor
/// becomes `Trending`, its page advances in `direction`, and the status
/// line reports the fetch. The other panes' plans are untouched.
pub open spec fn fill_trending_rel(pre: State, post: State, direction: HeadTo) -> bool {
    &&& frame_except_fetch_plan(pre, post)
    &&& post.filled_source.music is Trending
    &&& post.filled_source.playlist == pre.filled_source.playlist
    &&& post.filled_source.artist == pre.filled_source.artist
    &&& post.fetched_page.music == Option::Some(
        get_page_spec(pre.fetched_page.music, direction) as usize,
    )
    &&& post.fetched_page.playlist == pre.fetched_page.playlist
    &&& post.fetched_page.artist == pre.fetched_page.artist
    &&& post.help@ == "Fetching.."@
}

/// The artist pane was filled with the fixed built-in community entry and
/// took the focus; its selection is unset for the fresh list.
pub open spec fn fill_community_rel(pre: State, post: State) -> bool {
    &&& post.active is Artistbar
    &&& post.sidebar == pre.sidebar
    &&& post.musicbar == pre.musicbar
    &&& post.playlistbar == pre.playlistbar
    &&& post.artistbar.items.len() == 1
    &&& post.artistbar.items[0].name@ == "Youtube Music Global Charts"@
    &&& post.artistbar.items[0].id@ == "UCrKZcyOJVWnJ60zM1XWllNw"@
    &&& post.artistbar.items[0].video_count@ == "NaN"@
    &&& post.artistbar.selected is None
    &&& same_fetch_plan(pre, post)
    &&& post.search == pre.search
    &&& post.paused == pre.paused
}

/// When the musicbar's source is a playlist, its page advances in
/// `direction` and the status line reports the fetch; otherwise nothing
/// happens. The descriptor itself keeps its playlist id either way.
pub open spec fn fill_music_from_playlist_rel(pre: State, post: State, direction: HeadTo) -> bool {
    if pre.filled_source.music is Playlist {
        &&& frame_except_fetch_plan(pre, post)
        &&& post.filled_source == pre.filled_source
        &&& post.fetched_page.music == Option::Some(
            get_page_spec(pre.fetched_page.music, direction) as usize,
        )
        &&& post.fetched_page.playlist == pre.fetched_page.playlist
        &&& post.fetched_page.artist == pre.fetched_page.artist
        &&& post.help@ == "Fetching playlist.."@
    } else {
        post == pre
    }
}

/// When the musicbar's source is an artist, its page advances in
/// `direction` and the status line reports the fetch; otherwise nothing
/// happens.
pub open spec fn fill_music_from_artist_rel(pre: State, post: State, direction: HeadTo) -> bool {
    if pre.filled_source.music is Artist {
        &&& frame_except_fetch_plan(pre, post)
        &&& post.filled_source == pre.filled_source
        &&& post.fetched_page.music == Option::Some(
            get_page_spec(pre.fetched_page.music, direction) as usize,
        )
        &&& post.fetched_page.playlist == pre.fetched_page.playlist
        &&& post.fetched_page.artist == pre.fetched_page.artist
        &&& post.help@ == "Fetching channel.."@
    } else {
        post == pre
    }
}

/// When the playlistbar's source is an artist, its page advances in
/// `direction` and the status line reports the fetch; otherwise nothing
/// happens.
pub open spec fn fill_playlist_from_artist_rel(pre: State, post: State, direction: HeadTo) -> bool {
    if pre.filled_source.playlist is Artist {
        &&& frame_except_fetch_plan(pre, post)
        &&& post.filled_source == pre.filled_source
        &&& post.fetched_page.playlist == Option::Some(
            get_page_spec(pre.fetched_page.playlist, direction) as usize,
        )
        &&& post.fetched_page.music == pre.fetched_page.music
        &&& post.fetched_page.artist == pre.fetched_page.artist
        &&& post.help@ == "Fetching channel.."@
    } else {
        post == pre
    }
}

/// Page navigation: with one of the three middle panes focused, that
/// pane's pagination slot advances in `direction`; with any other focus,
/// nothing happens.
pub open spec fn page_nav_rel(pre: State, post: State, direction: HeadTo) -> bool {
    match pre.active {
        Window::Musicbar => {
            &&& frame_except_fetch_plan(pre, post)
            &&& post.filled_source == pre.filled_source
            &&& post.help@ == pre.help@
            &&& post.fetched_page.music == Option::Some(
                get_page_spec(pre.fetched_page.music, direction) as usize,
            )
            &&& post.fetched_page.playlist == pre.fetched_page.playlist
            &&& post.fetched_page.artist == pre.fetched_page.artist
        },
        Window::Playlistbar => {
            &&& frame_except_fetch_plan(pre, post)
            &&& post.filled_source == pre.filled_source
            &&& post.help@ == pre.help@
            &&& post.fetched_page.playlist == Option::Some(
                get_page_spec(pre.fetched_page.playlist, direction) as usize,
            )
            &&& post.fetched_page.music == pre.fetched_page.music
            &&& post.fetched_page.artist == pre.fetched_page.artist
        },
        Window::Artistbar => {
            &&& frame_except_fetch_plan(pre, post)
            &&& post.filled_source == pre.filled_source
            &&& post.help@ == pre.help@
            &&& post.fetched_page.artist == Option::Some(
                get_page_spec(pre.fetched_page.artist, direction) as usize,
            )
            &&& post.fetched_page.music == pre.fetched_page.music
            &&& post.fetched_page.playlist == pre.fetched_page.playlist
        },
        _ => post == pre,
    }
}

/// The playback flag flipped; nothing else changed.
pub open spec fn toggle_pause_rel(pre: State, post: State) -> bool {
    &&& post.paused == !pre.paused
    &&& post.active == pre.active
    &&& same_lists(pre, post)
    &&& same_fetch_plan(pre, post)
    &&& post.search == pre.search
}

/// Up/Down and PageUp/PageDown: with a list pane focused, that pane's
/// selection advances circularly; with any other focus, the focus itself
/// moves through the cycle in the matching direction.
pub open spec fn up_down_rel(pre: State, post: State, direction: HeadTo) -> bool {
    match pre.active {
        Window::Sidebar => {
            &&& frame_except_lists(pre, post)
            &&& post.sidebar == advance_index_spec(
                pre.sidebar as int,
                SIDEBAR_LIST_COUNT as int,
                direction,
            )
            &&& post.musicbar == pre.musicbar
            &&& post.playlistbar == pre.playlistbar
            &&& post.artistbar == pre.artistbar
        },
        Window::Musicbar => {
            &&& frame_except_lists(pre, post)
            &&& Pane::advanced_selection(pre.musicbar, post.musicbar, direction)
            &&& post.sidebar == pre.sidebar
            &&& post.playlistbar == pre.playlistbar
            &&& post.artistbar == pre.artistbar
        },
        Window::Playlistbar => {
            &&& frame_except_lists(pre, post)
            &&& Pane::advanced_selection(pre.playlistbar, post.playlistbar, direction)
            &&& post.sidebar == pre.sidebar
            &&& post.musicbar == pre.musicbar
            &&& post.artistbar == pre.artistbar
        },
        Window::Artistbar => {
            &&& frame_except_lists(pre, post)
            &&& Pane::advanced_selection(pre.artistbar, post.artistbar, direction)
            &&& post.sidebar == pre.sidebar
            &&& post.musicbar == pre.musicbar
            &&& post.playlistbar == pre.playlistbar
        },
        _ => {
            &&& (direction is Next ==> post.active == pre.active.next_spec())
            &&& (direction is Prev ==> post.active == pre.active.prev_spec())
            &&& frame_except_focus(pre, post)
        },
    }
}

impl State {
    /// Move the focus to the next pane in the cycle.
    pub fn moveto_next_window(&mut self)
        requires
            old(self).wf(),
        ensures
            final(self).wf(),
            focus_next_rel(*old(self), *final(self)),
    {
        self.active = self.active.next();
    }

    /// Move the focus to the previous pane in the cycle.
    pub fn moveto_prev_window(&mut self)
        requires
            old(self).wf(),
        ensures
            final(self).wf(),
            focus_prev_rel(*old(self), *final(self)),
    {
        self.active = self.active.prev();
    }

    /// Request shutdown: set the focus to the terminal value, which every
    /// collaborator thread treats as the signal to exit.
    pub fn quit(&mut self)
        requires
            old(self).wf(),
        ensures
            final(self).wf(),
            quit_rel(*old(self), *final(self)),
    {
        self.active = Window::Shutdown;
    }

    /// Give the searchbar the focus so the user can type a query.
    pub fn activate_search(&mut self)
        requires
            old(self).wf(),
        ensures
            final(self).wf(),
            activate_search_rel(*old(self), *final(self)),
    {
        self.active = Window::Searchbar;
    }

    /// Escape key. Returns whether anything changed (so the caller knows
    /// whether collaborators must be woken).
    pub fn handle_esc(&mut self) -> (acted: bool)
        requires
            old(self).wf(),
        ensures
            final(self).wf(),
            esc_rel(*old(self), *final(self)),
            acted == (old(self).active is Searchbar),
    {
        if self.active == Window::Searchbar {
            self.search.draft = String::new();
            self.moveto_next_window();
            true
        } else {
            false
        }
    }

    /// Backspace/Delete key: edit the draft from the searchbar, fall back
    /// to backward focus movement from anywhere else.
    pub fn handle_backspace(&mut self)
        requires
            old(self).wf(),
        ensures
            final(self).wf(),
            backspace_rel(*old(self), *final(self)),
    {
        if self.active == Window::Searchbar {
            pop_char(&mut self.search.draft);
        } else {
            self.moveto_prev_window();
        }
    }

    /// Append one typed character to the search draft.
    pub fn handle_search_input(&mut self, ch: char)
        requires
            old(self).wf(),
        ensures
            final(self).wf(),
            edit_draft_rel(*old(self), *final(self), ch),
    {
        push_char(&mut self.search.draft, ch);
    }

    /// Commit the search draft: trim it, remember it as the committed
    /// query, point all three panes at that search and reset their pages.
    pub fn start_search(&mut self)
        requires
            old(self).wf(),
        ensures
            final(self).wf(),
            start_search_rel(*old(self), *final(self)),
    {
        let query = trimmed(&self.search.draft);
        self.search.committed = query.clone();
        self.fetched_page = Pages {
            music: Option::Some(0),
            playlist: Option::Some(0),
            artist: Option::Some(0),
        };
        self.filled_source = Sources {
            music: MusicbarSource::Search(query.clone()),
            playlist: PlaylistbarSource::Search(query.clone()),
            artist: ArtistbarSource::Search(query),
        };
        self.help = "Searching..";
    }

    /// Point the musicbar at the trending feed and advance its page.
    pub fn fill_trending_music(&mut self, direction: HeadTo)
        requires
            old(self).wf(),
            old(self).fetched_page.music matches Some(p) ==> (direction is Next ==> p
                < usize::MAX),
        ensures
            final(self).wf(),
            fill_trending_rel(*old(self), *final(self), direction),
    {
        let page = get_page(&self.fetched_page.music, direction);
        self.fetched_page.music = Option::Some(page);
        self.filled_source.music = MusicbarSource::Trending;
        self.help = "Fetching..";
    }

    /// Replace the artist list with the fixed built-in community entry and
    /// focus the artist pane.
    pub fn fill_community_source(&mut self)
        requires
            old(self).wf(),
        ensures
            final(self).wf(),
            fill_community_rel(*old(self), *final(self)),
    {
        let mut items: Vec<ArtistUnit> = Vec::new();
        items.push(
            ArtistUnit {
                name: "Youtube Music Global Charts".to_owned(),
                id: "UCrKZcyOJVWnJ60zM1XWllNw".to_owned(),
                video_count: "NaN".to_owned(),
            },
        );
        self.artistbar.items = items;
        self.artistbar.selected = Option::None;
        self.active = Window::Artistbar;
    }

    /// Re-request the playlist the musicbar is showing, one page further in
    /// `direction`; does nothing when the musicbar shows no playlist.
    /// Returns whether anything changed.
    pub fn fill_music_from_playlist(&mut self, direction: HeadTo) -> (acted: bool)
        requires
            old(self).wf(),
            old(self).fetched_page.music matches Some(p) ==> (direction is Next ==> p
                < usize::MAX),
        ensures
            final(self).wf(),
            fill_music_from_playlist_rel(*old(self), *final(self), direction),
            acted == (old(self).filled_source.music is Playlist),
    {
        if let MusicbarSource::Playlist(_) = &self.filled_source.music {
            let page = get_page(&self.fetched_page.music, direction);
            self.fetched_page.music = Option::Some(page);
            self.help = "Fetching playlist..";
            true
        } else {
            false
        }
    }

    /// Re-request the artist's songs the musicbar is showing, one page
    /// further in `direction`; does nothing when the musicbar shows no
    /// artist. Returns whether anything changed.
    pub fn fill_music_from_artist(&mut self, direction: HeadTo) -> (acted: bool)
        requires
            old(self).wf(),
            old(self).fetched_page.music matches Some(p) ==> (direction is Next ==> p
                < usize::MAX),
        ensures
            final(self).wf(),
            fill_music_from_artist_rel(*old(self), *final(self), direction),
            acted == (old(self).filled_source.music is Artist),
    {
        if let MusicbarSource::Artist(_) = &self.filled_source.music {
            let page = get_page(&self.fetched_page.music, direction);
            self.fetched_page.music = Option::Some(page);
            self.help = "Fetching channel..";
            true
        } else {
            false
        }
    }

    /// Re-request the artist's playlists the playlistbar is showing, one
    /// page further in `direction`; does nothing when the playlistbar shows
    /// no artist. Returns whether anything changed.
    pub fn fill_playlist_from_artist(&mut self, direction: HeadTo) -> (acted: bool)
        requires
            old(self).wf(),
            old(self).fetched_page.playlist matches Some(p) ==> (direction is Next ==> p
                < usize::MAX),
        ensures
            final(self).wf(),
            fill_playlist_from_artist_rel(*old(self), *final(self), direction),
            acted == (old(self).filled_source.playlist is Artist),
    {
        if let PlaylistbarSource::Artist(_) = &self.filled_source.playlist {
            let page = get_page(&self.fetched_page.playlist, direction);
            self.fetched_page.playlist = Option::Some(page);
            self.help = "Fetching channel..";
            true
        } else {
            false
        }
    }

    /// Advance the focused middle pane's pagination slot; no-op for any
    /// other focus. Returns whether anything changed.
    pub fn handle_page_nav(&mut self, direction: HeadTo) -> (acted: bool)
        requires
            old(self).wf(),
            direction is Next ==> old(self).pages_have_headroom(),
        ensures
            final(self).wf(),
            page_nav_rel(*old(self), *final(self), direction),
            acted == (old(self).active is Musicbar || old(self).active is Playlistbar || old(
                self,
            ).active is Artistbar),
    {
        match self.active {
            Window::Musicbar => {
                let page = get_page(&self.fetched_page.music, direction);
                self.fetched_page.music = Option::Some(page);
                true
            },
            Window::Playlistbar => {
                let page = get_page(&self.fetched_page.playlist, direction);
                self.fetched_page.playlist = Option::Some(page);
                true
            },
            Window::Artistbar => {
                let page = get_page(&self.fetched_page.artist, direction);
                self.fetched_page.artist = Option::Some(page);
                true
            },
            _ => false,
        }
    }

    /// Flip the pause/resume flag of the playback collaborator.
    pub fn toggle_pause(&mut self)
        requires
            old(self).wf(),
        ensures
            final(self).wf(),
            toggle_pause_rel(*old(self), *final(self)),
    {
        self.paused = !self.paused;
    }

    /// Up/Down (and PageUp/PageDown) routing: advance the focused list
    /// pane's selection, or move the focus itself for non-list panes.
    pub fn handle_up_down(&mut self, direction: HeadTo)
        requires
            old(self).wf(),
            !(direction is Initial),
        ensures
            final(self).wf(),
            up_down_rel(*old(self), *final(self), direction),
    {
        match self.active {
            Window::Sidebar => {
                self.sidebar = advance_index(self.sidebar, SIDEBAR_LIST_COUNT, direction);
            },
            Window::Musicbar => {
                self.musicbar.advance_selection(direction);
            },
            Window::Playlistbar => {
                self.playlistbar.advance_selection(direction);
            },
            Window::Artistbar => {
                self.artistbar.advance_selection(direction);
            },
            _ => {
                match direction {
                    HeadTo::Next => self.moveto_next_window(),
                    HeadTo::Prev => self.moveto_prev_window(),
                    HeadTo::Initial => {},
                }
            },
        }
    }
}

/// Law: submitting the search twice in a row commits the same query both
/// times, and resets all three pagination slots to page zero both times.
pub proof fn lemma_start_search_idempotent(s0: State, s1: State, s2: State)
    requires
        start_search_rel(s0, s1),
        start_search_rel(s1, s2),
    ensures
        s2.search.committed@ == s1.search.committed@,
        s1.fetched_page == (Pages {
            music: Option::Some(0usize),
            playlist: Option::Some(0usize),
            artist: Option::Some(0usize),
        }),
        s2.fetched_page == (Pages {
            music: Option::Some(0usize),
            playlist: Option::Some(0usize),
            artist: Option::Some(0usize),
        }),
{
}

} // verus!
