//! The dispatcher: decoded input events are routed to the handlers
//! according to the command grammar, and each call reports the side
//! effects now due — waking the collaborator threads, starting playback,
//! showing the help overlay, stopping the input loop.
//!
//! The binary's input loop owns the terminal; it decodes each raw event
//! into an [`InputEvent`], calls [`State::handle_event`] under the state
//! lock, and then performs the returned [`Outcome`].

use crate::handlers::{
    activate_search_rel, backspace_rel, edit_draft_rel, esc_rel, fill_community_rel,
    fill_trending_rel, focus_next_rel, focus_prev_rel, page_nav_rel, quit_rel, start_search_rel,
    toggle_pause_rel, up_down_rel,
};
use crate::navigation::HeadTo;
use crate::state::{
    sidebar_option, sidebar_option_spec, MusicbarSource, PlaylistbarSource, SidebarOption, State,
    Window,
};
use vstd::prelude::*;

verus! {

/// Shortcut that moves the focus into the searchbar.
pub const SEARCH_SH_KEY: char = '/';

/// Shortcut that brings up the help overlay.
pub const HELP_SH_KEY: char = '?';

/// Shortcut that requests the next page (plain) or the next track (with
/// control; reserved).
pub const NEXT_SH_KEY: char = 'n';

/// Shortcut that requests the previous page (plain) or the previous track
/// (with control; reserved).
pub const PREV_SH_KEY: char = 'p';

/// Shortcut that, together with control, quits the application.
pub const QUIT_SH_KEY: char = 'c';

/// Reserved seek-forward shortcut; currently a no-op.
pub const SEEK_F_KEY: char = '>';

/// Reserved seek-backward shortcut; currently a no-op.
pub const SEEK_B_KEY: char = '<';

/// Shortcut that toggles pause/resume.
pub const TOGGLE_PAUSE_KEY: char = ' ';

/// A decoded key, stripped of everything the grammar does not read.
#[derive(Clone, Copy, Debug, PartialEq, Eq, Structural)]
pub enum Key {
    Down,
    PageDown,
    Up,
    PageUp,
    Right,
    Tab,
    Left,
    BackTab,
    Esc,
    Enter,
    Backspace,
    Delete,
    Char(char),
    /// Any key the grammar ignores.
    Other,
}

/// A key together with whether the control modifier was held.
#[derive(Clone, Copy, Debug, PartialEq, Eq, Structural)]
pub struct KeyInput {
    pub code: Key,
    pub ctrl: bool,
}

/// One decoded event of the input loop.
#[derive(Clone, Copy, Debug, PartialEq, Eq, Structural)]
pub enum InputEvent {
    Key(KeyInput),
    /// The terminal was resized: the layout must be recomputed.
    Resize,
    /// A pointer/mouse event; ignored.
    Pointer,
    /// The poll timeout elapsed with no event: collaborators are woken so
    /// periodic redraw stays alive.
    Tick,
}

/// The side effects the caller must perform after a dispatch.
#[derive(Debug)]
pub struct Outcome {
    /// Broadcast-wake the collaborator threads.
    pub wake: bool,
    /// Start playback of the item with this id.
    pub play: Option<String>,
    /// Bring up the help overlay.
    pub show_help: bool,
    /// Stop the input loop: shutdown was requested.
    pub stop: bool,
}

impl Outcome {
    /// No playback request, no help overlay, no shutdown.
    pub open spec fn quiet(self) -> bool {
        &&& self.play is None
        &&& !self.show_help
        &&& !self.stop
    }

    /// An outcome that asks for nothing at all.
    fn silent() -> (o: Outcome)
        ensures
            !o.wake,
            o.quiet(),
    {
        Outcome { wake: false, play: Option::None, show_help: false, stop: false }
    }

    /// An outcome that only wakes the collaborators.
    fn wake_only() -> (o: Outcome)
        ensures
            o.wake,
            o.quiet(),
    {
        Outcome { wake: true, play: Option::None, show_help: false, stop: false }
    }
}

/// How the Enter key acts, by focus:
/// from the sidebar it runs the selected menu entry; from the searchbar it
/// commits the draft; on the musicbar it asks for playback of the selected
/// item; on the playlistbar it points the musicbar at the selected
/// playlist; on the artistbar it points both musicbar and playlistbar at
/// the selected artist; anywhere else it does nothing.
pub open spec fn enter_rel(pre: State, post: State, o: Outcome) -> bool {
    &&& !o.show_help
    &&& !o.stop
    &&& match pre.active {
        Window::Sidebar => match sidebar_option_spec(pre.sidebar as int) {
            SidebarOption::Trending => {
                &&& fill_trending_rel(pre, post, HeadTo::Initial)
                &&& o.wake
                &&& o.play is None
            },
            SidebarOption::YoutubeCommunity => {
                &&& fill_community_rel(pre, post)
                &&& o.wake
                &&& o.play is None
            },
            SidebarOption::Search => {
                &&& activate_search_rel(pre, post)
                &&& o.wake
                &&& o.play is None
            },
            // Favourites and RecentlyPlayed are reserved, the blank slot
            // does nothing.
            _ => post == pre && !o.wake && o.play is None,
        },
        Window::Searchbar => {
            &&& start_search_rel(pre, post)
            &&& o.wake
            &&& o.play is None
        },
        Window::Musicbar => match pre.musicbar.selected {
            Option::Some(i) => {
                &&& post == pre
                &&& o.wake
                &&& (o.play matches Some(id) && id@ == pre.musicbar.items[i as int].id@)
            },
            Option::None => post == pre && !o.wake && o.play is None,
        },
        Window::Playlistbar => match pre.playlistbar.selected {
            Option::Some(i) => {
                &&& post.active == pre.active
                &&& post.sidebar == pre.sidebar
                &&& post.musicbar == pre.musicbar
                &&& post.playlistbar == pre.playlistbar
                &&& post.artistbar == pre.artistbar
                &&& post.search == pre.search
                &&& post.paused == pre.paused
                &&& (post.filled_source.music matches MusicbarSource::Playlist(id) && id@
                    == pre.playlistbar.items[i as int].id@)
                &&& post.filled_source.playlist == pre.filled_source.playlist
                &&& post.filled_source.artist == pre.filled_source.artist
                &&& post.fetched_page.music == Option::Some(0usize)
                &&& post.fetched_page.playlist == pre.fetched_page.playlist
                &&& post.fetched_page.artist == pre.fetched_page.artist
                &&& post.help@ == "Fetching playlist.."@
                &&& o.wake
                &&& o.play is None
            },
            Option::None => post == pre && !o.wake && o.play is None,
        },
        Window::Artistbar => match pre.artistbar.selected {
            Option::Some(i) => {
                &&& post.active == pre.active
                &&& post.sidebar == pre.sidebar
                &&& post.musicbar == pre.musicbar
                &&& post.playlistbar == pre.playlistbar
                &&& post.artistbar == pre.artistbar
                &&& post.search == pre.search
                &&& post.paused == pre.paused
                &&& (post.filled_source.music matches MusicbarSource::Artist(id) && id@
                    == pre.artistbar.items[i as int].id@)
                &&& (post.filled_source.playlist matches PlaylistbarSource::Artist(id) && id@
                    == pre.artistbar.items[i as int].id@)
                &&& post.filled_source.artist == pre.filled_source.artist
                &&& post.fetched_page.music == Option::Some(0usize)
                &&& post.fetched_page.playlist == Option::Some(0usize)
                &&& post.fetched_page.artist == pre.fetched_page.artist
                &&& post.help@ == "Fetching channel.."@
                &&& o.wake
                &&& o.play is None
            },
            Option::None => post == pre && !o.wake && o.play is None,
        },
        _ => post == pre && !o.wake && o.play is None,
    }
}

/// How a plain character key acts. While the searchbar has the focus an
/// unmodified character is typed into the draft; otherwise the character
/// is read as a shortcut.
pub open spec fn char_rel(pre: State, post: State, ch: char, ctrl: bool, o: Outcome) -> bool {
    if pre.active is Searchbar && !ctrl {
        edit_draft_rel(pre, post, ch) && o.wake && o.quiet()
    } else if ch == SEARCH_SH_KEY {
        activate_search_rel(pre, post) && o.wake && o.quiet()
    } else if ch == HELP_SH_KEY {
        post == pre && !o.wake && o.show_help && o.play is None && !o.stop
    } else if ch == QUIT_SH_KEY && ctrl {
        quit_rel(pre, post) && o.wake && o.stop && o.play is None && !o.show_help
    } else if ch == NEXT_SH_KEY {
        if ctrl {
            // track advance: reserved
            post == pre && !o.wake && o.quiet()
        } else {
            page_nav_rel(pre, post, HeadTo::Next) && o.quiet() && o.wake == (
            pre.active is Musicbar || pre.active is Playlistbar || pre.active is Artistbar)
        }
    } else if ch == PREV_SH_KEY {
        if ctrl {
            post == pre && !o.wake && o.quiet()
        } else {
            page_nav_rel(pre, post, HeadTo::Prev) && o.quiet() && o.wake == (
            pre.active is Musicbar || pre.active is Playlistbar || pre.active is Artistbar)
        }
    } else if ch == TOGGLE_PAUSE_KEY {
        toggle_pause_rel(pre, post) && o.wake && o.quiet()
    } else {
        // seek keys and every unassigned character: reserved no-ops
        post == pre && !o.wake && o.quiet()
    }
}

/// Whether dispatching `ev` may advance a pagination slot forward, which
/// is the one place that needs page-number headroom.
pub open spec fn needs_page_headroom(ev: InputEvent) -> bool {
    ev matches InputEvent::Key(k) && k.code matches Key::Char(ch) && ch == NEXT_SH_KEY && !k.ctrl
}

/// The whole command grammar: what one dispatched event does to the state
/// and which side effects it reports.
pub open spec fn event_rel(pre: State, post: State, ev: InputEvent, o: Outcome) -> bool {
    match ev {
        InputEvent::Tick => post == pre && o.wake && o.quiet(),
        InputEvent::Resize => post == pre && o.wake && o.quiet(),
        InputEvent::Pointer => post == pre && !o.wake && o.quiet(),
        InputEvent::Key(k) => match k.code {
            Key::Down | Key::PageDown => up_down_rel(pre, post, HeadTo::Next) && o.wake
                && o.quiet(),
            Key::Up | Key::PageUp => up_down_rel(pre, post, HeadTo::Prev) && o.wake && o.quiet(),
            Key::Right | Key::Tab => focus_next_rel(pre, post) && o.wake && o.quiet(),
            Key::Left | Key::BackTab => focus_prev_rel(pre, post) && o.wake && o.quiet(),
            Key::Esc => esc_rel(pre, post) && o.quiet() && o.wake == (pre.active is Searchbar),
            Key::Enter => enter_rel(pre, post, o),
            Key::Backspace | Key::Delete => backspace_rel(pre, post) && o.wake && o.quiet(),
            Key::Char(ch) => char_rel(pre, post, ch, k.ctrl, o),
            Key::Other => post == pre && !o.wake && o.quiet(),
        },
    }
}

/// Law: the wake signal is never skipped on a mutating path — whenever a
/// dispatched event changes the state record at all, the outcome asks the
/// caller to broadcast-wake the collaborator threads before it goes back
/// to waiting for input.
pub proof fn lemma_mutation_implies_wake(pre: State, post: State, ev: InputEvent, o: Outcome)
    requires
        event_rel(pre, post, ev, o),
    ensures
        post != pre ==> o.wake,
{
}

/// Law: the dispatcher asks the input loop to stop only once the focus has
/// reached the terminal value, so every collaborator thread that re-checks
/// the state on wake observes the shutdown too.
pub proof fn lemma_stop_implies_shutdown(pre: State, post: State, ev: InputEvent, o: Outcome)
    requires
        event_rel(pre, post, ev, o),
    ensures
        o.stop ==> post.active is Shutdown,
{
}

impl State {
    /// Enter key: contextual dispatch on the focused pane.
    pub fn handle_enter(&mut self) -> (o: Outcome)
        requires
            old(self).wf(),
        ensures
            final(self).wf(),
            enter_rel(*old(self), *final(self), o),
    {
        match self.active {
            Window::Sidebar => {
                let side_select = sidebar_option(self.sidebar);
                match side_select {
                    SidebarOption::Trending => {
                        self.fill_trending_music(HeadTo::Initial);
                        Outcome::wake_only()
                    },
                    SidebarOption::YoutubeCommunity => {
                        self.fill_community_source();
                        Outcome::wake_only()
                    },
                    SidebarOption::Favourites => Outcome::silent(),
                    SidebarOption::RecentlyPlayed => Outcome::silent(),
                    SidebarOption::Search => {
                        self.activate_search();
                        Outcome::wake_only()
                    },
                    SidebarOption::Nothing => Outcome::silent(),
                }
            },
            Window::Searchbar => {
                self.start_search();
                Outcome::wake_only()
            },
            Window::Musicbar => {
                match self.musicbar.selected {
                    Option::Some(selected_index) => {
                        let music_id = self.musicbar.items[selected_index].id.clone();
                        Outcome {
                            wake: true,
                            play: Option::Some(music_id),
                            show_help: false,
                            stop: false,
                        }
                    },
                    Option::None => Outcome::silent(),
                }
            },
            Window::Playlistbar => {
                match self.playlistbar.selected {
                    Option::Some(selected_index) => {
                        let playlist_id = self.playlistbar.items[selected_index].id.clone();
                        self.filled_source.music = MusicbarSource::Playlist(playlist_id);
                        self.fill_music_from_playlist(HeadTo::Initial);
                        Outcome::wake_only()
                    },
                    Option::None => Outcome::silent(),
                }
            },
            Window::Artistbar => {
                match self.artistbar.selected {
                    Option::Some(selected_index) => {
                        let artist_id = self.artistbar.items[selected_index].id.clone();
                        self.filled_source.music = MusicbarSource::Artist(artist_id.clone());
                        self.filled_source.playlist = PlaylistbarSource::Artist(artist_id);
                        self.fill_music_from_artist(HeadTo::Initial);
                        self.fill_playlist_from_artist(HeadTo::Initial);
                        Outcome::wake_only()
                    },
                    Option::None => Outcome::silent(),
                }
            },
            Window::Shutdown | Window::Helpbar => Outcome::silent(),
        }
    }

    /// Dispatch one decoded event according to the command grammar and
    /// report the side effects now due.
    pub fn handle_event(&mut self, ev: InputEvent) -> (o: Outcome)
        requires
            old(self).wf(),
            needs_page_headroom(ev) ==> old(self).pages_have_headroom(),
        ensures
            final(self).wf(),
            event_rel(*old(self), *final(self), ev, o),
    {
        match ev {
            InputEvent::Tick => Outcome::wake_only(),
            InputEvent::Resize => Outcome::wake_only(),
            InputEvent::Pointer => Outcome::silent(),
            InputEvent::Key(k) => match k.code {
                Key::Down | Key::PageDown => {
                    self.handle_up_down(HeadTo::Next);
                    Outcome::wake_only()
                },
                Key::Up | Key::PageUp => {
                    self.handle_up_down(HeadTo::Prev);
                    Outcome::wake_only()
                },
                Key::Right | Key::Tab => {
                    self.moveto_next_window();
                    Outcome::wake_only()
                },
                Key::Left | Key::BackTab => {
                    self.moveto_prev_window();
                    Outcome::wake_only()
                },
                Key::Esc => {
                    let acted = self.handle_esc();
                    Outcome { wake: acted, play: Option::None, show_help: false, stop: false }
                },
                Key::Enter => self.handle_enter(),
                Key::Backspace | Key::Delete => {
                    self.handle_backspace();
                    Outcome::wake_only()
                },
                Key::Char(ch) => {
                    if self.active == Window::Searchbar && !k.ctrl {
                        self.handle_search_input(ch);
                        Outcome::wake_only()
                    } else if ch == SEARCH_SH_KEY {
                        self.activate_search();
                        Outcome::wake_only()
                    } else if ch == HELP_SH_KEY {
                        Outcome { wake: false, play: Option::None, show_help: true, stop: false }
                    } else if ch == QUIT_SH_KEY && k.ctrl {
                        self.quit();
                        Outcome { wake: true, play: Option::None, show_help: false, stop: true }
                    } else if ch == NEXT_SH_KEY {
                        if k.ctrl {
                            // track advance: reserved
                            Outcome::silent()
                        } else {
                            let acted = self.handle_page_nav(HeadTo::Next);
                            Outcome {
                                wake: acted,
                                play: Option::None,
                                show_help: false,
                                stop: false,
                            }
                        }
                    } else if ch == PREV_SH_KEY {
                        if k.ctrl {
                            Outcome::silent()
                        } else {
                            let acted = self.handle_page_nav(HeadTo::Prev);
                            Outcome {
                                wake: acted,
                                play: Option::None,
                                show_help: false,
                                stop: false,
                            }
                        }
                    } else if ch == SEEK_F_KEY {
                        // seek forward: reserved
                        Outcome::silent()
                    } else if ch == SEEK_B_KEY {
                        // seek backward: reserved
                        Outcome::silent()
                    } else if ch == TOGGLE_PAUSE_KEY {
                        self.toggle_pause();
                        Outcome::wake_only()
                    } else {
                        Outcome::silent()
                    }
                },
                Key::Other => Outcome::silent(),
            },
        }
    }
}

} // verus!
