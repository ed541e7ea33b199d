use ytui_core::dispatch::{InputEvent, Key, KeyInput, Outcome};
use ytui_core::state::{
    ArtistUnit, ArtistbarSource, MusicUnit, MusicbarSource, PlaylistUnit, PlaylistbarSource,
    State, Window,
};

fn key(code: Key) -> InputEvent {
    InputEvent::Key(KeyInput { code, ctrl: false })
}

fn ctrl_key(code: Key) -> InputEvent {
    InputEvent::Key(KeyInput { code, ctrl: true })
}

fn type_str(state: &mut State, text: &str) {
    for ch in text.chars() {
        state.handle_event(key(Key::Char(ch)));
    }
}

fn music_item(id: &str) -> MusicUnit {
    MusicUnit { id: String::from(id), name: String::from("song") }
}

#[test]
fn enter_on_trending_slot_requests_trending() {
    // focus Sidebar on its Trending slot, press Enter
    let mut state = State::new();
    assert_eq!(state.active, Window::Sidebar);
    assert_eq!(state.sidebar, 0);

    let outcome = state.handle_event(key(Key::Enter));

    assert_eq!(state.filled_source.music, MusicbarSource::Trending);
    assert_eq!(state.fetched_page.music, Some(0));
    assert_eq!(state.help, "Fetching..");
    assert!(outcome.wake);
    assert!(outcome.play.is_none());
}

#[test]
fn typed_query_is_committed_to_all_three_panes() {
    // focus Searchbar, type "jazz", press Enter
    let mut state = State::new();
    state.active = Window::Searchbar;
    type_str(&mut state, "jazz");
    assert_eq!(state.search.draft, "jazz");

    let outcome = state.handle_event(key(Key::Enter));

    assert_eq!(state.search.committed, "jazz");
    assert_eq!(
        state.filled_source.music,
        MusicbarSource::Search(String::from("jazz"))
    );
    assert_eq!(
        state.filled_source.playlist,
        PlaylistbarSource::Search(String::from("jazz"))
    );
    assert_eq!(
        state.filled_source.artist,
        ArtistbarSource::Search(String::from("jazz"))
    );
    assert_eq!(state.fetched_page.music, Some(0));
    assert_eq!(state.fetched_page.playlist, Some(0));
    assert_eq!(state.fetched_page.artist, Some(0));
    assert_eq!(state.help, "Searching..");
    assert!(outcome.wake);
}

#[test]
fn committed_query_is_trimmed() {
    let mut state = State::new();
    state.active = Window::Searchbar;
    type_str(&mut state, "  jazz  ");
    state.handle_event(key(Key::Enter));
    assert_eq!(state.search.committed, "jazz");
    // the draft itself is kept as typed
    assert_eq!(state.search.draft, "  jazz  ");
}

#[test]
fn submitting_twice_commits_the_same_query_both_times() {
    let mut state = State::new();
    state.active = Window::Searchbar;
    type_str(&mut state, "  jazz  ");

    state.handle_event(key(Key::Enter));
    let first = state.search.committed.clone();
    assert_eq!(state.fetched_page.music, Some(0));

    state.handle_event(key(Key::Enter));
    assert_eq!(state.search.committed, first);
    assert_eq!(state.search.committed, "jazz");
    assert_eq!(state.fetched_page.music, Some(0));
    assert_eq!(state.fetched_page.playlist, Some(0));
    assert_eq!(state.fetched_page.artist, Some(0));
}

#[test]
fn selection_wraps_forward_to_first_item() {
    // focus Musicbar with a 3-item list selected at index 2, press Down
    let mut state = State::new();
    state.active = Window::Musicbar;
    state.musicbar.items = vec![music_item("a"), music_item("b"), music_item("c")];
    state.musicbar.selected = Some(2);

    state.handle_event(key(Key::Down));

    assert_eq!(state.musicbar.selected, Some(0));
}

#[test]
fn selection_on_empty_pane_stays_unset() {
    let mut state = State::new();
    state.active = Window::Musicbar;
    state.handle_event(key(Key::Down));
    assert_eq!(state.musicbar.selected, None);

    state.active = Window::Artistbar;
    state.handle_event(key(Key::Up));
    assert_eq!(state.artistbar.selected, None);

    state.active = Window::Playlistbar;
    state.handle_event(key(Key::PageDown));
    assert_eq!(state.playlistbar.selected, None);
}

#[test]
fn unset_selection_on_filled_pane_lands_on_first_item() {
    let mut state = State::new();
    state.active = Window::Musicbar;
    state.musicbar.items = vec![music_item("a"), music_item("b")];
    state.handle_event(key(Key::Down));
    assert_eq!(state.musicbar.selected, Some(0));
}

#[test]
fn ctrl_c_quits_from_any_focus() {
    for focus in [
        Window::Sidebar,
        Window::Musicbar,
        Window::Playlistbar,
        Window::Artistbar,
        Window::Searchbar,
        Window::Helpbar,
    ] {
        let mut state = State::new();
        state.active = focus;
        let outcome = state.handle_event(ctrl_key(Key::Char('c')));
        assert_eq!(state.active, Window::Shutdown);
        assert!(outcome.stop);
        assert!(outcome.wake);
    }
}

#[test]
fn esc_clears_draft_and_advances_focus() {
    let mut state = State::new();
    state.active = Window::Searchbar;
    type_str(&mut state, "abc");

    let outcome = state.handle_event(key(Key::Esc));

    assert_eq!(state.search.draft, "");
    assert_eq!(state.active, Window::Sidebar);
    assert!(outcome.wake);
}

#[test]
fn esc_outside_searchbar_does_nothing() {
    let mut state = State::new();
    state.active = Window::Musicbar;
    let outcome = state.handle_event(key(Key::Esc));
    assert_eq!(state.active, Window::Musicbar);
    assert!(!outcome.wake);
}

#[test]
fn focus_cycle_returns_after_five_steps() {
    for start in [
        Window::Sidebar,
        Window::Musicbar,
        Window::Playlistbar,
        Window::Artistbar,
        Window::Searchbar,
    ] {
        let mut state = State::new();
        state.active = start;
        for _ in 0..5 {
            state.handle_event(key(Key::Tab));
        }
        assert_eq!(state.active, start);
    }
}

#[test]
fn tab_and_backtab_are_inverse() {
    let mut state = State::new();
    state.handle_event(key(Key::Tab));
    assert_eq!(state.active, Window::Musicbar);
    state.handle_event(key(Key::BackTab));
    assert_eq!(state.active, Window::Sidebar);
}

#[test]
fn backspace_edits_draft_in_searchbar() {
    let mut state = State::new();
    state.active = Window::Searchbar;
    type_str(&mut state, "ab");
    state.handle_event(key(Key::Backspace));
    assert_eq!(state.search.draft, "a");
    state.handle_event(key(Key::Backspace));
    assert_eq!(state.search.draft, "");
    // an empty draft stays empty
    state.handle_event(key(Key::Backspace));
    assert_eq!(state.search.draft, "");
    assert_eq!(state.active, Window::Searchbar);
}

#[test]
fn backspace_elsewhere_moves_focus_back() {
    let mut state = State::new();
    state.active = Window::Musicbar;
    state.handle_event(key(Key::Delete));
    assert_eq!(state.active, Window::Sidebar);
}

#[test]
fn page_navigation_steps_the_focused_pane() {
    let mut state = State::new();
    state.active = Window::Musicbar;
    assert_eq!(state.fetched_page.music, None);

    let outcome = state.handle_event(key(Key::Char('n')));
    assert!(outcome.wake);
    assert_eq!(state.fetched_page.music, Some(0));

    state.handle_event(key(Key::Char('n')));
    assert_eq!(state.fetched_page.music, Some(1));

    state.handle_event(key(Key::Char('p')));
    assert_eq!(state.fetched_page.music, Some(0));
    // saturates at page zero
    state.handle_event(key(Key::Char('p')));
    assert_eq!(state.fetched_page.music, Some(0));

    // the other slots were never touched
    assert_eq!(state.fetched_page.playlist, None);
    assert_eq!(state.fetched_page.artist, None);
}

#[test]
fn page_navigation_ignores_other_focus() {
    let mut state = State::new();
    let outcome = state.handle_event(key(Key::Char('n')));
    assert!(!outcome.wake);
    assert_eq!(state.fetched_page.music, None);
    assert_eq!(state.fetched_page.playlist, None);
    assert_eq!(state.fetched_page.artist, None);
}

#[test]
fn sidebar_selection_wraps_both_ways() {
    let mut state = State::new();
    state.handle_event(key(Key::Up));
    assert_eq!(state.sidebar, 5);
    state.handle_event(key(Key::Down));
    assert_eq!(state.sidebar, 0);
}

#[test]
fn community_slot_fills_artistbar_with_builtin_entry() {
    let mut state = State::new();
    state.handle_event(key(Key::Down));  // sidebar slot 1: the community entry
    assert_eq!(state.sidebar, 1);
    state.artistbar.items = vec![ArtistUnit {
        id: String::from("old"),
        name: String::from("old"),
        video_count: String::from("1"),
    }];
    state.artistbar.selected = Some(0);

    let outcome = state.handle_event(key(Key::Enter));

    assert_eq!(state.active, Window::Artistbar);
    assert_eq!(state.artistbar.items.len(), 1);
    assert_eq!(state.artistbar.items[0].name, "Youtube Music Global Charts");
    assert_eq!(state.artistbar.items[0].id, "UCrKZcyOJVWnJ60zM1XWllNw");
    assert_eq!(state.artistbar.items[0].video_count, "NaN");
    assert_eq!(state.artistbar.selected, None);
    assert!(outcome.wake);
}

#[test]
fn reserved_sidebar_slots_do_nothing() {
    for slot in [2usize, 3, 5] {
        let mut state = State::new();
        state.sidebar = slot;
        let outcome = state.handle_event(key(Key::Enter));
        assert!(!outcome.wake);
        assert_eq!(state.fetched_page.music, None);
        assert_eq!(state.active, Window::Sidebar);
    }
}

#[test]
fn search_slot_activates_searchbar() {
    let mut state = State::new();
    state.sidebar = 4;
    let outcome = state.handle_event(key(Key::Enter));
    assert_eq!(state.active, Window::Searchbar);
    assert!(outcome.wake);
}

#[test]
fn enter_on_musicbar_selection_requests_playback() {
    let mut state = State::new();
    state.active = Window::Musicbar;
    state.musicbar.items = vec![music_item("m0"), music_item("m1")];
    state.musicbar.selected = Some(1);

    let outcome = state.handle_event(key(Key::Enter));

    assert_eq!(outcome.play, Some(String::from("m1")));
    assert!(outcome.wake);
    // the fetch plan is untouched by a playback request
    assert_eq!(state.fetched_page.music, None);
    assert_eq!(state.filled_source.music, MusicbarSource::Unset);
}

#[test]
fn enter_on_musicbar_without_selection_does_nothing() {
    let mut state = State::new();
    state.active = Window::Musicbar;
    let outcome = state.handle_event(key(Key::Enter));
    assert!(outcome.play.is_none());
    assert!(!outcome.wake);
}

#[test]
fn enter_on_playlistbar_points_musicbar_at_playlist() {
    let mut state = State::new();
    state.active = Window::Playlistbar;
    state.playlistbar.items = vec![PlaylistUnit {
        id: String::from("PL1"),
        name: String::from("list"),
    }];
    state.playlistbar.selected = Some(0);

    let outcome = state.handle_event(key(Key::Enter));

    assert_eq!(
        state.filled_source.music,
        MusicbarSource::Playlist(String::from("PL1"))
    );
    assert_eq!(state.fetched_page.music, Some(0));
    assert_eq!(state.help, "Fetching playlist..");
    assert!(outcome.wake);
}

#[test]
fn enter_on_artistbar_points_both_panes_at_artist() {
    let mut state = State::new();
    state.active = Window::Artistbar;
    state.artistbar.items = vec![ArtistUnit {
        id: String::from("UC1"),
        name: String::from("artist"),
        video_count: String::from("3"),
    }];
    state.artistbar.selected = Some(0);

    let outcome = state.handle_event(key(Key::Enter));

    assert_eq!(
        state.filled_source.music,
        MusicbarSource::Artist(String::from("UC1"))
    );
    assert_eq!(
        state.filled_source.playlist,
        PlaylistbarSource::Artist(String::from("UC1"))
    );
    assert_eq!(state.fetched_page.music, Some(0));
    assert_eq!(state.fetched_page.playlist, Some(0));
    assert_eq!(state.fetched_page.artist, None);
    assert_eq!(state.help, "Fetching channel..");
    assert!(outcome.wake);
}

#[test]
fn space_toggles_pause_outside_searchbar() {
    let mut state = State::new();
    let outcome = state.handle_event(key(Key::Char(' ')));
    assert!(state.paused);
    assert!(outcome.wake);
    state.handle_event(key(Key::Char(' ')));
    assert!(!state.paused);
}

#[test]
fn characters_typed_in_searchbar_go_to_the_draft() {
    let mut state = State::new();
    state.active = Window::Searchbar;
    // shortcut characters lose their meaning while typing
    for ch in ['/', '?', 'n', 'p', ' ', '>'] {
        state.handle_event(key(Key::Char(ch)));
    }
    assert_eq!(state.search.draft, "/?np >");
    assert_eq!(state.active, Window::Searchbar);
    assert!(!state.paused);
}

#[test]
fn slash_activates_search_outside_searchbar() {
    let mut state = State::new();
    let outcome = state.handle_event(key(Key::Char('/')));
    assert_eq!(state.active, Window::Searchbar);
    assert!(outcome.wake);
}

#[test]
fn question_mark_requests_help_overlay() {
    let mut state = State::new();
    let outcome = state.handle_event(key(Key::Char('?')));
    assert!(outcome.show_help);
    assert!(!outcome.wake);
    assert_eq!(state.active, Window::Sidebar);
}

#[test]
fn reserved_keys_do_nothing() {
    let mut state = State::new();
    for ev in [
        key(Key::Char('>')),
        key(Key::Char('<')),
        key(Key::Char('x')),
        ctrl_key(Key::Char('n')),
        ctrl_key(Key::Char('p')),
        key(Key::Other),
    ] {
        let outcome: Outcome = state.handle_event(ev);
        assert!(!outcome.wake);
        assert!(!outcome.stop);
        assert!(!outcome.show_help);
        assert!(outcome.play.is_none());
    }
    assert_eq!(state.active, Window::Sidebar);
    assert_eq!(state.fetched_page.music, None);
}

#[test]
fn resize_and_tick_wake_collaborators() {
    let mut state = State::new();
    assert!(state.handle_event(InputEvent::Resize).wake);
    assert!(state.handle_event(InputEvent::Tick).wake);
    assert!(!state.handle_event(InputEvent::Pointer).wake);
}
