use monster_player::kernel::{EffectKind, FrameInput, PlayMode};
use monster_player::tui::{command_of, handle_key, App, Command, Key, KeyCode};
use monster_player::types::{Album, AlbumDetail, AlbumSong, Song};

fn s(x: &str) -> String {
    x.to_string()
}

fn nothing() -> FrameInput {
    FrameInput {
        albums: None,
        detail: None,
        song: None,
        all_songs: None,
        lyrics: None,
        stream_len: 0,
        stream_done: false,
        player: None,
    }
}

fn key(c: char) -> Key {
    Key { code: KeyCode::Char(c), ctrl: false, shift: false }
}

fn code(k: KeyCode) -> Key {
    Key { code: k, ctrl: false, shift: false }
}

/// A front end whose engine has two albums, the first with three songs.
fn loaded() -> App {
    let mut app = App::new(Vec::new());
    app.update(nothing());
    let albums = vec![
        Album { cid: s("a0"), name: s("First"), cover_url: s(""), artistes: vec![s("X")] },
        Album { cid: s("a1"), name: s("Second"), cover_url: s(""), artistes: vec![s("Y")] },
    ];
    app.update(FrameInput { albums: Some(Ok(albums)), ..nothing() });
    let d = AlbumDetail {
        cid: s("a0"),
        name: s("First"),
        intro: s(""),
        belong: s(""),
        cover_url: s(""),
        cover_de_url: s(""),
        songs: ["s0", "s1", "s2"]
            .iter()
            .map(|c| AlbumSong { cid: s(c), name: format!("Song {c}"), artistes: vec![s("Z")] })
            .collect(),
    };
    app.update(FrameInput { detail: Some(Ok(d)), ..nothing() });
    app.engine.take_effects();
    app
}

#[test]
fn quit_and_panels() {
    let mut app = App::new(Vec::new());
    assert!(!handle_key(&mut app, key('q')));
    assert!(handle_key(&mut app, Key { code: KeyCode::Char('t'), ctrl: true, shift: false }));
    assert!(app.show_help);
    assert!(handle_key(&mut app, key('v')));
    assert!(app.show_lyrics);
    handle_key(&mut app, key('v'));
    assert!(!app.show_lyrics);
}

#[test]
fn key_commands() {
    assert_eq!(command_of(false, key('a')), Command::SeekBackward);
    assert_eq!(command_of(false, Key { code: KeyCode::Char('A'), ctrl: false, shift: true }), Command::PlayPrev);
    assert_eq!(command_of(false, Key { code: KeyCode::Char('D'), ctrl: false, shift: true }), Command::PlayNext);
    assert_eq!(command_of(false, code(KeyCode::Enter)), Command::PlaySelected);
    assert_eq!(command_of(false, key(' ')), Command::TogglePause);
    assert_eq!(command_of(false, code(KeyCode::Left)), Command::PrevAlbum);
    assert_eq!(command_of(false, key('l')), Command::NextAlbum);
    assert_eq!(command_of(false, key('x')), Command::Nothing);
    assert_eq!(command_of(true, key('k')), Command::SearchPrev);
    assert_eq!(command_of(true, Key { code: KeyCode::Char('k'), ctrl: true, shift: false }), Command::SearchInput('k'));
    assert_eq!(command_of(true, key('q')), Command::SearchInput('q'));
    assert_eq!(command_of(true, Key { code: KeyCode::Up, ctrl: true, shift: false }), Command::Nothing);
    assert_eq!(command_of(true, code(KeyCode::Esc)), Command::ExitSearch);
}

#[test]
fn rows_wrap_around() {
    let mut app = loaded();
    handle_key(&mut app, key('k'));
    assert_eq!(app.selected_song, 2);
    handle_key(&mut app, key('j'));
    assert_eq!(app.selected_song, 0);
    handle_key(&mut app, code(KeyCode::Down));
    assert_eq!(app.selected_song, 1);
}

#[test]
fn album_change_goes_back_to_the_first_row() {
    let mut app = loaded();
    app.selected_song = 2;
    handle_key(&mut app, key('l'));
    assert_eq!(app.selected_song, 0);
    assert_eq!(app.engine.catalog.album_index, 1);
    handle_key(&mut app, key('h'));
    assert_eq!(app.engine.catalog.album_index, 0);
}

#[test]
fn enter_plays_the_highlighted_song() {
    let mut app = loaded();
    handle_key(&mut app, key('j'));
    handle_key(&mut app, code(KeyCode::Enter));
    assert_eq!(app.engine.now.current_song_index, Some(1));
    let fx = app.engine.take_effects();
    assert_eq!(fx.len(), 1);
    assert_eq!(fx[0].kind, EffectKind::FetchSongDetail);
    assert_eq!(fx[0].arg, "s1");
}

#[test]
fn shift_d_moves_on_and_plays() {
    let mut app = loaded();
    handle_key(&mut app, Key { code: KeyCode::Char('D'), ctrl: false, shift: true });
    assert_eq!(app.selected_song, 1);
    assert_eq!(app.engine.now.current_song_index, Some(1));
    handle_key(&mut app, Key { code: KeyCode::Char('A'), ctrl: false, shift: true });
    handle_key(&mut app, Key { code: KeyCode::Char('A'), ctrl: false, shift: true });
    assert_eq!(app.selected_song, 2);
}

#[test]
fn single_mode_restarts_instead_of_moving() {
    let mut app = loaded();
    app.engine.play_mode = PlayMode::Single;
    handle_key(&mut app, key('j'));
    assert_eq!(app.selected_song, 0);
    let fx = app.engine.take_effects();
    assert_eq!(fx.len(), 1);
    assert_eq!(fx[0].kind, EffectKind::RestartSong);
}

#[test]
fn loving_the_highlighted_song() {
    let mut app = loaded();
    handle_key(&mut app, key('j'));
    handle_key(&mut app, key('s'));
    assert!(app.engine.is_loved("s1"));
    assert_eq!(app.engine.loved.loved_cids[0].name, "Song s1");
    handle_key(&mut app, key('s'));
    assert!(!app.engine.is_loved("s1"));
}

#[test]
fn loved_view_starts_at_the_first_row() {
    let mut app = loaded();
    app.selected_song = 2;
    app.engine.play_mode = PlayMode::LoveList;
    app.update(nothing());
    assert!(app.is_love_view);
    assert_eq!(app.selected_song, 0);
}

#[test]
fn typing_a_search() {
    let mut app = loaded();
    handle_key(&mut app, key('/'));
    assert!(app.search_mode);
    // The full song list was asked for by the first frame already.
    assert!(app.engine.queue.all_songs_pending);
    assert!(app.engine.take_effects().is_empty());
    app.update(FrameInput {
        all_songs: Some(Ok(vec![
            Song { cid: s("s1"), name: s("Alpha"), album_cid: s("a0"), artists: vec![] },
            Song { cid: s("s9"), name: s("Alphabet"), album_cid: s("a1"), artists: vec![] },
            Song { cid: s("s7"), name: s("Beta"), album_cid: s("a1"), artists: vec![] },
        ])),
        ..nothing()
    });
    for c in "alp".chars() {
        handle_key(&mut app, key(c));
    }
    assert_eq!(app.search_query, "alp");
    assert_eq!(app.search_results.len(), 2);
    handle_key(&mut app, code(KeyCode::Backspace));
    assert_eq!(app.search_query, "al");
    handle_key(&mut app, key('j'));
    assert_eq!(app.search_index, 1);
    handle_key(&mut app, key('j'));
    assert_eq!(app.search_index, 0);
    handle_key(&mut app, code(KeyCode::Esc));
    assert!(!app.search_mode);
    assert!(app.search_query.is_empty());
    assert!(app.search_results.is_empty());
}

#[test]
fn two_enters_jump_to_the_album() {
    let mut app = loaded();
    handle_key(&mut app, key('/'));
    app.update(FrameInput {
        all_songs: Some(Ok(vec![
            Song { cid: s("s9"), name: s("Alphabet"), album_cid: s("a1"), artists: vec![] },
            Song { cid: s("s8"), name: s("Alphabet soup"), album_cid: s("a1"), artists: vec![] },
        ])),
        ..nothing()
    });
    for c in "alpha".chars() {
        handle_key(&mut app, key(c));
    }
    assert_eq!(app.search_results.len(), 2);
    handle_key(&mut app, code(KeyCode::Enter));
    assert!(app.search_confirmed);
    assert_eq!(app.search_query, "Alphabet");
    assert!(app.search_mode);
    handle_key(&mut app, code(KeyCode::Enter));
    assert!(!app.search_mode);
    assert_eq!(app.engine.catalog.album_index, 1);
    assert_eq!(app.engine.catalog.pending_jump_cid.as_deref(), Some("s9"));
}

#[test]
fn a_single_result_jumps_on_the_first_enter() {
    let mut app = loaded();
    handle_key(&mut app, key('/'));
    app.update(FrameInput {
        all_songs: Some(Ok(vec![Song { cid: s("s7"), name: s("Beta"), album_cid: s("a1"), artists: vec![] }])),
        ..nothing()
    });
    handle_key(&mut app, key('b'));
    handle_key(&mut app, code(KeyCode::Enter));
    assert!(!app.search_mode);
    assert_eq!(app.engine.catalog.album_index, 1);
}
