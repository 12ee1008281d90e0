use monster_player::gui::App;
use monster_player::kernel::{EffectKind, FrameInput, LovedEntry, PlayMode};
use monster_player::types::{Album, AlbumDetail, AlbumSong};

fn s(x: &str) -> String {
    x.to_string()
}

fn nothing() -> FrameInput {
    FrameInput {
        albums: None,
        detail: None,
        song: None,
        all_songs: None,
        lyrics: None,
        stream_len: 0,
        stream_done: false,
        player: None,
    }
}

fn loaded() -> App {
    let mut app = App::new(vec![LovedEntry { cid: s("l0"), name: s("Loved"), artists: vec![] }]);
    app.update(nothing());
    let albums = vec![Album { cid: s("a0"), name: s("First"), cover_url: s(""), artistes: vec![] }];
    app.update(FrameInput { albums: Some(Ok(albums)), ..nothing() });
    let d = AlbumDetail {
        cid: s("a0"),
        name: s("First"),
        intro: s(""),
        belong: s(""),
        cover_url: s(""),
        cover_de_url: s(""),
        songs: ["s0", "s1"].iter().map(|c| AlbumSong { cid: s(c), name: s(c), artistes: vec![] }).collect(),
    };
    app.update(FrameInput { detail: Some(Ok(d)), ..nothing() });
    app.engine.take_effects();
    app
}

#[test]
fn gui_rows_wrap() {
    let mut app = loaded();
    app.prev_song();
    assert_eq!(app.selected_song, 1);
    app.next_song();
    assert_eq!(app.selected_song, 0);
}

#[test]
fn gui_plays_the_highlighted_row() {
    let mut app = loaded();
    app.next_song();
    app.play_selected();
    let fx = app.engine.take_effects();
    assert_eq!(fx[0].kind, EffectKind::FetchSongDetail);
    assert_eq!(fx[0].arg, "s1");
}

#[test]
fn gui_loved_view_lists_the_loved_songs() {
    let mut app = loaded();
    app.cycle_mode();
    app.cycle_mode();
    app.cycle_mode();
    app.cycle_mode();
    app.cycle_mode();
    assert_eq!(app.engine.play_mode, PlayMode::LoveList);
    app.update(nothing());
    assert!(app.is_love_view);
    app.next_song();
    assert_eq!(app.selected_song, 0);
    app.toggle_love();
    assert!(!app.engine.is_loved("l0"));
}

#[test]
fn gui_panels() {
    let mut app = App::new(Vec::new());
    app.toggle_help();
    app.toggle_lyrics();
    assert!(app.show_help && app.show_lyrics);
}
