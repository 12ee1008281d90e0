use monster_player::gui_view::{
    album_card_lines, cover_change, clock_label, global_heading, list_rows, lyric_window, play_state, popup_query, popup_rows, short_name,
    status_name_text, volume_label, wheel_step, WheelStep,
};
use monster_player::kernel::{Engine, FrameInput, PlayMode};
use monster_player::types::{Album, Song};

#[test]
fn status_card_texts() {
    assert_eq!(play_state(true), "\u{25b6} 播放中");
    assert_eq!(play_state(false), "O 已暂停");
    assert_eq!(volume_label(35), "音量: 35%");
    assert_eq!(clock_label(61, Some(3600)), "01:01 / 60:00");
    assert_eq!(clock_label(0, None), "00:00");
}

#[test]
fn long_names_are_cut() {
    assert_eq!(short_name("short name"), "short name");
    assert_eq!(short_name("exactly 15 byte"), "exactly 15 byte");
    assert_eq!(short_name("sixteen bytes!!!"), "sixteen byte...");
    // Six CJK characters are eighteen bytes: cut, but all six fit in twelve.
    assert_eq!(short_name("塞壬唱片音乐"), "塞壬唱片音乐...");
    assert_eq!(short_name(""), "");
}

#[test]
fn status_name_follows_buffering() {
    let mut e = Engine::new(Vec::new());
    assert_eq!(status_name_text(&e), "");
    e.now.current_song_name = Some("Song".to_string());
    assert_eq!(status_name_text(&e), "Song");
    e.now.buffering = true;
    assert_eq!(status_name_text(&e), "");
    e.now.buffering_msg = Some("Buffering: Song".to_string());
    assert_eq!(status_name_text(&e), "Buffering: Song");
}

#[test]
fn search_pop_up_texts() {
    assert_eq!(popup_query("", false), "Type to search...");
    assert_eq!(popup_query("月", false), "月█");
    assert_eq!(popup_query("月", true), "月 ✓");
    let results: Vec<Song> = (0..8)
        .map(|i| Song { cid: format!("{i}"), name: format!("N{i}"), album_cid: String::new(), artists: vec!["A".to_string()] })
        .collect();
    let rows = popup_rows(&results, 2);
    assert_eq!(rows.len(), 6);
    assert_eq!(rows[2], ("> N2 - A".to_string(), true));
    assert_eq!(rows[5], ("  N5 - A".to_string(), false));
}

#[test]
fn headings_and_windows() {
    assert_eq!(global_heading(PlayMode::GlobalList, 3), "Global List (3)");
    assert_eq!(global_heading(PlayMode::GlobalRandom, 0), "Global Random (0)");
    assert_eq!(global_heading(PlayMode::Single, 7), "Global (7)");
    assert_eq!(list_rows(2), 5);
    assert_eq!(list_rows(9), 9);
    assert_eq!(lyric_window(10, 3), (0, 10));
    assert_eq!(lyric_window(100, 50), (40, 60));
    assert_eq!(lyric_window(100, 99), (80, 100));
}

#[test]
fn album_card() {
    let mut e = Engine::new(Vec::new());
    assert!(album_card_lines(&e).is_empty());
    e.catalog.album_name = Some("Album".to_string());
    e.now.song_info = Some("Song: S - A".to_string());
    e.catalog.album_total = 2;
    assert_eq!(album_card_lines(&e), vec!["Album", "Song: S - A", "[1/2]"]);
}

#[test]
fn wheel_turns() {
    assert_eq!(wheel_step(1), WheelStep::NextSong);
    assert_eq!(wheel_step(-1), WheelStep::PrevSong);
    assert_eq!(wheel_step(0), WheelStep::Nothing);
}

#[test]
fn cover_to_load() {
    let mut e = Engine::new(Vec::new());
    assert_eq!(cover_change(&e, &None), None);
    e.update(FrameInput {
        albums: None,
        detail: None,
        song: None,
        all_songs: None,
        lyrics: None,
        stream_len: 0,
        stream_done: false,
        player: None,
    });
    e.update(FrameInput {
        albums: Some(Ok(vec![Album {
            cid: "a".to_string(),
            name: "A".to_string(),
            cover_url: "https://web.hycdn.cn/siren/pic/a.jpg".to_string(),
            artistes: vec![],
        }])),
        detail: None,
        song: None,
        all_songs: None,
        lyrics: None,
        stream_len: 0,
        stream_done: false,
        player: None,
    });
    let url = "https://web.hycdn.cn/siren/pic/a.jpg".to_string();
    assert_eq!(cover_change(&e, &None), Some(url.clone()));
    assert_eq!(cover_change(&e, &Some(url.clone())), None);
    assert_eq!(cover_change(&e, &Some("other".to_string())), Some(url));
}
