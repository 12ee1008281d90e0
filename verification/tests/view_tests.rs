use monster_player::kernel::{Engine, PlayMode};
use monster_player::lyrics::{LrcTime, LyricLine};
use monster_player::types::Song;
use monster_player::view::{
    album_info_lines, clock_text, entry_row, loved_header, lyric_lines, mode_label, page_label, row_tone, search_input_text,
    search_result_lines, status_lines, visible_window, Tone,
};

fn song(cid: &str, name: &str, artists: &[&str]) -> Song {
    Song {
        cid: cid.to_string(),
        name: name.to_string(),
        album_cid: "a1".to_string(),
        artists: artists.iter().map(|s| s.to_string()).collect(),
    }
}

#[test]
fn window_shows_everything_that_fits() {
    assert_eq!(visible_window(5, 3, 10), (0, 5));
    assert_eq!(visible_window(0, 0, 10), (0, 0));
    assert_eq!(visible_window(5, 0, 1), (0, 0));
}

#[test]
fn window_centres_the_focus_and_stops_at_the_end() {
    // 20 entries, 10 rows (height 12).
    assert_eq!(visible_window(20, 0, 12), (0, 10));
    assert_eq!(visible_window(20, 9, 12), (4, 14));
    assert_eq!(visible_window(20, 19, 12), (10, 20));
    for focus in 0..20 {
        let (s, e) = visible_window(20, focus, 12);
        assert!(s <= focus && focus < e);
        assert_eq!(e - s, 10);
    }
}

#[test]
fn row_tones() {
    assert_eq!(row_tone(true, true), Tone::Cyan);
    assert_eq!(row_tone(false, true), Tone::White);
    assert_eq!(row_tone(false, false), Tone::Gray);
}

#[test]
fn song_rows() {
    let artists = vec!["塞壬唱片-MSR".to_string(), "Someone".to_string()];
    assert_eq!(entry_row(true, "Song", &artists), "> Song - 塞壬唱片-MSR, Someone");
    assert_eq!(entry_row(false, "Song", &Vec::new()), "  Song - ");
}

#[test]
fn mode_labels() {
    assert_eq!(mode_label(PlayMode::AlbumList), "专辑列表");
    assert_eq!(mode_label(PlayMode::GlobalRandom), "全局随机");
    assert_eq!(mode_label(PlayMode::Single), "单曲循环");
    assert_eq!(mode_label(PlayMode::LoveRandom), "收藏随机");
}

#[test]
fn clock_lines() {
    assert_eq!(clock_text(75, Some(200)), "01:15/03:20");
    assert_eq!(clock_text(5, None), "00:05");
    assert_eq!(clock_text(6000, Some(0)), "100:00/00:00");
}

#[test]
fn page_of_album() {
    assert_eq!(page_label(0, 5), Some("[1/5]".to_string()));
    assert_eq!(page_label(41, 42), Some("[42/42]".to_string()));
    assert_eq!(page_label(0, 1), None);
    assert_eq!(page_label(0, 0), None);
}

#[test]
fn status_panel_lines() {
    let mut e = Engine::new(Vec::new());
    assert_eq!(status_lines(&e), vec!["O Paused", "专辑列表", "Volume: 50%", "Ctrl+T for help"]);
    e.now.playing = true;
    e.now.current_song_name = Some("Song".to_string());
    e.now.volume = 100;
    assert_eq!(status_lines(&e), vec!["O Playing", "Song", "专辑列表", "Volume: 100%", "Ctrl+T for help"]);
    e.now.buffering = true;
    e.now.buffering_msg = Some("Buffering: Song".to_string());
    e.play_mode = PlayMode::Single;
    assert_eq!(status_lines(&e)[1], "Buffering: Song");
    assert_eq!(status_lines(&e)[2], "单曲循环");
}

#[test]
fn album_header_lines() {
    let mut e = Engine::new(Vec::new());
    assert_eq!(album_info_lines(&e), vec!["Loading..."]);
    e.catalog.album_name = Some("Album".to_string());
    e.catalog.album_artist = Some("Artist".to_string());
    e.catalog.album_total = 3;
    e.catalog.album_index = 1;
    assert_eq!(album_info_lines(&e), vec!["Album", "Artist", "[2/3]"]);
}

#[test]
fn search_box_lines() {
    assert_eq!(search_input_text("月行"), "/ 月行█");
    let results: Vec<Song> = (0..7).map(|i| song(&format!("s{i}"), &format!("Song {i}"), &["A"])).collect();
    let lines = search_result_lines(&results, 1, "song");
    assert_eq!(lines.len(), 5);
    assert_eq!(lines[0], ("  Song 0 - A".to_string(), Tone::Gray));
    assert_eq!(lines[1], ("> Song 1 - A".to_string(), Tone::White));
    let none = search_result_lines(&Vec::new(), 0, "zzz");
    assert_eq!(none, vec![("  No results".to_string(), Tone::DarkGray)]);
    assert!(search_result_lines(&Vec::new(), 0, "").is_empty());
}

#[test]
fn lyric_panel_lines() {
    assert_eq!(lyric_lines(&Vec::new(), 0, 10, true), vec![("No lyrics available".to_string(), Tone::DarkGray)]);
    assert_eq!(lyric_lines(&Vec::new(), 0, 10, false), vec![("No song playing".to_string(), Tone::DarkGray)]);
    let lines: Vec<LyricLine> = (0..3).map(|i| LyricLine { time: LrcTime::from_ms(i * 1000), text: format!("l{i}") }).collect();
    let shown = lyric_lines(&lines, 1, 10, true);
    assert_eq!(
        shown,
        vec![
            ("  l0".to_string(), Tone::White),
            ("> l1".to_string(), Tone::CyanBold),
            ("  l2".to_string(), Tone::White),
        ]
    );
}

#[test]
fn loved_heading() {
    assert_eq!(loved_header(0), "Loved Songs (0)");
    assert_eq!(loved_header(12), "Loved Songs (12)");
}
