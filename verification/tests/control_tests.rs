use monster_player::control::{c_buffer, mode_code, mode_count, mode_from_code, search_result_text, set_play_mode, toggle_current_love};
use monster_player::kernel::{Engine, EffectKind, PlayMode};
use monster_player::types::Song;

#[test]
fn mode_numbers_round_trip() {
    assert_eq!(mode_count(), 7);
    let modes = [
        PlayMode::AlbumList,
        PlayMode::AlbumRandom,
        PlayMode::GlobalList,
        PlayMode::GlobalRandom,
        PlayMode::Single,
        PlayMode::LoveList,
        PlayMode::LoveRandom,
    ];
    for (i, m) in modes.iter().enumerate() {
        assert_eq!(mode_code(*m), i as u32);
        assert_eq!(mode_from_code(i as u32), Some(*m));
    }
    assert_eq!(mode_from_code(7), None);
    assert_eq!(mode_from_code(u32::MAX), None);
}

#[test]
fn setting_the_mode_by_number() {
    let mut e = Engine::new(Vec::new());
    assert!(set_play_mode(&mut e, 4));
    assert_eq!(e.play_mode, PlayMode::Single);
    assert!(!set_play_mode(&mut e, 9));
    assert_eq!(e.play_mode, PlayMode::Single);
}

#[test]
fn text_for_a_c_buffer() {
    assert_eq!(c_buffer("hello", 0), Vec::<u8>::new());
    assert_eq!(c_buffer("hello", 1), vec![0]);
    assert_eq!(c_buffer("hello", 3), vec![b'h', b'e', 0]);
    assert_eq!(c_buffer("hi", 10), vec![b'h', b'i', 0]);
    assert_eq!(c_buffer("é", 2), vec![0xC3, 0]);
}

#[test]
fn search_result_entries() {
    let mut e = Engine::new(Vec::new());
    e.queue.all_songs.push(Song {
        cid: "1".to_string(),
        name: "Song".to_string(),
        album_cid: "a".to_string(),
        artists: vec!["A".to_string(), "B".to_string()],
    });
    assert_eq!(search_result_text(&e, 0), Some("Song - A, B".to_string()));
    assert_eq!(search_result_text(&e, 1), None);
}

#[test]
fn loving_the_current_song() {
    let mut e = Engine::new(Vec::new());
    toggle_current_love(&mut e);
    assert!(e.take_effects().is_empty());
    e.now.current_song_name = Some("Song".to_string());
    e.now.current_song_cid = Some("42".to_string());
    toggle_current_love(&mut e);
    assert!(e.is_loved("42"));
    let fx = e.take_effects();
    assert_eq!(fx.len(), 1);
    assert_eq!(fx[0].kind, EffectKind::SaveLoved);
    assert!(e.loved.loved_cids[0].artists.is_empty());
    toggle_current_love(&mut e);
    assert!(!e.is_loved("42"));
}
