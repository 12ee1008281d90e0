use monster_player::kernel::{shuffle_by, shuffle_songs, Effect, EffectKind, Engine, FrameInput, LovedEntry, PlayMode, PlayerStatus};
use monster_player::types::{Album, AlbumDetail, AlbumSong, Song, SongDetail};

fn s(x: &str) -> String {
    x.to_string()
}

fn album(cid: &str, name: &str) -> Album {
    Album { cid: s(cid), name: s(name), cover_url: s("c"), artistes: vec![s("X"), s("Y")] }
}

fn detail(cid: &str, songs: &[&str]) -> AlbumDetail {
    AlbumDetail {
        cid: s(cid),
        name: format!("Album {cid}"),
        intro: format!("Intro {cid}"),
        belong: s("arknights"),
        cover_url: s("c"),
        cover_de_url: s("d"),
        songs: songs.iter().map(|c| AlbumSong { cid: s(c), name: format!("Song {c}"), artistes: vec![s("Z")] }).collect(),
    }
}

fn song_detail(cid: &str, album_cid: &str, lyric: Option<&str>) -> SongDetail {
    SongDetail {
        cid: s(cid),
        name: format!("Song {cid}"),
        album_cid: s(album_cid),
        source_url: format!("https://res/{cid}.wav"),
        lyric_url: lyric.map(s),
        mv_url: None,
        mv_cover_url: None,
        artists: vec![s("Z")],
    }
}

fn nothing() -> FrameInput {
    FrameInput {
        albums: None,
        detail: None,
        song: None,
        all_songs: None,
        lyrics: None,
        stream_len: 0,
        stream_done: false,
        player: None,
    }
}

fn kinds(fx: &[Effect]) -> Vec<(EffectKind, String)> {
    fx.iter().map(|e| (e.kind, e.arg.clone())).collect()
}

/// An engine with three albums, the first one's two songs loaded.
fn loaded() -> Engine {
    let mut e = Engine::new(Vec::new());
    e.update(nothing());
    e.update(FrameInput { albums: Some(Ok(vec![album("a0", "A0"), album("a1", "A1"), album("a2", "A2")])), ..nothing() });
    e.update(FrameInput { detail: Some(Ok(detail("a0", &["s0", "s1"]))), ..nothing() });
    e.take_effects();
    e
}

#[test]
fn a_fresh_engine() {
    let e = Engine::new(Vec::new());
    assert_eq!(e.now.volume, 50);
    assert!(!e.now.playing);
    assert_eq!(e.play_mode, PlayMode::AlbumList);
    assert!(e.catalog.albums.is_empty());
    assert!(e.outbox.is_empty());
}

#[test]
fn first_frame_asks_for_the_albums_once() {
    let mut e = Engine::new(Vec::new());
    e.update(nothing());
    assert_eq!(
        kinds(&e.take_effects()),
        vec![(EffectKind::FetchAlbums, s("")), (EffectKind::FetchAllSongs, s(""))]
    );
    assert!(e.catalog.albums_pending);
    assert!(e.queue.all_songs_pending);
    e.update(nothing());
    assert!(e.take_effects().is_empty());
}

#[test]
fn albums_arrive_and_the_first_is_selected() {
    let mut e = Engine::new(Vec::new());
    e.update(nothing());
    e.take_effects();
    e.update(FrameInput { albums: Some(Ok(vec![album("a0", "A0"), album("a1", "A1"), album("a2", "A2")])), ..nothing() });
    assert_eq!(e.catalog.albums.len(), 3);
    assert_eq!(e.catalog.album_total, 3);
    assert_eq!(e.catalog.album_name.as_deref(), Some("A0"));
    assert_eq!(e.catalog.album_artist.as_deref(), Some("X, Y"));
    assert!(e.catalog.detail_pending);
    assert_eq!(
        kinds(&e.take_effects()),
        vec![
            (EffectKind::FetchAlbumDetail, s("a0")),
            (EffectKind::PreloadAlbumDetail, s("a2")),
            (EffectKind::PreloadAlbumDetail, s("a1")),
            (EffectKind::PreloadAlbumDetail, s("a1")),
            (EffectKind::PreloadAlbumDetail, s("a2")),
        ]
    );
}

#[test]
fn failed_album_list_can_be_asked_again() {
    let mut e = Engine::new(Vec::new());
    e.update(nothing());
    e.take_effects();
    e.update(FrameInput { albums: Some(Err(s("offline"))), ..nothing() });
    assert!(!e.catalog.albums_pending);
    e.update(nothing());
    assert_eq!(kinds(&e.take_effects()), vec![(EffectKind::FetchAlbums, s(""))]);
}

#[test]
fn album_details_give_the_songs() {
    let e = loaded();
    assert!(e.catalog.songs_loaded);
    assert_eq!(e.catalog.songs.len(), 2);
    assert_eq!(e.catalog.songs[1].cid, "s1");
    assert_eq!(e.catalog.detail_cache.len(), 1);
}

#[test]
fn album_navigation_wraps_and_returns() {
    let mut e = loaded();
    e.prev_album();
    assert_eq!(e.catalog.album_index, 2);
    assert_eq!(e.catalog.album_name.as_deref(), Some("A2"));
    e.next_album();
    assert_eq!(e.catalog.album_index, 0);
    // Album a0 is cached: its songs are back at once.
    assert!(e.catalog.songs_loaded);
    assert_eq!(e.catalog.songs[0].cid, "s0");
    e.next_album();
    e.next_album();
    e.next_album();
    assert_eq!(e.catalog.album_index, 0);
}

#[test]
fn playing_a_song_asks_for_its_details_then_downloads() {
    let mut e = loaded();
    e.play_song_at(1);
    assert_eq!(e.now.current_song_index, Some(1));
    assert!(e.now.song_pending);
    assert_eq!(kinds(&e.take_effects()), vec![(EffectKind::FetchSongDetail, s("s1"))]);
    e.update(FrameInput { song: Some(Ok(song_detail("s1", "a0", Some("https://lrc/s1.lrc")))), ..nothing() });
    assert!(e.now.buffering);
    assert_eq!(e.now.song_info.as_deref(), Some("Song: Song s1 - Z"));
    assert_eq!(e.now.buffering_msg.as_deref(), Some("Buffering: Song s1 - Z"));
    assert_eq!(e.now.album_intro.as_deref(), Some("Intro a0"));
    assert_eq!(
        kinds(&e.take_effects()),
        vec![
            (EffectKind::StopPlayback, s("")),
            (EffectKind::CancelDownload, s("")),
            (EffectKind::FetchLyrics, s("https://lrc/s1.lrc")),
            (EffectKind::EnsurePlayer, s("")),
            (EffectKind::StartDownload, s("https://res/s1.wav")),
        ]
    );
}

#[test]
fn an_index_past_the_album_changes_nothing() {
    let mut e = loaded();
    e.play_song_at(5);
    assert_eq!(e.now.current_song_index, None);
    assert!(e.take_effects().is_empty());
}

#[test]
fn the_stream_starts_after_the_first_chunk() {
    let mut e = loaded();
    e.play_song_at(0);
    e.update(FrameInput { song: Some(Ok(song_detail("s0", "a0", None))), ..nothing() });
    e.take_effects();
    let player = Some(PlayerStatus { is_empty: true, elapsed_ms: 0 });
    e.update(FrameInput { stream_len: 1024, player, ..nothing() });
    assert!(e.take_effects().is_empty());
    e.update(FrameInput { stream_len: 8 * 1024 * 1024, player, ..nothing() });
    assert_eq!(kinds(&e.take_effects()), vec![(EffectKind::StartStream, s(""))]);
    e.on_stream_started(true);
    assert!(e.now.playing);
    assert_eq!(e.now.current_song_name.as_deref(), Some("Song s0 - Z"));
    assert_eq!(e.now.current_song_cid.as_deref(), Some("s0"));
    e.update(FrameInput {
        stream_len: 9 * 1024 * 1024,
        stream_done: true,
        player: Some(PlayerStatus { is_empty: false, elapsed_ms: 100 }),
        ..nothing()
    });
    assert!(!e.now.buffering);
    assert!(e.now.has_wav_data);
    assert_eq!(kinds(&e.take_effects()), vec![(EffectKind::SwitchStream, s(""))]);
}

#[test]
fn lyrics_arrive_and_follow_playback() {
    let mut e = loaded();
    e.play_song_at(0);
    e.update(FrameInput { song: Some(Ok(song_detail("s0", "a0", Some("u")))), ..nothing() });
    e.take_effects();
    assert!(e.lyric.lyric_pending);
    e.update(FrameInput { lyrics: Some(Ok(s("[00:02]two\n[00:01]one\n"))), ..nothing() });
    assert_eq!(e.lyric.lyrics.len(), 2);
    assert_eq!(e.lyric.lyrics[0].text, "one");
    e.update(FrameInput { player: Some(PlayerStatus { is_empty: false, elapsed_ms: 2_500 }), ..nothing() });
    assert_eq!(e.lyric.lyric_index, 1);
}

#[test]
fn volume_steps_and_bounds() {
    let mut e = Engine::new(Vec::new());
    e.volume_up();
    assert_eq!(e.now.volume, 55);
    e.volume_down();
    assert_eq!(e.now.volume, 50);
    for _ in 0..20 {
        e.volume_up();
    }
    assert_eq!(e.now.volume, 100);
    for _ in 0..30 {
        e.volume_down();
    }
    assert_eq!(e.now.volume, 0);
    assert!(e.take_effects().iter().all(|f| f.kind == EffectKind::SetVolume));
}

#[test]
fn seven_mode_changes_come_back() {
    let mut e = Engine::new(Vec::new());
    let order = [
        PlayMode::AlbumRandom,
        PlayMode::GlobalList,
        PlayMode::GlobalRandom,
        PlayMode::Single,
        PlayMode::LoveList,
        PlayMode::LoveRandom,
        PlayMode::AlbumList,
    ];
    for m in order {
        e.cycle_mode();
        assert_eq!(e.play_mode, m);
    }
    // Entering the global list asked for the full song list once.
    let fx = e.take_effects();
    assert_eq!(fx.iter().filter(|f| f.kind == EffectKind::FetchAllSongs).count(), 1);
}

#[test]
fn loving_twice_restores_the_loved_songs() {
    let start = vec![LovedEntry { cid: s("1"), name: s("One"), artists: vec![] }];
    let mut e = Engine::new(start);
    assert!(e.is_loved("1"));
    assert!(!e.is_loved("2"));
    e.toggle_love("2", "Two", &vec![s("B")]);
    assert!(e.is_loved("2"));
    assert_eq!(e.loved.loved_list.len(), 2);
    e.toggle_love("2", "Two", &vec![s("B")]);
    assert!(!e.is_loved("2"));
    assert_eq!(e.loved.loved_cids.len(), 1);
    assert_eq!(e.loved.loved_cids[0].cid, "1");
    assert_eq!(kinds(&e.take_effects()), vec![(EffectKind::SaveLoved, s("")), (EffectKind::SaveLoved, s(""))]);
}

#[test]
fn duplicate_loved_entries_are_kept_once() {
    let start = vec![
        LovedEntry { cid: s("1"), name: s("One"), artists: vec![] },
        LovedEntry { cid: s("1"), name: s("Again"), artists: vec![] },
    ];
    let e = Engine::new(start);
    assert_eq!(e.loved.loved_cids.len(), 1);
}

#[test]
fn searching_ignores_case_and_matches_artists_and_albums() {
    let mut e = loaded();
    e.fetch_all_songs();
    e.update(FrameInput {
        all_songs: Some(Ok(vec![
            Song { cid: s("x1"), name: s("Lullabye"), album_cid: s("a1"), artists: vec![s("Q")] },
            Song { cid: s("x2"), name: s("Other"), album_cid: s("a2"), artists: vec![s("Lulu")] },
            Song { cid: s("x3"), name: s("Third"), album_cid: s("zz"), artists: vec![s("W")] },
        ])),
        ..nothing()
    });
    let hits: Vec<String> = e.search_songs("LUL").into_iter().map(|x| x.cid).collect();
    assert_eq!(hits, vec![s("x1"), s("x2")]);
    let by_album: Vec<String> = e.search_songs("a2").into_iter().map(|x| x.cid).collect();
    assert_eq!(by_album, vec![s("x2")]);
    assert!(e.search_songs("").is_empty());
}

#[test]
fn jumping_to_a_song_selects_its_album() {
    let mut e = loaded();
    e.fetch_all_songs();
    e.update(FrameInput {
        all_songs: Some(Ok(vec![Song { cid: s("t9"), name: s("N"), album_cid: s("a2"), artists: vec![] }])),
        ..nothing()
    });
    assert!(!e.jump_to_song("unknown"));
    assert!(e.jump_to_song("t9"));
    assert_eq!(e.catalog.album_index, 2);
    assert_eq!(e.catalog.pending_jump_cid.as_deref(), Some("t9"));
    e.update(FrameInput { detail: Some(Ok(detail("a2", &["t1", "t9"]))), ..nothing() });
    assert_eq!(e.now.current_song_index, Some(1));
    assert_eq!(e.catalog.pending_jump_cid, None);
}

#[test]
fn pause_and_seek_requests() {
    let mut e = Engine::new(Vec::new());
    e.toggle_pause();
    e.seek_forward();
    e.seek_backward();
    e.restart_song();
    assert_eq!(
        kinds(&e.take_effects()),
        vec![
            (EffectKind::TogglePause, s("")),
            (EffectKind::SeekForward, s("")),
            (EffectKind::SeekBackward, s("")),
            (EffectKind::RestartSong, s("")),
        ]
    );
    e.on_pause_state(false);
    assert!(e.now.playing);
    e.on_pause_state(true);
    assert!(!e.now.playing);
}

#[test]
fn the_global_queue_plays_each_song_once_per_round() {
    let mut e = loaded();
    e.cycle_mode();
    e.cycle_mode();
    assert_eq!(e.play_mode, PlayMode::GlobalList);
    e.update(FrameInput {
        all_songs: Some(Ok(vec![
            Song { cid: s("g0"), name: s("G0"), album_cid: s("a0"), artists: vec![] },
            Song { cid: s("g1"), name: s("G1"), album_cid: s("a1"), artists: vec![] },
            Song { cid: s("g2"), name: s("G2"), album_cid: s("a2"), artists: vec![] },
        ])),
        ..nothing()
    });
    assert_eq!(e.queue.global_playlist.len(), 3);
    assert_eq!(e.queue.global_index, 0);
    let mut seen = Vec::new();
    for _ in 0..3 {
        e.play_next_global();
        seen.push(e.queue.global_index);
    }
    assert_eq!(seen, vec![1, 2, 0]);
}

#[test]
fn the_shuffled_queue_holds_every_song_once() {
    let mut e = loaded();
    e.cycle_mode();
    e.cycle_mode();
    let list: Vec<Song> = (0..20)
        .map(|i| Song { cid: format!("g{i}"), name: format!("G{i}"), album_cid: s("a0"), artists: vec![] })
        .collect();
    e.update(FrameInput { all_songs: Some(Ok(list)), ..nothing() });
    e.cycle_mode();
    assert_eq!(e.play_mode, PlayMode::GlobalRandom);
    let mut cids: Vec<String> = e.queue.global_playlist.iter().map(|x| x.cid.clone()).collect();
    cids.sort();
    let mut want: Vec<String> = (0..20).map(|i| format!("g{i}")).collect();
    want.sort();
    assert_eq!(cids, want);
}

fn three_songs() -> Vec<Song> {
    ["a", "b", "c"]
        .iter()
        .map(|c| Song { cid: s(c), name: s(c), album_cid: s("a0"), artists: vec![] })
        .collect()
}

#[test]
fn a_shuffle_follows_its_picks() {
    let mut v = three_songs();
    shuffle_by(&mut v, &vec![0, 0]);
    let cids: Vec<String> = v.iter().map(|x| x.cid.clone()).collect();
    assert_eq!(cids, vec![s("b"), s("c"), s("a")]);
    let mut w = three_songs();
    shuffle_by(&mut w, &vec![2, 1]);
    let cids: Vec<String> = w.iter().map(|x| x.cid.clone()).collect();
    assert_eq!(cids, vec![s("a"), s("b"), s("c")]);
}

#[test]
fn a_random_shuffle_keeps_the_songs() {
    let mut v = three_songs();
    shuffle_songs(&mut v);
    let mut cids: Vec<String> = v.iter().map(|x| x.cid.clone()).collect();
    cids.sort();
    assert_eq!(cids, vec![s("a"), s("b"), s("c")]);
}

#[test]
fn a_download_done_before_the_first_chunk_starts_and_keeps_the_full_track() {
    let mut e = loaded();
    e.play_song_at(0);
    e.update(FrameInput { song: Some(Ok(song_detail("s0", "a0", None))), ..nothing() });
    e.take_effects();
    let player = Some(PlayerStatus { is_empty: true, elapsed_ms: 0 });
    e.update(FrameInput { stream_len: 2048, stream_done: true, player, ..nothing() });
    assert!(!e.now.buffering);
    assert_eq!(e.now.buffering_msg, None);
    assert!(e.now.has_wav_data);
    assert!(e.now.stream_switched);
    assert_eq!(
        kinds(&e.take_effects()),
        vec![(EffectKind::StartStream, s("")), (EffectKind::SwitchStream, s(""))]
    );
    e.on_stream_started(true);
    assert!(e.now.playing);
    assert_eq!(e.now.current_song_name.as_deref(), Some("Song s0 - Z"));
    assert_eq!(e.now.current_song_cid.as_deref(), Some("s0"));
    assert!(e.now.pending_song.is_none());
}

#[test]
fn a_more_specific_search_never_adds_results() {
    let mut e = loaded();
    e.fetch_all_songs();
    e.update(FrameInput {
        all_songs: Some(Ok(vec![
            Song { cid: s("x1"), name: s("Lullabye"), album_cid: s("a1"), artists: vec![s("Q")] },
            Song { cid: s("x2"), name: s("Other"), album_cid: s("a2"), artists: vec![s("Lulu")] },
            Song { cid: s("x3"), name: s("Third"), album_cid: s("zz"), artists: vec![s("W")] },
        ])),
        ..nothing()
    });
    let broad: Vec<String> = e.search_songs("l").into_iter().map(|x| x.cid).collect();
    let narrow: Vec<String> = e.search_songs("LULLA").into_iter().map(|x| x.cid).collect();
    assert_eq!(broad, vec![s("x1"), s("x2")]);
    assert_eq!(narrow, vec![s("x1")]);
}
