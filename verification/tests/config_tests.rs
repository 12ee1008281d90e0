use monster_player::config::{
    default_buffer_mb, default_lang, default_theme, default_true, default_volume, Config, EngineConfig, Features, Keybindings, UiConfig,
};

#[test]
fn default_helpers() {
    assert_eq!(default_buffer_mb(), 8);
    assert_eq!(default_volume(), 80);
    assert_eq!(default_theme(), "tokyonight");
    assert_eq!(default_lang(), "en");
    assert!(default_true());
}

#[test]
fn default_config() {
    let c = Config::default();
    assert_eq!(c.engine.buffer_size_mb, 8);
    assert_eq!(c.engine.default_volume, 80);
    assert!(c.engine.auto_advance);
    assert_eq!(c.ui.theme, "tokyonight");
    assert!(c.ui.show_lyrics);
    assert_eq!(c.ui.language, "en");
    assert!(c.features.enable_favorites && c.features.enable_global_playlist);
    assert!(c.features.enable_streaming && c.features.enable_lyrics);
}

#[test]
fn default_keybindings() {
    let k = Keybindings::default();
    let got = [
        &k.play_selected, &k.toggle_pause, &k.next_song, &k.prev_song, &k.next_album, &k.prev_album,
        &k.cycle_mode, &k.toggle_love, &k.toggle_lyrics, &k.search, &k.volume_up, &k.volume_down,
        &k.seek_forward, &k.seek_backward, &k.play_next, &k.play_prev, &k.settings,
    ];
    let want = ["Space", "x", "j", "k", "l", "h", "e", "s", "v", "/", "p", "o", "d", "a", "Shift+D", "Shift+A", "Ctrl+T"];
    for (g, w) in got.iter().zip(want.iter()) {
        assert_eq!(g.as_str(), *w);
    }
}

#[test]
fn default_sections() {
    let e = EngineConfig::default();
    assert_eq!((e.buffer_size_mb, e.default_volume, e.auto_advance), (8, 80, true));
    let u = UiConfig::default();
    assert_eq!((u.theme.as_str(), u.show_lyrics, u.language.as_str()), ("tokyonight", true, "en"));
    let f = Features::default();
    assert!(f.enable_favorites && f.enable_global_playlist && f.enable_streaming && f.enable_lyrics);
}
