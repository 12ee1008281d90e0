//! The player's settings file: engine, interface, key bindings and feature
//! switches, each with the value that a missing entry takes.

use vstd::prelude::*;

verus! {

/// Everything the settings file holds.
pub struct Config {
    pub engine: EngineConfig,
    pub ui: UiConfig,
    pub keybindings: Keybindings,
    pub features: Features,
}

/// Settings of the playback engine.
pub struct EngineConfig {
    /// How many MiB of a song to fetch before playback starts.
    pub buffer_size_mb: u32,
    /// Volume at start, in percent.
    pub default_volume: u8,
    /// Whether the next song starts when one ends.
    pub auto_advance: bool,
}

/// Settings of the interface.
pub struct UiConfig {
    pub theme: String,
    pub show_lyrics: bool,
    pub language: String,
}

/// The key of each action. A key may carry modifiers joined by `+`, such as
/// `Ctrl+T` or `Shift+D`.
pub struct Keybindings {
    pub play_selected: String,
    pub toggle_pause: String,
    pub next_song: String,
    pub prev_song: String,
    pub next_album: String,
    pub prev_album: String,
    pub cycle_mode: String,
    pub toggle_love: String,
    pub toggle_lyrics: String,
    pub search: String,
    pub volume_up: String,
    pub volume_down: String,
    pub seek_forward: String,
    pub seek_backward: String,
    pub play_next: String,
    pub play_prev: String,
    pub settings: String,
}

/// Switches for optional parts of the player.
pub struct Features {
    pub enable_favorites: bool,
    pub enable_global_playlist: bool,
    pub enable_streaming: bool,
    pub enable_lyrics: bool,
}

/// The buffer size that a missing entry takes.
pub fn default_buffer_mb() -> (r: u32)
    ensures
        r == 8,
{
    8
}

/// The start volume that a missing entry takes.
pub fn default_volume() -> (r: u8)
    ensures
        r == 80,
{
    80
}

/// The theme that a missing entry takes.
pub fn default_theme() -> (r: String)
    ensures
        r@ == "tokyonight"@,
{
    "tokyonight".to_owned()
}

/// The language that a missing entry takes.
pub fn default_lang() -> (r: String)
    ensures
        r@ == "en"@,
{
    "en".to_owned()
}

/// The value that a missing switch takes.
pub fn default_true() -> (r: bool)
    ensures
        r,
{
    true
}

/// The engine settings of a fresh settings file.
pub open spec fn engine_defaults(c: EngineConfig) -> bool {
    c.buffer_size_mb == 8 && c.default_volume == 80 && c.auto_advance
}

/// The interface settings of a fresh settings file.
pub open spec fn ui_defaults(c: UiConfig) -> bool {
    c.theme@ == "tokyonight"@ && c.show_lyrics && c.language@ == "en"@
}

/// The key bindings of a fresh settings file.
pub open spec fn keybinding_defaults(k: Keybindings) -> bool {
    &&& k.play_selected@ == "Space"@
    &&& k.toggle_pause@ == "x"@
    &&& k.next_song@ == "j"@
    &&& k.prev_song@ == "k"@
    &&& k.next_album@ == "l"@
    &&& k.prev_album@ == "h"@
    &&& k.cycle_mode@ == "e"@
    &&& k.toggle_love@ == "s"@
    &&& k.toggle_lyrics@ == "v"@
    &&& k.search@ == "/"@
    &&& k.volume_up@ == "p"@
    &&& k.volume_down@ == "o"@
    &&& k.seek_forward@ == "d"@
    &&& k.seek_backward@ == "a"@
    &&& k.play_next@ == "Shift+D"@
    &&& k.play_prev@ == "Shift+A"@
    &&& k.settings@ == "Ctrl+T"@
}

/// The feature switches of a fresh settings file: all on.
pub open spec fn feature_defaults(f: Features) -> bool {
    f.enable_favorites && f.enable_global_playlist && f.enable_streaming && f.enable_lyrics
}

impl Default for EngineConfig {
    fn default() -> (r: EngineConfig)
        ensures
            engine_defaults(r),
    {
        EngineConfig {
            buffer_size_mb: default_buffer_mb(),
            default_volume: default_volume(),
            auto_advance: default_true(),
        }
    }
}

impl Default for UiConfig {
    fn default() -> (r: UiConfig)
        ensures
            ui_defaults(r),
    {
        UiConfig { theme: default_theme(), show_lyrics: default_true(), language: default_lang() }
    }
}

impl Default for Keybindings {
    fn default() -> (r: Keybindings)
        ensures
            keybinding_defaults(r),
    {
        Keybindings {
            play_selected: "Space".to_owned(),
            toggle_pause: "x".to_owned(),
            next_song: "j".to_owned(),
            prev_song: "k".to_owned(),
            next_album: "l".to_owned(),
            prev_album: "h".to_owned(),
            cycle_mode: "e".to_owned(),
            toggle_love: "s".to_owned(),
            toggle_lyrics: "v".to_owned(),
            search: "/".to_owned(),
            volume_up: "p".to_owned(),
            volume_down: "o".to_owned(),
            seek_forward: "d".to_owned(),
            seek_backward: "a".to_owned(),
            play_next: "Shift+D".to_owned(),
            play_prev: "Shift+A".to_owned(),
            settings: "Ctrl+T".to_owned(),
        }
    }
}

impl Default for Features {
    fn default() -> (r: Features)
        ensures
            feature_defaults(r),
    {
        Features {
            enable_favorites: true,
            enable_global_playlist: true,
            enable_streaming: true,
            enable_lyrics: true,
        }
    }
}

impl Default for Config {
    fn default() -> (r: Config)
        ensures
            engine_defaults(r.engine),
            ui_defaults(r.ui),
            keybinding_defaults(r.keybindings),
            feature_defaults(r.features),
    {
        Config {
            engine: EngineConfig::default(),
            ui: UiConfig::default(),
            keybindings: Keybindings::default(),
            features: Features::default(),
        }
    }
}

} // verus!
