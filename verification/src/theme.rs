//! Colour themes of the graphical front end and the choice of lyric
//! animation. Colours are plain RGBA quadruples, as the drawing toolkit's
//! constants and constructors define them.

use vstd::prelude::*;

verus! {

/// The colour themes, in the order the settings page cycles through them.
#[derive(Clone, Copy, PartialEq, Eq, Structural, Debug)]
pub enum ThemeName {
    Origin,
    Tty,
    Tokyonight,
}

/// The name a theme is shown and stored under.
pub open spec fn theme_label(t: ThemeName) -> Seq<char> {
    match t {
        ThemeName::Origin => "origin"@,
        ThemeName::Tty => "tty"@,
        ThemeName::Tokyonight => "tokyonight"@,
    }
}

/// The theme after `t` in the cycle.
pub open spec fn theme_after(t: ThemeName) -> ThemeName {
    match t {
        ThemeName::Origin => ThemeName::Tty,
        ThemeName::Tty => ThemeName::Tokyonight,
        ThemeName::Tokyonight => ThemeName::Origin,
    }
}

impl ThemeName {
    /// The theme's name.
    pub fn label(&self) -> (r: &'static str)
        ensures
            r@ == theme_label(*self),
    {
        match self {
            ThemeName::Origin => "origin",
            ThemeName::Tty => "tty",
            ThemeName::Tokyonight => "tokyonight",
        }
    }

    /// The next theme in the cycle.
    pub fn next(&self) -> (r: ThemeName)
        ensures
            r == theme_after(*self),
    {
        match self {
            ThemeName::Origin => ThemeName::Tty,
            ThemeName::Tty => ThemeName::Tokyonight,
            ThemeName::Tokyonight => ThemeName::Origin,
        }
    }
}

/// A colour: red, green, blue and alpha.
#[derive(Clone, Copy, PartialEq, Eq, Structural, Debug)]
pub struct Rgba {
    pub r: u8,
    pub g: u8,
    pub b: u8,
    pub a: u8,
}

/// An opaque colour.
pub open spec fn opaque(r: u8, g: u8, b: u8) -> Rgba {
    Rgba { r, g, b, a: 255 }
}

/// An opaque grey of lightness `l`.
pub open spec fn grey(l: u8) -> Rgba {
    Rgba { r: l, g: l, b: l, a: 255 }
}

/// A colour given with its alpha, channels taken as they are.
pub open spec fn with_alpha(r: u8, g: u8, b: u8, a: u8) -> Rgba {
    Rgba { r, g, b, a }
}

fn rgb(r: u8, g: u8, b: u8) -> (c: Rgba)
    ensures
        c == opaque(r, g, b),
{
    Rgba { r, g, b, a: 255 }
}

fn gray(l: u8) -> (c: Rgba)
    ensures
        c == grey(l),
{
    Rgba { r: l, g: l, b: l, a: 255 }
}

fn rgba(r: u8, g: u8, b: u8, a: u8) -> (c: Rgba)
    ensures
        c == with_alpha(r, g, b, a),
{
    Rgba { r, g, b, a }
}

/// The toolkit's white.
pub open spec fn white() -> Rgba {
    opaque(255, 255, 255)
}

/// The toolkit's named grey.
pub open spec fn named_gray() -> Rgba {
    opaque(160, 160, 160)
}

/// The toolkit's black.
pub open spec fn black() -> Rgba {
    opaque(0, 0, 0)
}

/// The toolkit's red.
pub open spec fn red() -> Rgba {
    opaque(255, 0, 0)
}

/// The colours of every element that the front end paints.
#[derive(Clone, Copy, PartialEq, Eq, Structural, Debug)]
pub struct ThemeColors {
    pub bg_fill: Rgba,
    pub border: Rgba,
    pub text_primary: Rgba,
    pub text_secondary: Rgba,
    pub accent: Rgba,
    pub cursor: Rgba,
    pub loved: Rgba,
    pub progress_bar: Rgba,
    pub progress_bg: Rgba,
    pub search_icon: Rgba,
    pub search_bg: Rgba,
    pub search_text: Rgba,
    pub settings_bg: Rgba,
    pub settings_border: Rgba,
    pub card_bg: Rgba,
    pub card_border: Rgba,
}

/// The colours of the translucent `origin` theme.
pub open spec fn origin_colors() -> ThemeColors {
    ThemeColors {
        bg_fill: with_alpha(0, 0, 0, 120),
        border: white(),
        text_primary: white(),
        text_secondary: named_gray(),
        accent: opaque(0, 200, 200),
        cursor: white(),
        loved: red(),
        progress_bar: opaque(0, 200, 200),
        progress_bg: opaque(60, 60, 60),
        search_icon: white(),
        search_bg: with_alpha(0, 0, 0, 220),
        search_text: white(),
        settings_bg: with_alpha(0, 0, 0, 200),
        settings_border: white(),
        card_bg: with_alpha(0, 0, 0, 120),
        card_border: white(),
    }
}

/// The colours of the terminal-like theme.
pub open spec fn tty_colors() -> ThemeColors {
    ThemeColors {
        bg_fill: with_alpha(0, 0, 0, 255),
        border: white(),
        text_primary: grey(180),
        text_secondary: grey(100),
        accent: white(),
        cursor: black(),
        loved: grey(200),
        progress_bar: white(),
        progress_bg: grey(60),
        search_icon: white(),
        search_bg: grey(20),
        search_text: grey(180),
        settings_bg: grey(10),
        settings_border: white(),
        card_bg: with_alpha(0, 0, 0, 255),
        card_border: white(),
    }
}

/// The colours of the Tokyo Night theme.
pub open spec fn tokyonight_colors() -> ThemeColors {
    ThemeColors {
        bg_fill: with_alpha(26, 27, 38, 240),
        border: opaque(122, 162, 247),
        text_primary: opaque(192, 202, 247),
        text_secondary: opaque(137, 142, 165),
        accent: opaque(122, 162, 247),
        cursor: opaque(187, 154, 247),
        loved: opaque(247, 118, 142),
        progress_bar: opaque(122, 162, 247),
        progress_bg: opaque(50, 50, 70),
        search_icon: opaque(122, 162, 247),
        search_bg: with_alpha(26, 27, 38, 240),
        search_text: opaque(192, 202, 247),
        settings_bg: with_alpha(26, 27, 38, 240),
        settings_border: opaque(122, 162, 247),
        card_bg: with_alpha(26, 27, 38, 240),
        card_border: opaque(122, 162, 247),
    }
}

/// The colours of theme `t`.
pub open spec fn theme_colors(t: ThemeName) -> ThemeColors {
    match t {
        ThemeName::Origin => origin_colors(),
        ThemeName::Tty => tty_colors(),
        ThemeName::Tokyonight => tokyonight_colors(),
    }
}

impl ThemeColors {
    /// The colours of the named theme.
    pub fn from_name(name: ThemeName) -> (r: ThemeColors)
        ensures
            r == theme_colors(name),
    {
        match name {
            ThemeName::Origin => Self::origin(),
            ThemeName::Tty => Self::tty(),
            ThemeName::Tokyonight => Self::tokyonight(),
        }
    }

    fn origin() -> (r: ThemeColors)
        ensures
            r == origin_colors(),
    {
        let white = rgb(255, 255, 255);
        ThemeColors {
            bg_fill: rgba(0, 0, 0, 120),
            border: white,
            text_primary: white,
            text_secondary: rgb(160, 160, 160),
            accent: rgb(0, 200, 200),
            cursor: white,
            loved: rgb(255, 0, 0),
            progress_bar: rgb(0, 200, 200),
            progress_bg: rgb(60, 60, 60),
            search_icon: white,
            search_bg: rgba(0, 0, 0, 220),
            search_text: white,
            settings_bg: rgba(0, 0, 0, 200),
            settings_border: white,
            card_bg: rgba(0, 0, 0, 120),
            card_border: white,
        }
    }

    fn tty() -> (r: ThemeColors)
        ensures
            r == tty_colors(),
    {
        let white = rgb(255, 255, 255);
        ThemeColors {
            bg_fill: rgba(0, 0, 0, 255),
            border: white,
            text_primary: gray(180),
            text_secondary: gray(100),
            accent: white,
            cursor: rgb(0, 0, 0),
            loved: gray(200),
            progress_bar: white,
            progress_bg: gray(60),
            search_icon: white,
            search_bg: gray(20),
            search_text: gray(180),
            settings_bg: gray(10),
            settings_border: white,
            card_bg: rgba(0, 0, 0, 255),
            card_border: white,
        }
    }

    fn tokyonight() -> (r: ThemeColors)
        ensures
            r == tokyonight_colors(),
    {
        let blue = rgb(122, 162, 247);
        let night = rgba(26, 27, 38, 240);
        let fg = rgb(192, 202, 247);
        ThemeColors {
            bg_fill: night,
            border: blue,
            text_primary: fg,
            text_secondary: rgb(137, 142, 165),
            accent: blue,
            cursor: rgb(187, 154, 247),
            loved: rgb(247, 118, 142),
            progress_bar: blue,
            progress_bg: rgb(50, 50, 70),
            search_icon: blue,
            search_bg: night,
            search_text: fg,
            settings_bg: night,
            settings_border: blue,
            card_bg: night,
            card_border: blue,
        }
    }
}

/// How the current lyric line is set off from the others.
#[derive(Clone, Copy, PartialEq, Eq, Structural, Debug)]
pub enum LyricAnimation {
    FontGrow,
    ColorChange,
}

/// The caption of an animation.
pub open spec fn animation_label(a: LyricAnimation) -> Seq<char> {
    match a {
        LyricAnimation::FontGrow => "字体放大"@,
        LyricAnimation::ColorChange => "颜色变化"@,
    }
}

/// The other animation.
pub open spec fn animation_after(a: LyricAnimation) -> LyricAnimation {
    match a {
        LyricAnimation::FontGrow => LyricAnimation::ColorChange,
        LyricAnimation::ColorChange => LyricAnimation::FontGrow,
    }
}

impl LyricAnimation {
    /// The animation's caption.
    pub fn label(&self) -> (r: &'static str)
        ensures
            r@ == animation_label(*self),
    {
        match self {
            LyricAnimation::FontGrow => "字体放大",
            LyricAnimation::ColorChange => "颜色变化",
        }
    }

    /// The other animation.
    pub fn next(&self) -> (r: LyricAnimation)
        ensures
            r == animation_after(*self),
    {
        match self {
            LyricAnimation::FontGrow => LyricAnimation::ColorChange,
            LyricAnimation::ColorChange => LyricAnimation::FontGrow,
        }
    }
}

/// Three steps of the theme cycle come back to the starting theme, and each
/// step changes the theme.
pub proof fn law_theme_cycle(t: ThemeName)
    ensures
        theme_after(theme_after(theme_after(t))) == t,
        theme_after(t) != t,
{
}

/// Two steps of the animation choice come back to the start, and each step
/// changes it.
pub proof fn law_animation_cycle(a: LyricAnimation)
    ensures
        animation_after(animation_after(a)) == a,
        animation_after(a) != a,
{
}

/// Different themes carry different names.
pub proof fn law_theme_labels_distinct(s: ThemeName, t: ThemeName)
    requires
        s != t,
    ensures
        theme_label(s) != theme_label(t),
{
    reveal_strlit("origin");
    reveal_strlit("tty");
    reveal_strlit("tokyonight");
    if theme_label(s).len() == theme_label(t).len() {
        assert(theme_label(s)[0] != theme_label(t)[0]);
    }
}

} // verus!
