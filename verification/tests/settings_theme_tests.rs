use monster_player::settings::{SettingsAction, SettingsKey, SettingsState, SettingsTab};
use monster_player::theme::{LyricAnimation, Rgba, ThemeColors, ThemeName};

#[test]
fn tabs_in_order_with_labels() {
    let all = SettingsTab::all();
    assert_eq!(all, &[SettingsTab::About, SettingsTab::Shortcuts, SettingsTab::Themes, SettingsTab::Extra][..]);
    assert_eq!(SettingsTab::About.label(), "项目简介");
    assert_eq!(SettingsTab::Shortcuts.label(), "快捷键信息");
    assert_eq!(SettingsTab::Themes.label(), "主题设置");
    assert_eq!(SettingsTab::Extra.label(), "额外功能");
}

#[test]
fn tab_index_round_trip() {
    for (i, t) in SettingsTab::all().iter().copied().enumerate() {
        assert_eq!(t.index(), i);
        assert_eq!(SettingsTab::from_index(i), t);
    }
    assert_eq!(SettingsTab::from_index(4), SettingsTab::About);
    assert_eq!(SettingsTab::from_index(usize::MAX), SettingsTab::About);
}

#[test]
fn new_settings_are_closed_on_first_tab() {
    let s = SettingsState::new();
    assert!(!s.show);
    assert_eq!(s.tab, SettingsTab::About);
    assert!(s.focus_left);
    assert_eq!(s.selected_index, 0);
}

#[test]
fn toggle_resets_when_opening() {
    let mut s = SettingsState::new();
    s.focus_left = false;
    s.selected_index = 2;
    s.tab = SettingsTab::Themes;
    s.toggle();
    assert!(s.show);
    assert!(s.focus_left);
    assert_eq!(s.selected_index, 0);
    assert_eq!(s.tab, SettingsTab::About);
    s.selected_index = 3;
    s.toggle();
    assert!(!s.show);
    assert_eq!(s.selected_index, 3);
}

#[test]
fn moving_wraps_around_the_tab_list() {
    let mut s = SettingsState::new();
    s.move_up();
    assert_eq!(s.selected_index, 3);
    assert_eq!(s.tab, SettingsTab::Extra);
    s.move_down();
    assert_eq!(s.selected_index, 0);
    assert_eq!(s.tab, SettingsTab::About);
    for _ in 0..4 {
        s.move_down();
    }
    assert_eq!(s.selected_index, 0);
    s.move_down();
    s.move_up();
    assert_eq!(s.selected_index, 0);
}

#[test]
fn moving_does_nothing_while_the_page_is_focused() {
    let mut s = SettingsState::new();
    s.tab_switch();
    assert!(!s.focus_left);
    s.move_down();
    s.move_up();
    assert_eq!(s.selected_index, 0);
    assert_eq!(s.tab, SettingsTab::About);
    s.tab_switch();
    assert!(s.focus_left);
}

#[test]
fn keys_in_the_settings_pop_up() {
    let mut s = SettingsState::new();
    s.toggle();
    assert_eq!(s.handle_key(SettingsKey::Down), SettingsAction::Nothing);
    assert_eq!(s.handle_key(SettingsKey::Down), SettingsAction::Nothing);
    assert_eq!(s.tab, SettingsTab::Themes);
    assert_eq!(s.handle_key(SettingsKey::Right), SettingsAction::CycleTheme);
    assert_eq!(s.handle_key(SettingsKey::SwitchPane), SettingsAction::Nothing);
    assert_eq!(s.handle_key(SettingsKey::Up), SettingsAction::CycleTheme);
    assert_eq!(s.selected_index, 2);
    s.handle_key(SettingsKey::SwitchPane);
    s.handle_key(SettingsKey::Down);
    assert_eq!(s.tab, SettingsTab::Extra);
    assert_eq!(s.handle_key(SettingsKey::Left), SettingsAction::ToggleDownload);
    assert_eq!(s.handle_key(SettingsKey::Other), SettingsAction::Nothing);
    assert_eq!(s.handle_key(SettingsKey::Close), SettingsAction::Nothing);
    assert!(!s.show);
}

#[test]
fn theme_cycle_and_labels() {
    assert_eq!(ThemeName::Origin.label(), "origin");
    assert_eq!(ThemeName::Tty.label(), "tty");
    assert_eq!(ThemeName::Tokyonight.label(), "tokyonight");
    let t = ThemeName::Tty;
    assert_eq!(t.next(), ThemeName::Tokyonight);
    assert_eq!(t.next().next().next(), t);
}

#[test]
fn animation_cycle_and_labels() {
    assert_eq!(LyricAnimation::FontGrow.label(), "字体放大");
    assert_eq!(LyricAnimation::ColorChange.label(), "颜色变化");
    assert_eq!(LyricAnimation::FontGrow.next(), LyricAnimation::ColorChange);
    assert_eq!(LyricAnimation::ColorChange.next().next(), LyricAnimation::ColorChange);
}

#[test]
fn theme_colours() {
    let o = ThemeColors::from_name(ThemeName::Origin);
    assert_eq!(o.bg_fill, Rgba { r: 0, g: 0, b: 0, a: 120 });
    assert_eq!(o.text_secondary, Rgba { r: 160, g: 160, b: 160, a: 255 });
    assert_eq!(o.loved, Rgba { r: 255, g: 0, b: 0, a: 255 });
    let t = ThemeColors::from_name(ThemeName::Tty);
    assert_eq!(t.text_primary, Rgba { r: 180, g: 180, b: 180, a: 255 });
    assert_eq!(t.cursor, Rgba { r: 0, g: 0, b: 0, a: 255 });
    let n = ThemeColors::from_name(ThemeName::Tokyonight);
    assert_eq!(n.accent, Rgba { r: 122, g: 162, b: 247, a: 255 });
    assert_eq!(n.settings_bg, Rgba { r: 26, g: 27, b: 38, a: 240 });
    assert_eq!(n.loved, Rgba { r: 247, g: 118, b: 142, a: 255 });
}
