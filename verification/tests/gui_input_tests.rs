use monster_player::gui_input::{
    frame_commands, is_control, search_commands, settings_input, GuiCommand, GuiEvent, GuiKey, PressedKeys, SearchCommand,
};
use monster_player::settings::SettingsKey;

fn none_pressed() -> PressedKeys {
    PressedKeys {
        slash: false,
        space: false,
        x: false,
        e: false,
        o: false,
        p: false,
        v: false,
        s: false,
        a: false,
        d: false,
        up: false,
        down: false,
        left: false,
        right: false,
        shift: false,
        ctrl_t: false,
    }
}

#[test]
fn control_characters() {
    assert!(is_control('\n'));
    assert!(is_control('\u{7f}'));
    assert!(is_control('\u{9f}'));
    assert!(!is_control('a'));
    assert!(!is_control('月'));
    assert!(!is_control('\u{a0}'));
}

#[test]
fn typing_in_the_search_box() {
    let events = vec![
        GuiEvent::Text("a\u{8}b".to_string()),
        GuiEvent::Commit("月行".to_string()),
        GuiEvent::Key { key: GuiKey::Other, plain: true },
        GuiEvent::Key { key: GuiKey::K, plain: false },
        GuiEvent::Key { key: GuiKey::Down, plain: true },
        GuiEvent::Text("ignored".to_string()),
    ];
    assert_eq!(
        search_commands(&events),
        vec![
            SearchCommand::Input('a'),
            SearchCommand::Input('b'),
            SearchCommand::Input('月'),
            SearchCommand::Input('行'),
            SearchCommand::Next,
        ]
    );
    let esc = vec![GuiEvent::Key { key: GuiKey::Escape, plain: true }, GuiEvent::Key { key: GuiKey::Enter, plain: true }];
    assert_eq!(search_commands(&esc), vec![SearchCommand::Exit]);
    assert!(search_commands(&Vec::new()).is_empty());
}

#[test]
fn first_settings_key_wins() {
    let events = vec![
        GuiEvent::Text("x".to_string()),
        GuiEvent::Key { key: GuiKey::Other, plain: true },
        GuiEvent::Key { key: GuiKey::L, plain: true },
        GuiEvent::Key { key: GuiKey::Escape, plain: true },
    ];
    assert_eq!(settings_input(&events), Some(SettingsKey::Right));
    assert_eq!(settings_input(&vec![GuiEvent::Key { key: GuiKey::Tab, plain: true }]), Some(SettingsKey::SwitchPane));
    assert_eq!(settings_input(&vec![GuiEvent::Key { key: GuiKey::Enter, plain: true }]), None);
}

#[test]
fn commands_of_a_frame_in_order() {
    assert!(frame_commands(none_pressed()).is_empty());
    let k = PressedKeys { space: true, a: true, right: true, ctrl_t: true, slash: true, ..none_pressed() };
    assert_eq!(
        frame_commands(k),
        vec![
            GuiCommand::EnterSearch,
            GuiCommand::PlaySelected,
            GuiCommand::SeekBackward,
            GuiCommand::NextAlbum,
            GuiCommand::ToggleSettings,
        ]
    );
    let shifted = PressedKeys { a: true, d: true, shift: true, ..none_pressed() };
    assert_eq!(frame_commands(shifted), vec![GuiCommand::PlayPrev, GuiCommand::PlayNext]);
}
