use rawrcade::{
    menu, setting_types, setting_value, settings_menu, Action, App, Config, ConfigSettings, Event,
    EventType, Game, InputEvent, LogLevel, MenuItems, SettingTypes, System, SystemList,
};

fn engine(config: Config) -> App {
    let sys = System {
        name: "s".to_string(),
        fullname: "S".to_string(),
        path: String::new(),
        extension: String::new(),
        command: "run %ROM%".to_string(),
        platform: String::new(),
        gamelist: vec![Game { path: Some("/r/a".to_string()), ..Game::default() }],
    };
    App::new(SystemList { system: vec![sys] }, config).unwrap()
}

fn send(app: &mut App, e: InputEvent) -> Action {
    app.dispatch(Event { typ: EventType::Input(e) }).unwrap()
}

#[test]
fn defaults() {
    let c = Config::default();
    assert!(!c.swap_confirm);
    assert!(c.start_fullscreen);
    assert_eq!(c.theme, None);
    assert!(!c.enable_keyboard);
    assert_eq!(c.log_level, LogLevel::Debug);
}

#[test]
fn loaded_config_overrides_default() {
    let loaded = Config { start_fullscreen: false, ..Config::default() };
    let config = Config::load_or_default(Some(loaded));
    assert!(!config.start_fullscreen);
    assert!(Config::load_or_default(None).start_fullscreen);
    let mut app = engine(config);
    assert!(!app.config.start_fullscreen);
    send(&mut app, InputEvent::Menu);
    send(&mut app, InputEvent::Confirm);
    send(&mut app, InputEvent::Down);
    assert_eq!(send(&mut app, InputEvent::Confirm), Action::Nothing);
    assert!(app.config.start_fullscreen);
    send(&mut app, InputEvent::Cancel);
    send(&mut app, InputEvent::Down);
    send(&mut app, InputEvent::Down);
    assert_eq!(send(&mut app, InputEvent::Confirm), Action::Exit);
}

#[test]
fn type_for_each_field() {
    assert_eq!(ConfigSettings::SwapConfirm.type_for(), "boolean");
    assert_eq!(ConfigSettings::StartFullscreen.type_for(), "boolean");
    assert_eq!(ConfigSettings::Theme.type_for(), "string");
    assert_eq!(ConfigSettings::EnableKeyboard.type_for(), "boolean");
}

#[test]
fn ordinals_are_validated() {
    assert_eq!(ConfigSettings::from_index(2), Some(ConfigSettings::Theme));
    assert_eq!(ConfigSettings::from_index(4), None);
    assert_eq!(MenuItems::from_index(4), Some(MenuItems::Shutdown));
    assert_eq!(MenuItems::from_index(5), None);
}

#[test]
fn menu_and_settings_labels() {
    let app = engine(Config::default());
    assert_eq!(
        menu(&app),
        vec![
            "Settings",
            "Toggle Fullscreen Window",
            "Exit RAWRcade",
            "Reboot System",
            "Shutdown System"
        ]
    );
    assert_eq!(
        settings_menu(&app),
        vec!["Japanese-style Input", "Start in Fullscreen", "Set Theme", "Enable Keyboard"]
    );
    assert_eq!(setting_types(&app), vec!["boolean", "boolean", "string", "boolean"]);
    assert_eq!(app.menu().len(), 5);
    assert_eq!(app.settings_menu()[3], ConfigSettings::EnableKeyboard);
}

#[test]
fn setting_values_as_json() {
    let config = Config {
        swap_confirm: true,
        theme: Some("dark \"blue\"\\\n\u{1}".to_string()),
        ..Config::default()
    };
    let app = engine(config);
    assert_eq!(
        app.setting_values(),
        vec!["true", "true", "\"dark \\\"blue\\\"\\\\\\n\\u0001\"", "false"]
    );
    assert_eq!(setting_value(&app, 1), Ok("true".to_string()));
    assert_eq!(setting_value(&app, 4), Err(()));
    assert_eq!(engine(Config::default()).setting_values()[2], "null");
}

#[test]
fn setting_value_types() {
    let c = Config { theme: Some("x".to_string()), ..Config::default() };
    assert_eq!(c.setting_value(ConfigSettings::Theme), SettingTypes::OptionString(Some("x".to_string())));
    assert_eq!(c.setting_value(ConfigSettings::StartFullscreen), SettingTypes::Boolean(true));
    assert_eq!(SettingTypes::OptionString(Some("é".to_string())).to_json(), "\"é\"");
}

#[test]
fn toggle_flips_flags_only() {
    let mut c = Config::default();
    c.toggle(ConfigSettings::SwapConfirm);
    c.toggle(ConfigSettings::Theme);
    assert!(c.swap_confirm);
    assert_eq!(c.theme, None);
    c.toggle(ConfigSettings::SwapConfirm);
    assert!(!c.swap_confirm);
}
