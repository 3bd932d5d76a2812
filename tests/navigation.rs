use rawrcade::{
    Action, App, Config, EngineError, Event, EventType, Game, InputEvent, Orientation, System,
    SystemList,
};

fn game(path: Option<&str>) -> Game {
    Game { path: path.map(|p| p.to_string()), ..Game::default() }
}

fn system(name: &str, command: &str, games: usize) -> System {
    System {
        name: name.to_string(),
        fullname: name.to_string(),
        path: format!("/roms/{}", name),
        extension: ".bin".to_string(),
        command: command.to_string(),
        platform: name.to_string(),
        gamelist: (0..games).map(|i| game(Some(&format!("/roms/{}/game {}.bin", name, i)))).collect(),
    }
}

fn engine(sizes: &[usize]) -> App {
    let systems = sizes
        .iter()
        .enumerate()
        .map(|(i, n)| system(&format!("sys{}", i), "run %ROM%", *n))
        .collect();
    App::new(SystemList { system: systems }, Config::default()).unwrap()
}

fn send(app: &mut App, e: InputEvent) -> Result<Action, EngineError> {
    app.dispatch(Event { typ: EventType::Input(e) })
}

fn at(app: &App) -> (usize, usize) {
    (app.orientation.system_index, app.orientation.gamelist_index)
}

#[test]
fn two_systems_walkthrough() {
    let mut app = engine(&[2, 1]);
    assert_eq!(at(&app), (0, 0));
    assert_eq!(send(&mut app, InputEvent::Right), Ok(Action::Nothing));
    assert_eq!(at(&app), (1, 0));
    send(&mut app, InputEvent::Right).unwrap();
    assert_eq!(at(&app), (0, 0));
    send(&mut app, InputEvent::Down).unwrap();
    assert_eq!(at(&app), (0, 1));
    send(&mut app, InputEvent::Down).unwrap();
    assert_eq!(at(&app), (0, 0));
}

#[test]
fn right_and_left_round_trip() {
    let mut app = engine(&[1, 3, 2, 5]);
    send(&mut app, InputEvent::Right).unwrap();
    let start = app.orientation.system_index;
    for _ in 0..4 {
        send(&mut app, InputEvent::Right).unwrap();
    }
    assert_eq!(app.orientation.system_index, start);
    for _ in 0..4 {
        send(&mut app, InputEvent::Left).unwrap();
    }
    assert_eq!(app.orientation.system_index, start);
}

#[test]
fn left_from_first_wraps_to_last() {
    let mut app = engine(&[1, 1, 1]);
    send(&mut app, InputEvent::Left).unwrap();
    assert_eq!(at(&app), (2, 0));
}

#[test]
fn switching_resets_game() {
    let mut app = engine(&[5, 5]);
    send(&mut app, InputEvent::Down).unwrap();
    send(&mut app, InputEvent::Down).unwrap();
    assert_eq!(at(&app), (0, 2));
    send(&mut app, InputEvent::Right).unwrap();
    assert_eq!(at(&app), (1, 0));
    send(&mut app, InputEvent::Up).unwrap();
    assert_eq!(at(&app), (1, 4));
    send(&mut app, InputEvent::Left).unwrap();
    assert_eq!(at(&app), (0, 0));
}

#[test]
fn up_from_first_game_wraps() {
    let mut app = engine(&[3]);
    send(&mut app, InputEvent::Up).unwrap();
    assert_eq!(at(&app), (0, 2));
}

#[test]
fn page_down_and_up() {
    let mut app = engine(&[15]);
    send(&mut app, InputEvent::PageDown).unwrap();
    assert_eq!(app.orientation.gamelist_index, 10);
    send(&mut app, InputEvent::PageDown).unwrap();
    assert_eq!(app.orientation.gamelist_index, 5);
    send(&mut app, InputEvent::PageUp).unwrap();
    assert_eq!(app.orientation.gamelist_index, 10);
    send(&mut app, InputEvent::PageUp).unwrap();
    assert_eq!(app.orientation.gamelist_index, 0);
    send(&mut app, InputEvent::PageUp).unwrap();
    assert_eq!(app.orientation.gamelist_index, 5);
}

#[test]
fn page_round_trip_on_every_index() {
    for m in 1..25usize {
        let mut app = engine(&[m]);
        for g in 0..m {
            assert_eq!(app.orientation.gamelist_index, g);
            send(&mut app, InputEvent::PageDown).unwrap();
            assert_eq!(app.orientation.gamelist_index, (g + 10) % m);
            send(&mut app, InputEvent::PageUp).unwrap();
            assert_eq!(app.orientation.gamelist_index, g);
            send(&mut app, InputEvent::Down).unwrap();
        }
    }
}

#[test]
fn page_in_small_list() {
    let mut app = engine(&[3]);
    send(&mut app, InputEvent::PageDown).unwrap();
    assert_eq!(app.orientation.gamelist_index, 1);
    let mut one = engine(&[1]);
    send(&mut one, InputEvent::PageDown).unwrap();
    send(&mut one, InputEvent::PageUp).unwrap();
    assert_eq!(one.orientation.gamelist_index, 0);
}

#[test]
fn menu_opens_and_closes() {
    let mut app = engine(&[2]);
    send(&mut app, InputEvent::Menu).unwrap();
    assert!(app.orientation.menu_active);
    assert_eq!(app.orientation.menu_index, Some(0));
    send(&mut app, InputEvent::Confirm).unwrap();
    assert_eq!(app.orientation.menu_item_index, Some(0));
    send(&mut app, InputEvent::Menu).unwrap();
    assert!(!app.orientation.menu_active);
    assert_eq!(app.orientation.menu_index, None);
    assert_eq!(app.orientation.menu_item_index, None);
}

#[test]
fn menu_moves_with_wraparound() {
    let mut app = engine(&[2, 2]);
    send(&mut app, InputEvent::Menu).unwrap();
    send(&mut app, InputEvent::Up).unwrap();
    assert_eq!(app.orientation.menu_index, Some(4));
    send(&mut app, InputEvent::Down).unwrap();
    assert_eq!(app.orientation.menu_index, Some(0));
    send(&mut app, InputEvent::Down).unwrap();
    assert_eq!(app.orientation.menu_index, Some(1));
    send(&mut app, InputEvent::Right).unwrap();
    assert_eq!(at(&app), (0, 0));
    send(&mut app, InputEvent::PageDown).unwrap();
    assert_eq!(at(&app), (0, 0));
}

#[test]
fn cancel_steps_back_one_level() {
    let mut app = engine(&[2]);
    send(&mut app, InputEvent::Menu).unwrap();
    send(&mut app, InputEvent::Confirm).unwrap();
    send(&mut app, InputEvent::Down).unwrap();
    assert_eq!(app.orientation.menu_item_index, Some(1));
    send(&mut app, InputEvent::Cancel).unwrap();
    assert!(app.orientation.menu_active);
    assert_eq!(app.orientation.menu_index, Some(0));
    assert_eq!(app.orientation.menu_item_index, None);
    send(&mut app, InputEvent::Cancel).unwrap();
    assert!(!app.orientation.menu_active);
    assert_eq!(app.orientation.menu_index, None);
    let before = app.orientation;
    send(&mut app, InputEvent::Cancel).unwrap();
    assert_eq!(app.orientation, before);
}

#[test]
fn settings_fields_wrap() {
    let mut app = engine(&[2]);
    send(&mut app, InputEvent::Menu).unwrap();
    send(&mut app, InputEvent::Confirm).unwrap();
    send(&mut app, InputEvent::Up).unwrap();
    assert_eq!(app.orientation.menu_item_index, Some(3));
    assert_eq!(app.orientation.menu_index, Some(0));
    send(&mut app, InputEvent::Down).unwrap();
    assert_eq!(app.orientation.menu_item_index, Some(0));
}

#[test]
fn settings_confirm_toggles_without_commit() {
    let mut app = engine(&[2]);
    send(&mut app, InputEvent::Menu).unwrap();
    send(&mut app, InputEvent::Confirm).unwrap();
    assert_eq!(send(&mut app, InputEvent::Confirm), Ok(Action::Nothing));
    assert!(app.config.swap_confirm);
    send(&mut app, InputEvent::Down).unwrap();
    assert_eq!(send(&mut app, InputEvent::Confirm), Ok(Action::Nothing));
    assert!(!app.config.start_fullscreen);
    send(&mut app, InputEvent::Down).unwrap();
    assert_eq!(send(&mut app, InputEvent::Confirm), Ok(Action::Nothing));
    assert_eq!(app.config.theme, None);
    send(&mut app, InputEvent::Down).unwrap();
    assert_eq!(send(&mut app, InputEvent::Confirm), Ok(Action::Nothing));
    assert!(app.config.enable_keyboard);
    assert_eq!(send(&mut app, InputEvent::Confirm), Ok(Action::Nothing));
    assert!(!app.config.enable_keyboard);
}

#[test]
fn menu_entries_ask_for_actions() {
    let expected = [
        Action::ToggleFullscreen,
        Action::Exit,
        Action::Reboot,
        Action::Shutdown,
    ];
    for (i, action) in expected.into_iter().enumerate() {
        let mut app = engine(&[2]);
        send(&mut app, InputEvent::Menu).unwrap();
        for _ in 0..=i {
            send(&mut app, InputEvent::Down).unwrap();
        }
        let before = app.orientation;
        assert_eq!(send(&mut app, InputEvent::Confirm), Ok(action));
        assert_eq!(app.orientation, before);
        assert!(!app.is_suppressed());
    }
}

#[test]
fn other_events_change_nothing() {
    let mut app = engine(&[3, 3]);
    send(&mut app, InputEvent::Down).unwrap();
    let before = app.orientation;
    for e in [InputEvent::Delete, InputEvent::Quit, InputEvent::First, InputEvent::Last] {
        assert_eq!(send(&mut app, e), Ok(Action::Nothing));
        assert_eq!(app.orientation, before);
    }
}

#[test]
fn suppressed_events_are_dropped() {
    let mut app = engine(&[3, 2]);
    app.ignore_events = true;
    let before = app.orientation;
    for e in [InputEvent::Up, InputEvent::Down, InputEvent::Right, InputEvent::Menu, InputEvent::Confirm] {
        assert_eq!(send(&mut app, e), Ok(Action::Nothing));
        assert_eq!(app.orientation, before);
    }
}

#[test]
fn confirm_on_game_suppresses_before_launch() {
    let mut app = engine(&[2]);
    let action = send(&mut app, InputEvent::Confirm).unwrap();
    assert_eq!(action, Action::Launch("run '/roms/sys0/game 0.bin'".to_string()));
    assert!(app.is_suppressed());
    let before = app.orientation;
    assert_eq!(send(&mut app, InputEvent::Up), Ok(Action::Nothing));
    assert_eq!(app.orientation, before);
}

#[test]
fn launch_lifecycle_restores_display() {
    let mut app = engine(&[2]);
    send(&mut app, InputEvent::Confirm).unwrap();
    assert!(app.begin_launch(true));
    assert!(app.is_suppressed());
    assert_eq!(app.end_launch(), Some(true));
    assert!(!app.is_suppressed());
    send(&mut app, InputEvent::Down).unwrap();
    assert_eq!(at(&app), (0, 1));
    send(&mut app, InputEvent::Confirm).unwrap();
    assert!(!app.begin_launch(false));
    assert_eq!(app.end_launch(), Some(false));
}

#[test]
fn spawn_failure_clears_suppression() {
    let mut app = engine(&[2]);
    send(&mut app, InputEvent::Confirm).unwrap();
    assert_eq!(app.end_launch(), None);
    assert!(!app.is_suppressed());
}

#[test]
fn launch_without_path_is_refused() {
    let mut sys = system("snes", "snes9x %ROM%", 1);
    sys.gamelist[0].path = None;
    let mut app = App::new(SystemList { system: vec![sys] }, Config::default()).unwrap();
    assert_eq!(send(&mut app, InputEvent::Confirm), Err(EngineError::MissingLaunchPath));
    assert!(!app.is_suppressed());
}

#[test]
fn launch_without_file_name_is_refused() {
    let mut sys = system("snes", "snes9x %BASENAME%", 1);
    sys.gamelist[0].path = Some("/roms/..".to_string());
    let mut app = App::new(SystemList { system: vec![sys] }, Config::default()).unwrap();
    assert_eq!(send(&mut app, InputEvent::Confirm), Err(EngineError::MissingFileName));
    assert!(!app.is_suppressed());
}

#[test]
fn empty_catalog_is_refused() {
    let none = App::new(SystemList { system: vec![] }, Config::default());
    assert_eq!(none.err(), Some(EngineError::EmptyCatalog));
    let empty_system = App::new(
        SystemList { system: vec![system("a", "x", 1), system("b", "x", 0)] },
        Config::default(),
    );
    assert_eq!(empty_system.err(), Some(EngineError::EmptyCatalog));
}

#[test]
fn new_starts_at_origin() {
    let app = engine(&[4, 4]);
    assert_eq!(app.orientation, Orientation::default());
    assert!(!app.is_suppressed());
}
