use vstd::prelude::*;

use crate::config::Config;
use crate::enums::{
    ConfigSettings, Event, EventType, InputEvent, MenuItems, Orientation, MENU_COUNT,
    SETTINGS_COUNT,
};
use crate::gamelist::Game;
use crate::systems::SystemList;

verus! {

/// How far PageUp and PageDown move in the game list.
pub const PAGE_STRIDE: usize = 10;

/// What the host program must do after an event has been handled.
#[derive(Debug, PartialEq, Eq)]
pub enum Action {
    /// Nothing beyond the state change.
    Nothing,
    /// Invert the display's fullscreen state.
    ToggleFullscreen,
    /// Persist the settings, then end the program.
    Exit,
    /// Persist the settings, then reboot the machine.
    Reboot,
    /// Persist the settings, then power the machine off.
    Shutdown,
    /// Run this command line through the shell. Input stays suppressed until
    /// `end_launch` is called, once the process has ended or failed to start.
    Launch(String),
}

/// A precondition that the catalog or the selected game does not meet.
#[derive(Debug, Clone, Copy, PartialEq, Eq, Structural)]
pub enum EngineError {
    /// The catalog has no system, or one of its systems has no game.
    EmptyCatalog,
    /// The selected game has no launch path.
    MissingLaunchPath,
    /// The selected game's path has no final component to stand for `%BASENAME%`.
    MissingFileName,
}

/// The navigation and launch engine: the catalog, the settings, the cursor, and
/// the suppression flag that is set while a launched process runs.
#[derive(Debug)]
pub struct App {
    pub config: Config,
    pub all_systems: SystemList,
    pub orientation: Orientation,
    /// Set while a launched process runs; events are then dropped.
    pub ignore_events: bool,
    /// The fullscreen state seen just before the running launch, to restore after it.
    pub restore_fullscreen: Option<bool>,
}

/// A catalog that navigation can work on: at least one system, and at least one
/// game in each.
pub open spec fn catalog_ok(systems: &SystemList) -> bool {
    &&& systems.system@.len() > 0
    &&& forall|i: int|
        0 <= i < systems.system@.len() ==> (#[trigger] systems.system@[i]).gamelist@.len() > 0
}

/// `i` moved by `delta` places around a ring of `n` places.
pub open spec fn wrap(i: int, delta: int, n: int) -> int {
    (i + delta) % n
}

impl App {
    /// Number of systems in the catalog.
    pub open spec fn n_systems(&self) -> nat {
        self.all_systems.system@.len()
    }

    /// Number of games of the system at `s`.
    pub open spec fn n_games(&self, s: int) -> nat {
        self.all_systems.system@[s].gamelist@.len()
    }

    /// The invariant: a playable catalog, a cursor inside it, and a consistent menu focus.
    pub open spec fn wf(&self) -> bool {
        &&& catalog_ok(&self.all_systems)
        &&& self.orientation.system_index < self.n_systems()
        &&& self.orientation.gamelist_index < self.n_games(self.orientation.system_index as int)
        &&& self.orientation.menu_wf()
    }

    /// The cursor after an event other than Confirm.
    pub open spec fn navigated(&self, e: InputEvent) -> Orientation {
        let o = self.orientation;
        let n = self.n_systems() as int;
        let g = self.n_games(o.system_index as int) as int;
        match e {
            InputEvent::Right => if o.menu_active {
                o
            } else {
                Orientation {
                    system_index: wrap(o.system_index as int, 1, n) as usize,
                    gamelist_index: 0,
                    ..o
                }
            },
            InputEvent::Left => if o.menu_active {
                o
            } else {
                Orientation {
                    system_index: wrap(o.system_index as int, -1, n) as usize,
                    gamelist_index: 0,
                    ..o
                }
            },
            InputEvent::Up => App::vertical(o, -1, g),
            InputEvent::Down => App::vertical(o, 1, g),
            InputEvent::PageUp => if o.menu_active {
                o
            } else {
                Orientation {
                    gamelist_index: wrap(o.gamelist_index as int, -(PAGE_STRIDE as int), g) as usize,
                    ..o
                }
            },
            InputEvent::PageDown => if o.menu_active {
                o
            } else {
                Orientation {
                    gamelist_index: wrap(o.gamelist_index as int, PAGE_STRIDE as int, g) as usize,
                    ..o
                }
            },
            InputEvent::Menu => if o.menu_active {
                Orientation { menu_active: false, menu_index: None, menu_item_index: None, ..o }
            } else {
                Orientation { menu_active: true, menu_index: Some(0), ..o }
            },
            InputEvent::Cancel => if o.menu_item_index is Some {
                Orientation { menu_item_index: None, ..o }
            } else if o.menu_active {
                Orientation { menu_active: false, menu_index: None, menu_item_index: None, ..o }
            } else {
                o
            },
            _ => o,
        }
    }

    /// The cursor after Up (`delta == -1`) or Down (`delta == 1`) in a game list
    /// of `g` games: the focused settings field, else the menu entry, else the game moves.
    pub open spec fn vertical(o: Orientation, delta: int, g: int) -> Orientation {
        if o.menu_active {
            match o.menu_item_index {
                Some(k) => Orientation {
                    menu_item_index: Some(wrap(k as int, delta, SETTINGS_COUNT as int) as usize),
                    ..o
                },
                None => match o.menu_index {
                    Some(m) => Orientation {
                        menu_index: Some(wrap(m as int, delta, MENU_COUNT as int) as usize),
                        ..o
                    },
                    None => Orientation { menu_index: Some(0), ..o },
                },
            }
        } else {
            Orientation { gamelist_index: wrap(o.gamelist_index as int, delta, g) as usize, ..o }
        }
    }

    /// The engine after an event other than Confirm: only the cursor changes.
    pub open spec fn step(self, e: InputEvent) -> App {
        App { orientation: self.navigated(e), ..self }
    }

    /// A new engine on a catalog and the settings, with the cursor at the start.
    /// The catalog must hold a system, and each system a game.
    pub fn new(all_systems: SystemList, config: Config) -> (r: Result<App, EngineError>)
        ensures
            r is Ok <==> catalog_ok(&all_systems),
            r matches Err(e) ==> e == EngineError::EmptyCatalog,
            r matches Ok(a) ==> {
                &&& a.wf()
                &&& a.all_systems == all_systems
                &&& a.config == config
                &&& a.orientation == Orientation::initial()
                &&& !a.ignore_events
                &&& a.restore_fullscreen is None
            },
    {
        if all_systems.system.len() == 0 {
            return Err(EngineError::EmptyCatalog);
        }
        let mut i: usize = 0;
        while i < all_systems.system.len()
            invariant
                i <= all_systems.system@.len(),
                forall|j: int| 0 <= j < i ==> (#[trigger] all_systems.system@[j]).gamelist@.len() > 0,
            decreases all_systems.system@.len() - i,
        {
            if all_systems.system[i].gamelist.len() == 0 {
                return Err(EngineError::EmptyCatalog);
            }
            i = i + 1;
        }
        Ok(App {
            config,
            all_systems,
            orientation: Orientation::default(),
            ignore_events: false,
            restore_fullscreen: None,
        })
    }

    /// The game under the cursor.
    pub open spec fn selected_game(&self) -> Game {
        self.all_systems.system@[self.orientation.system_index as int].gamelist@[self.orientation.gamelist_index as int]
    }

    /// The command line for the game under the cursor, or why there is none.
    pub open spec fn launch_command(&self) -> Result<Seq<char>, EngineError> {
        match self.selected_game().path {
            None => Err(EngineError::MissingLaunchPath),
            Some(path) => match self.all_systems.system@[self.orientation.system_index as int].command_for(
                path@,
            ) {
                None => Err(EngineError::MissingFileName),
                Some(c) => Ok(c),
            },
        }
    }

    /// The engine after Confirm while the menu is open: the settings entry focuses
    /// the first field, and a focused field is toggled; other entries only act.
    pub open spec fn menu_confirmed(self) -> App {
        let o = self.orientation;
        if o.menu_index == Some(0usize) {
            match o.menu_item_index {
                None => App { orientation: Orientation { menu_item_index: Some(0), ..o }, ..self },
                Some(k) => App { config: self.config.toggled(ConfigSettings::at(k as nat)), ..self },
            }
        } else {
            self
        }
    }

    /// What the host must do after Confirm while the menu is open.
    pub open spec fn menu_action(self) -> Action {
        match self.orientation.menu_index {
            Some(m) => match MenuItems::at(m as nat) {
                MenuItems::Settings => Action::Nothing,
                MenuItems::Fullscreen => Action::ToggleFullscreen,
                MenuItems::Exit => Action::Exit,
                MenuItems::Reboot => Action::Reboot,
                MenuItems::Shutdown => Action::Shutdown,
            },
            None => Action::Nothing,
        }
    }

    /// The engine once a launch has started: input is suppressed.
    pub open spec fn launching(self) -> App {
        App { ignore_events: true, restore_fullscreen: None, ..self }
    }

    fn event_input_menu_confirm(&mut self) -> (r: Action)
        requires
            old(self).wf(),
            old(self).orientation.menu_active,
        ensures
            *final(self) == old(self).menu_confirmed(),
            r == old(self).menu_action(),
    {
        match self.orientation.menu_index {
            Some(index) => match MenuItems::from_index(index) {
                Some(MenuItems::Settings) => {
                    match self.orientation.menu_item_index {
                        Some(inner) => match ConfigSettings::from_index(inner) {
                            Some(field) => self.config.toggle(field),
                            None => {},
                        },
                        None => {
                            self.orientation.menu_item_index = Some(0);
                        },
                    }
                    Action::Nothing
                },
                Some(MenuItems::Fullscreen) => Action::ToggleFullscreen,
                Some(MenuItems::Exit) => Action::Exit,
                Some(MenuItems::Reboot) => Action::Reboot,
                Some(MenuItems::Shutdown) => Action::Shutdown,
                None => Action::Nothing,
            },
            None => Action::Nothing,
        }
    }

    fn event_input_launch(&mut self) -> (r: Result<Action, EngineError>)
        requires
            old(self).wf(),
        ensures
            match old(self).launch_command() {
                Err(e) => r == Err::<Action, EngineError>(e) && *final(self) == *old(self),
                Ok(c) => (r matches Ok(Action::Launch(cmd)) && cmd@ == c) && *final(self)
                    == old(self).launching(),
            },
    {
        let system = &self.all_systems.system[self.orientation.system_index];
        let game = &system.gamelist[self.orientation.gamelist_index];
        match &game.path {
            None => Err(EngineError::MissingLaunchPath),
            Some(path) => match system.get_command(path.as_str()) {
                None => Err(EngineError::MissingFileName),
                Some(cmd) => {
                    self.ignore_events = true;
                    self.restore_fullscreen = None;
                    Ok(Action::Launch(cmd))
                },
            },
        }
    }

    /// Handles one event from the channel. While a launch runs every event is
    /// dropped. Confirm acts on the open menu, or else starts the selected game:
    /// input is then suppressed before the host gets the command line. Every
    /// other event moves the cursor.
    pub fn dispatch(&mut self, event: Event) -> (r: Result<Action, EngineError>)
        requires
            old(self).wf(),
        ensures
            final(self).wf(),
            old(self).ignore_events ==> r == Ok::<Action, EngineError>(Action::Nothing)
                && *final(self) == *old(self),
            !old(self).ignore_events ==> match event.typ {
                EventType::Input(InputEvent::Confirm) => if old(self).orientation.menu_active {
                    *final(self) == old(self).menu_confirmed() && r == Ok::<Action, EngineError>(
                        old(self).menu_action(),
                    )
                } else {
                    match old(self).launch_command() {
                        Err(e) => r == Err::<Action, EngineError>(e) && *final(self) == *old(self),
                        Ok(c) => (r matches Ok(Action::Launch(cmd)) && cmd@ == c) && *final(self)
                            == old(self).launching(),
                    }
                },
                EventType::Input(e) => r == Ok::<Action, EngineError>(Action::Nothing)
                    && *final(self) == old(self).step(e),
            },
    {
        if self.ignore_events {
            return Ok(Action::Nothing);
        }
        match event.typ {
            EventType::Input(e) => match e {
                InputEvent::Confirm => {
                    if self.orientation.menu_active {
                        Ok(self.event_input_menu_confirm())
                    } else {
                        self.event_input_launch()
                    }
                },
                InputEvent::Cancel => {
                    self.event_input_cancel();
                    Ok(Action::Nothing)
                },
                InputEvent::Menu => {
                    self.event_input_menu();
                    Ok(Action::Nothing)
                },
                InputEvent::Right => {
                    self.event_input_right();
                    Ok(Action::Nothing)
                },
                InputEvent::Left => {
                    self.event_input_left();
                    Ok(Action::Nothing)
                },
                InputEvent::Up => {
                    self.event_input_up();
                    Ok(Action::Nothing)
                },
                InputEvent::Down => {
                    self.event_input_down();
                    Ok(Action::Nothing)
                },
                InputEvent::PageUp => {
                    self.event_input_pageup();
                    Ok(Action::Nothing)
                },
                InputEvent::PageDown => {
                    self.event_input_pagedown();
                    Ok(Action::Nothing)
                },
                _ => Ok(Action::Nothing),
            },
        }
    }

    /// Records the display state seen as a launch starts, to restore afterwards.
    /// The result says whether the host must leave fullscreen before spawning.
    pub fn begin_launch(&mut self, fullscreen: bool) -> (leave_fullscreen: bool)
        requires
            old(self).wf(),
        ensures
            final(self).wf(),
            *final(self) == (App { restore_fullscreen: Some(fullscreen), ..*old(self) }),
            leave_fullscreen == fullscreen,
    {
        self.restore_fullscreen = Some(fullscreen);
        fullscreen
    }

    /// Ends a launch, once its process has exited or failed to start: input is
    /// accepted again. The result is the display state to restore, if one was recorded.
    pub fn end_launch(&mut self) -> (restore: Option<bool>)
        requires
            old(self).wf(),
        ensures
            final(self).wf(),
            *final(self) == (App { ignore_events: false, restore_fullscreen: None, ..*old(self) }),
            restore == old(self).restore_fullscreen,
    {
        self.ignore_events = false;
        self.restore_fullscreen.take()
    }

    /// The entries of the top-level menu, in order.
    pub fn menu(&self) -> (r: Vec<MenuItems>)
        ensures
            r@.len() == MENU_COUNT,
            forall|i: int| 0 <= i < MENU_COUNT ==> r@[i] == MenuItems::at(i as nat),
    {
        let r = vec![
            MenuItems::Settings,
            MenuItems::Fullscreen,
            MenuItems::Exit,
            MenuItems::Reboot,
            MenuItems::Shutdown,
        ];
        assert(r@.len() == 5);
        r
    }

    /// The fields of the settings list, in order.
    pub fn settings_menu(&self) -> (r: Vec<ConfigSettings>)
        ensures
            r@.len() == SETTINGS_COUNT,
            forall|i: int| 0 <= i < SETTINGS_COUNT ==> r@[i] == ConfigSettings::at(i as nat),
    {
        let r = vec![
            ConfigSettings::SwapConfirm,
            ConfigSettings::StartFullscreen,
            ConfigSettings::Theme,
            ConfigSettings::EnableKeyboard,
        ];
        assert(r@.len() == 4);
        r
    }

    /// The value type of each settings field, in the order of the list.
    pub fn settings_types(&self) -> (r: Vec<String>)
        ensures
            r@.len() == SETTINGS_COUNT,
            forall|i: int|
                0 <= i < SETTINGS_COUNT ==> (#[trigger] r@[i])@ == ConfigSettings::at(
                    i as nat,
                ).value_kind(),
    {
        let fields = self.settings_menu();
        let mut r: Vec<String> = Vec::new();
        let mut i: usize = 0;
        while i < fields.len()
            invariant
                fields@.len() == SETTINGS_COUNT,
                forall|j: int| 0 <= j < SETTINGS_COUNT ==> fields@[j] == ConfigSettings::at(j as nat),
                i <= SETTINGS_COUNT,
                r@.len() == i,
                forall|j: int|
                    0 <= j < i ==> (#[trigger] r@[j])@ == ConfigSettings::at(j as nat).value_kind(),
            decreases SETTINGS_COUNT - i,
        {
            r.push(fields[i].type_for());
            i = i + 1;
        }
        r
    }

    /// The JSON text of each settings value, in the order of the list.
    pub fn setting_values(&self) -> (r: Vec<String>)
        ensures
            r@.len() == SETTINGS_COUNT,
            forall|i: int|
                0 <= i < SETTINGS_COUNT ==> (#[trigger] r@[i])@ == self.config.value_of(
                    ConfigSettings::at(i as nat),
                ).json_spec(),
    {
        let fields = self.settings_menu();
        let mut r: Vec<String> = Vec::new();
        let mut i: usize = 0;
        while i < fields.len()
            invariant
                fields@.len() == SETTINGS_COUNT,
                forall|j: int| 0 <= j < SETTINGS_COUNT ==> fields@[j] == ConfigSettings::at(j as nat),
                i <= SETTINGS_COUNT,
                r@.len() == i,
                forall|j: int|
                    0 <= j < i ==> (#[trigger] r@[j])@ == self.config.value_of(
                        ConfigSettings::at(j as nat),
                    ).json_spec(),
            decreases SETTINGS_COUNT - i,
        {
            let value = self.config.setting_value(fields[i]);
            r.push(value.to_json());
            i = i + 1;
        }
        r
    }

    /// The game under the cursor.
    pub fn current_game(&self) -> (r: &Game)
        requires
            self.wf(),
        ensures
            *r == self.selected_game(),
    {
        &self.all_systems.system[self.orientation.system_index].gamelist[self.orientation.gamelist_index]
    }

    /// Whether events are being dropped because a launch runs.
    pub fn is_suppressed(&self) -> (r: bool)
        ensures
            r == self.ignore_events,
    {
        self.ignore_events
    }

    fn event_input_cancel(&mut self)
        requires
            old(self).wf(),
        ensures
            *final(self) == old(self).step(InputEvent::Cancel),
    {
        if self.orientation.menu_active {
            if self.orientation.menu_item_index.is_some() {
                self.orientation.menu_item_index = None;
            } else {
                self.orientation.menu_active = false;
                self.orientation.menu_index = None;
                self.orientation.menu_item_index = None;
            }
        }
    }

    fn event_input_menu(&mut self)
        requires
            old(self).wf(),
        ensures
            *final(self) == old(self).step(InputEvent::Menu),
    {
        self.orientation.menu_active = !self.orientation.menu_active;
        if self.orientation.menu_active {
            self.orientation.menu_index = Some(0);
        } else {
            self.orientation.menu_index = None;
            self.orientation.menu_item_index = None;
        }
    }

    fn event_input_right(&mut self)
        requires
            old(self).wf(),
        ensures
            *final(self) == old(self).step(InputEvent::Right),
    {
        if !self.orientation.menu_active {
            proof {
                App::lemma_wrap_one(self.orientation.system_index as int, self.n_systems() as int);
            }
            let last = self.all_systems.system.len() - 1;
            if self.orientation.system_index >= last {
                self.orientation.system_index = 0;
            } else {
                self.orientation.system_index = self.orientation.system_index + 1;
            }
            self.orientation.gamelist_index = 0;
        }
    }

    fn event_input_left(&mut self)
        requires
            old(self).wf(),
        ensures
            *final(self) == old(self).step(InputEvent::Left),
    {
        if !self.orientation.menu_active {
            proof {
                App::lemma_wrap_one(self.orientation.system_index as int, self.n_systems() as int);
            }
            let last = self.all_systems.system.len() - 1;
            if self.orientation.system_index == 0 {
                self.orientation.system_index = last;
            } else {
                self.orientation.system_index = self.orientation.system_index - 1;
            }
            self.orientation.gamelist_index = 0;
        }
    }

    /// Number of games of the selected system.
    fn current_len(&self) -> (r: usize)
        requires
            self.wf(),
        ensures
            r == self.n_games(self.orientation.system_index as int),
            r > 0,
    {
        self.all_systems.system[self.orientation.system_index].gamelist.len()
    }

    fn event_input_up(&mut self)
        requires
            old(self).wf(),
        ensures
            *final(self) == old(self).step(InputEvent::Up),
    {
        proof {
            let o = self.orientation;
            App::lemma_wrap_one(o.gamelist_index as int, self.n_games(o.system_index as int) as int);
            if let Some(m) = o.menu_index {
                App::lemma_wrap_one(m as int, MENU_COUNT as int);
            }
            if let Some(k) = o.menu_item_index {
                App::lemma_wrap_one(k as int, SETTINGS_COUNT as int);
            }
        }
        if self.orientation.menu_active {
            match self.orientation.menu_index {
                Some(index) => match self.orientation.menu_item_index {
                    Some(inner) => {
                        if inner == 0 {
                            self.orientation.menu_item_index = Some(SETTINGS_COUNT - 1);
                        } else {
                            self.orientation.menu_item_index = Some(inner - 1);
                        }
                    },
                    None => {
                        if index == 0 {
                            self.orientation.menu_index = Some(MENU_COUNT - 1);
                        } else {
                            self.orientation.menu_index = Some(index - 1);
                        }
                    },
                },
                None => {
                    self.orientation.menu_index = Some(0);
                },
            }
        } else {
            let len = self.current_len();
            if self.orientation.gamelist_index == 0 {
                self.orientation.gamelist_index = len - 1;
            } else {
                self.orientation.gamelist_index = self.orientation.gamelist_index - 1;
            }
        }
    }

    fn event_input_down(&mut self)
        requires
            old(self).wf(),
        ensures
            *final(self) == old(self).step(InputEvent::Down),
    {
        proof {
            let o = self.orientation;
            App::lemma_wrap_one(o.gamelist_index as int, self.n_games(o.system_index as int) as int);
            if let Some(m) = o.menu_index {
                App::lemma_wrap_one(m as int, MENU_COUNT as int);
            }
            if let Some(k) = o.menu_item_index {
                App::lemma_wrap_one(k as int, SETTINGS_COUNT as int);
            }
        }
        if self.orientation.menu_active {
            match self.orientation.menu_index {
                Some(index) => match self.orientation.menu_item_index {
                    Some(inner) => {
                        if inner == SETTINGS_COUNT - 1 {
                            self.orientation.menu_item_index = Some(0);
                        } else {
                            self.orientation.menu_item_index = Some(inner + 1);
                        }
                    },
                    None => {
                        if index == MENU_COUNT - 1 {
                            self.orientation.menu_index = Some(0);
                        } else {
                            self.orientation.menu_index = Some(index + 1);
                        }
                    },
                },
                None => {
                    self.orientation.menu_index = Some(0);
                },
            }
        } else {
            let len = self.current_len();
            if self.orientation.gamelist_index == len - 1 {
                self.orientation.gamelist_index = 0;
            } else {
                self.orientation.gamelist_index = self.orientation.gamelist_index + 1;
            }
        }
    }

    /// The page stride reduced below `len` by repeated subtraction of `len`.
    fn page_step(len: usize) -> (r: usize)
        requires
            len > 0,
        ensures
            r < len,
            r as int == PAGE_STRIDE as int % len as int,
    {
        let mut step: usize = PAGE_STRIDE;
        while step >= len
            invariant
                len > 0,
                step <= PAGE_STRIDE,
                step as int % len as int == PAGE_STRIDE as int % len as int,
            decreases step,
        {
            proof {
                vstd::arithmetic::div_mod::lemma_mod_sub_multiples_vanish(step as int, len as int);
            }
            step = step - len;
        }
        proof {
            vstd::arithmetic::div_mod::lemma_small_mod(step as nat, len as nat);
        }
        step
    }

    fn event_input_pageup(&mut self)
        requires
            old(self).wf(),
        ensures
            *final(self) == old(self).step(InputEvent::PageUp),
    {
        if !self.orientation.menu_active {
            let len = self.current_len();
            let step = App::page_step(len);
            let g = self.orientation.gamelist_index;
            if g >= step {
                self.orientation.gamelist_index = g - step;
            } else {
                self.orientation.gamelist_index = g + (len - step);
            }
            proof {
                App::lemma_page_back(g as int, len as int);
            }
        }
    }

    fn event_input_pagedown(&mut self)
        requires
            old(self).wf(),
        ensures
            *final(self) == old(self).step(InputEvent::PageDown),
    {
        if !self.orientation.menu_active {
            let len = self.current_len();
            let step = App::page_step(len);
            let g = self.orientation.gamelist_index;
            if step >= len - g {
                self.orientation.gamelist_index = g - (len - step);
            } else {
                self.orientation.gamelist_index = g + step;
            }
            proof {
                App::lemma_page_forward(g as int, len as int);
            }
        }
    }

    /// One place forward or back on a ring of `n` places.
    proof fn lemma_wrap_one(i: int, n: int)
        requires
            0 <= i < n,
        ensures
            wrap(i, 1, n) == if i == n - 1 {
                0
            } else {
                i + 1
            },
            wrap(i, -1, n) == if i == 0 {
                n - 1
            } else {
                i - 1
            },
    {
        if i == n - 1 {
            vstd::arithmetic::div_mod::lemma_mod_self_0(n);
        } else {
            vstd::arithmetic::div_mod::lemma_small_mod((i + 1) as nat, n as nat);
        }
        if i == 0 {
            vstd::arithmetic::div_mod::lemma_mod_multiples_vanish(-1, n - 1, n);
            vstd::arithmetic::div_mod::lemma_small_mod((n - 1) as nat, n as nat);
        } else {
            vstd::arithmetic::div_mod::lemma_small_mod((i - 1) as nat, n as nat);
        }
    }

    proof fn lemma_page_back(g: int, len: int)
        requires
            0 <= g < len,
        ensures
            ({
                let step = PAGE_STRIDE as int % len;
                wrap(g, -(PAGE_STRIDE as int), len) == if g >= step {
                    g - step
                } else {
                    g + (len - step)
                }
            }),
    {
        let step = PAGE_STRIDE as int % len;
        vstd::arithmetic::div_mod::lemma_fundamental_div_mod(PAGE_STRIDE as int, len);
        let q = PAGE_STRIDE as int / len;
        // g - stride == (g - step) - q * len
        vstd::arithmetic::div_mod::lemma_mod_multiples_vanish(-q, g - step, len);
        vstd::arithmetic::div_mod::lemma_mod_multiples_vanish(-q - 1, g - step + len, len);
        if g >= step {
            vstd::arithmetic::div_mod::lemma_small_mod((g - step) as nat, len as nat);
            assert(len * (-q) + (g - step) == g - PAGE_STRIDE as int) by (nonlinear_arith)
                requires
                    PAGE_STRIDE as int == len * q + step,
            ;
        } else {
            vstd::arithmetic::div_mod::lemma_small_mod((g - step + len) as nat, len as nat);
            assert(len * (-q - 1) + (g - step + len) == g - PAGE_STRIDE as int) by (nonlinear_arith)
                requires
                    PAGE_STRIDE as int == len * q + step,
            ;
        }
    }

    proof fn lemma_page_forward(g: int, len: int)
        requires
            0 <= g < len,
        ensures
            ({
                let step = PAGE_STRIDE as int % len;
                wrap(g, PAGE_STRIDE as int, len) == if step >= len - g {
                    g - (len - step)
                } else {
                    g + step
                }
            }),
    {
        let step = PAGE_STRIDE as int % len;
        vstd::arithmetic::div_mod::lemma_fundamental_div_mod(PAGE_STRIDE as int, len);
        let q = PAGE_STRIDE as int / len;
        vstd::arithmetic::div_mod::lemma_mod_multiples_vanish(q, g + step, len);
        vstd::arithmetic::div_mod::lemma_mod_multiples_vanish(q + 1, g + step - len, len);
        if step >= len - g {
            vstd::arithmetic::div_mod::lemma_small_mod((g + step - len) as nat, len as nat);
            assert(len * (q + 1) + (g + step - len) == g + PAGE_STRIDE as int) by (nonlinear_arith)
                requires
                    PAGE_STRIDE as int == len * q + step,
            ;
        } else {
            vstd::arithmetic::div_mod::lemma_small_mod((g + step) as nat, len as nat);
            assert(len * q + (g + step) == g + PAGE_STRIDE as int) by (nonlinear_arith)
                requires
                    PAGE_STRIDE as int == len * q + step,
            ;
        }
    }
}

impl App {
    /// The engine after `k` events `e`, none of them Confirm.
    pub open spec fn repeated(self, e: InputEvent, k: nat) -> App
        decreases k,
    {
        if k == 0 {
            self
        } else {
            self.repeated(e, (k - 1) as nat).step(e)
        }
    }

    /// After `k` presses of Right (or Left), with the menu closed, the system index
    /// has moved `k` places forward (or back) around the catalog.
    proof fn lemma_repeated_switch(self, e: InputEvent, k: nat)
        requires
            self.wf(),
            !self.orientation.menu_active,
            e == InputEvent::Right || e == InputEvent::Left,
        ensures
            self.repeated(e, k).wf(),
            self.repeated(e, k).all_systems == self.all_systems,
            !self.repeated(e, k).orientation.menu_active,
            self.repeated(e, k).orientation.system_index as int == wrap(
                self.orientation.system_index as int,
                if e == InputEvent::Right {
                    k as int
                } else {
                    -k
                },
                self.n_systems() as int,
            ),
        decreases k,
    {
        let n = self.n_systems() as int;
        let s = self.orientation.system_index as int;
        assert(self.all_systems.system@.len() == self.all_systems.system.len());
        if k == 0 {
            vstd::arithmetic::div_mod::lemma_small_mod(s as nat, n as nat);
        } else {
            self.lemma_repeated_switch(e, (k - 1) as nat);
            let prev = self.repeated(e, (k - 1) as nat);
            let d: int = if e == InputEvent::Right {
                1
            } else {
                -1
            };
            let j: int = if e == InputEvent::Right {
                (k - 1) as int
            } else {
                -(k - 1)
            };
            vstd::arithmetic::div_mod::lemma_add_mod_noop_right(d, s + j, n);
            App::lemma_wrap_one(prev.orientation.system_index as int, n);
            let next = wrap(prev.orientation.system_index as int, d, n);
            assert(next == wrap(s, j + d, n));
            assert(0 <= next < n);
            assert(self.repeated(e, k).orientation.system_index == next as usize);
        }
    }

    /// Pressing Right as many times as there are systems, or Left as many times,
    /// brings the cursor back to the system it started on.
    pub proof fn lemma_switch_round_trip(self)
        requires
            self.wf(),
            !self.orientation.menu_active,
        ensures
            self.repeated(InputEvent::Right, self.n_systems()).orientation.system_index
                == self.orientation.system_index,
            self.repeated(InputEvent::Left, self.n_systems()).orientation.system_index
                == self.orientation.system_index,
    {
        let n = self.n_systems();
        let s = self.orientation.system_index as int;
        self.lemma_repeated_switch(InputEvent::Right, n);
        self.lemma_repeated_switch(InputEvent::Left, n);
        vstd::arithmetic::div_mod::lemma_mod_multiples_vanish(1, s, n as int);
        vstd::arithmetic::div_mod::lemma_mod_multiples_vanish(-1, s, n as int);
        vstd::arithmetic::div_mod::lemma_small_mod(s as nat, n);
    }

    /// Switching systems with the menu closed always returns to the first game.
    pub proof fn lemma_switch_resets_game(self, e: InputEvent)
        requires
            self.wf(),
            !self.orientation.menu_active,
            e == InputEvent::Right || e == InputEvent::Left,
        ensures
            self.step(e).orientation.gamelist_index == 0,
    {
    }

    /// With the menu closed, PageDown moves the game index `PAGE_STRIDE` places
    /// forward around the game list, and PageUp undoes it; the reverse order too.
    pub proof fn lemma_page_round_trip(self)
        requires
            self.wf(),
            !self.orientation.menu_active,
        ensures
            self.step(InputEvent::PageDown).orientation.gamelist_index as int == (
            self.orientation.gamelist_index + PAGE_STRIDE) as int % self.n_games(
                self.orientation.system_index as int,
            ) as int,
            self.step(InputEvent::PageDown).step(InputEvent::PageUp).orientation
                == self.orientation,
            self.step(InputEvent::PageUp).step(InputEvent::PageDown).orientation
                == self.orientation,
    {
        let g = self.orientation.gamelist_index as int;
        let m = self.n_games(self.orientation.system_index as int) as int;
        let t = PAGE_STRIDE as int;
        let games = self.all_systems.system@[self.orientation.system_index as int].gamelist;
        assert(games@.len() == games.len());
        vstd::arithmetic::div_mod::lemma_small_mod(g as nat, m as nat);
        vstd::arithmetic::div_mod::lemma_mod_bound(g + t, m);
        vstd::arithmetic::div_mod::lemma_mod_bound(g - t, m);
        vstd::arithmetic::div_mod::lemma_sub_mod_noop(g + t, t, m);
        vstd::arithmetic::div_mod::lemma_sub_mod_noop_right((g + t) % m, t, m);
        vstd::arithmetic::div_mod::lemma_add_mod_noop(g - t, t, m);
        vstd::arithmetic::div_mod::lemma_add_mod_noop_right((g - t) % m, t, m);
        assert((g + t) - t == g);
        assert((g - t) + t == g);
        assert(self.step(InputEvent::PageDown).orientation.gamelist_index as int == (g + t) % m);
        assert(self.step(InputEvent::PageUp).orientation.gamelist_index as int == (g - t) % m);
    }

    /// Menu opens the menu on its first entry; Menu again closes it and clears
    /// both the entry and the settings field.
    pub proof fn lemma_menu_toggle(self)
        requires
            self.wf(),
        ensures
            !self.orientation.menu_active ==> {
                let opened = self.step(InputEvent::Menu).orientation;
                &&& opened.menu_active
                &&& opened.menu_index == Some(0usize)
                &&& opened.menu_item_index is None
            },
            self.orientation.menu_active ==> {
                let closed = self.step(InputEvent::Menu).orientation;
                &&& !closed.menu_active
                &&& closed.menu_index is None
                &&& closed.menu_item_index is None
            },
            !self.orientation.menu_active ==> self.step(InputEvent::Menu).step(
                InputEvent::Menu,
            ).orientation == self.orientation,
    {
    }

    /// Cancel while a settings field is focused only drops that focus: the menu
    /// stays open on the same entry.
    pub proof fn lemma_cancel_field(self)
        requires
            self.wf(),
            self.orientation.menu_item_index is Some,
        ensures
            self.step(InputEvent::Cancel).orientation == (Orientation {
                menu_item_index: None,
                ..self.orientation
            }),
            self.step(InputEvent::Cancel).orientation.menu_active,
            self.step(InputEvent::Cancel).orientation.menu_index == self.orientation.menu_index,
    {
    }
}

} // verus!
