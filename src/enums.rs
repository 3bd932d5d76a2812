use vstd::prelude::*;

verus! {

/// A field of the settings list, in the order in which the list shows them.
#[derive(Debug, Clone, Copy, PartialEq, Eq, Structural)]
pub enum ConfigSettings {
    SwapConfirm,
    StartFullscreen,
    Theme,
    EnableKeyboard,
}

/// Number of fields in the settings list.
pub const SETTINGS_COUNT: usize = 4;

impl ConfigSettings {
    /// The position of the field in the settings list.
    pub open spec fn ordinal(self) -> nat {
        match self {
            ConfigSettings::SwapConfirm => 0,
            ConfigSettings::StartFullscreen => 1,
            ConfigSettings::Theme => 2,
            ConfigSettings::EnableKeyboard => 3,
        }
    }

    /// The field at position `k` of the settings list (the last one past its end).
    pub open spec fn at(k: nat) -> ConfigSettings {
        if k == 0 {
            ConfigSettings::SwapConfirm
        } else if k == 1 {
            ConfigSettings::StartFullscreen
        } else if k == 2 {
            ConfigSettings::Theme
        } else {
            ConfigSettings::EnableKeyboard
        }
    }

    /// Whether the field holds a flag (as opposed to a text).
    pub open spec fn is_flag(self) -> bool {
        !(self is Theme)
    }

    /// The field at position `index` of the settings list; `None` past its end.
    pub fn from_index(index: usize) -> (r: Option<ConfigSettings>)
        ensures
            r is Some <==> index < SETTINGS_COUNT,
            r matches Some(f) ==> f.ordinal() == index && f == ConfigSettings::at(index as nat),
    {
        match index {
            0 => Some(ConfigSettings::SwapConfirm),
            1 => Some(ConfigSettings::StartFullscreen),
            2 => Some(ConfigSettings::Theme),
            3 => Some(ConfigSettings::EnableKeyboard),
            _ => None,
        }
    }

    /// The text that the settings list shows for the field.
    pub open spec fn label_spec(self) -> Seq<char> {
        match self {
            ConfigSettings::SwapConfirm => "Japanese-style Input"@,
            ConfigSettings::StartFullscreen => "Start in Fullscreen"@,
            ConfigSettings::Theme => "Set Theme"@,
            ConfigSettings::EnableKeyboard => "Enable Keyboard"@,
        }
    }

    /// The text that the settings list shows for the field.
    pub fn label(&self) -> (r: String)
        ensures
            r@ == self.label_spec(),
    {
        match self {
            ConfigSettings::SwapConfirm => String::from_str("Japanese-style Input"),
            ConfigSettings::StartFullscreen => String::from_str("Start in Fullscreen"),
            ConfigSettings::Theme => String::from_str("Set Theme"),
            ConfigSettings::EnableKeyboard => String::from_str("Enable Keyboard"),
        }
    }

    /// The name of the field's value type, as the presentation layer reads it.
    pub open spec fn value_kind(self) -> Seq<char> {
        if self.is_flag() {
            "boolean"@
        } else {
            "string"@
        }
    }

    /// The name of the field's value type, as the presentation layer reads it.
    pub fn type_for(&self) -> (r: String)
        ensures
            r@ == self.value_kind(),
    {
        match self {
            ConfigSettings::SwapConfirm => String::from_str("boolean"),
            ConfigSettings::StartFullscreen => String::from_str("boolean"),
            ConfigSettings::Theme => String::from_str("string"),
            ConfigSettings::EnableKeyboard => String::from_str("boolean"),
        }
    }
}

/// An entry of the top-level action menu, in the order in which the menu shows them.
#[derive(Debug, Clone, Copy, PartialEq, Eq, Structural)]
pub enum MenuItems {
    Settings,
    Fullscreen,
    Exit,
    Reboot,
    Shutdown,
}

/// Number of entries in the top-level action menu.
pub const MENU_COUNT: usize = 5;

impl MenuItems {
    /// The position of the entry in the menu.
    pub open spec fn ordinal(self) -> nat {
        match self {
            MenuItems::Settings => 0,
            MenuItems::Fullscreen => 1,
            MenuItems::Exit => 2,
            MenuItems::Reboot => 3,
            MenuItems::Shutdown => 4,
        }
    }

    /// The entry at position `k` of the menu (the last one past its end).
    pub open spec fn at(k: nat) -> MenuItems {
        if k == 0 {
            MenuItems::Settings
        } else if k == 1 {
            MenuItems::Fullscreen
        } else if k == 2 {
            MenuItems::Exit
        } else if k == 3 {
            MenuItems::Reboot
        } else {
            MenuItems::Shutdown
        }
    }

    /// The entry at position `index` of the menu; `None` past its end.
    pub fn from_index(index: usize) -> (r: Option<MenuItems>)
        ensures
            r is Some <==> index < MENU_COUNT,
            r matches Some(m) ==> m.ordinal() == index && m == MenuItems::at(index as nat),
    {
        match index {
            0 => Some(MenuItems::Settings),
            1 => Some(MenuItems::Fullscreen),
            2 => Some(MenuItems::Exit),
            3 => Some(MenuItems::Reboot),
            4 => Some(MenuItems::Shutdown),
            _ => None,
        }
    }

    /// The text that the menu shows for the entry.
    pub open spec fn label_spec(self) -> Seq<char> {
        match self {
            MenuItems::Settings => "Settings"@,
            MenuItems::Fullscreen => "Toggle Fullscreen Window"@,
            MenuItems::Exit => "Exit RAWRcade"@,
            MenuItems::Reboot => "Reboot System"@,
            MenuItems::Shutdown => "Shutdown System"@,
        }
    }

    /// The text that the menu shows for the entry.
    pub fn label(&self) -> (r: String)
        ensures
            r@ == self.label_spec(),
    {
        match self {
            MenuItems::Settings => String::from_str("Settings"),
            MenuItems::Fullscreen => String::from_str("Toggle Fullscreen Window"),
            MenuItems::Exit => String::from_str("Exit RAWRcade"),
            MenuItems::Reboot => String::from_str("Reboot System"),
            MenuItems::Shutdown => String::from_str("Shutdown System"),
        }
    }
}

/// A semantic input action, whatever device it came from.
#[derive(Debug, Clone, Copy, PartialEq, Eq, Structural)]
pub enum InputEvent {
    Up,
    Down,
    Left,
    Right,
    Confirm,
    Cancel,
    Delete,
    Menu,
    Quit,
    PageUp,
    PageDown,
    First,
    Last,
}

/// The kinds of event that reach the dispatcher.
#[derive(Debug, Clone, Copy, PartialEq, Eq, Structural)]
pub enum EventType {
    Input(InputEvent),
}

/// One event taken from the event channel.
#[derive(Debug, Clone, Copy, PartialEq, Eq, Structural)]
pub struct Event {
    pub typ: EventType,
}

/// Where the user is: the selected system and game, and the focus in the menu.
///
/// `menu_index` is set exactly while the menu is open; `menu_item_index`, the
/// focused settings field, is set only while the menu's settings entry is selected.
#[derive(Debug, Clone, Copy, PartialEq, Eq, Structural)]
pub struct Orientation {
    pub system_index: usize,
    pub gamelist_index: usize,
    pub menu_active: bool,
    pub menu_index: Option<usize>,
    pub menu_item_index: Option<usize>,
}

impl Orientation {
    /// The position at session start: first system, first game, menu closed.
    pub open spec fn initial() -> Orientation {
        Orientation {
            system_index: 0,
            gamelist_index: 0,
            menu_active: false,
            menu_index: None,
            menu_item_index: None,
        }
    }

    /// The menu's part of the invariant: which indices are set, and that they
    /// stay within the menu and the settings list.
    pub open spec fn menu_wf(self) -> bool {
        &&& (self.menu_index is Some <==> self.menu_active)
        &&& (self.menu_index matches Some(m) ==> m < MENU_COUNT)
        &&& (self.menu_item_index matches Some(k) ==> k < SETTINGS_COUNT && self.menu_index
            == Some(0usize))
    }
}

impl Default for Orientation {
    fn default() -> (r: Orientation)
        ensures
            r == Orientation::initial(),
    {
        Orientation {
            system_index: 0,
            gamelist_index: 0,
            menu_active: false,
            menu_index: None,
            menu_item_index: None,
        }
    }
}

} // verus!
