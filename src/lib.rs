//! The navigation and launch engine of a kiosk-style game launcher.
//!
//! The library holds the catalog of systems and their games, the cursor
//! (`Orientation`) that says where the user is, the action menu with its
//! settings list, and the lifecycle of an emulator launch. Every transition
//! is a verified function from the current state and one input event to the
//! next state and an `Action` that the host program carries out.
pub mod app;
pub mod command;
pub mod config;
pub mod enums;
pub mod gamelist;
pub mod systems;
pub mod text;

pub use app::{App, Action, EngineError, PAGE_STRIDE};
pub use command::{
    all_systems, current_asset, current_orientation, current_text, menu, setting_types,
    setting_value, settings_menu, AssetType, TextType,
};
pub use config::{Config, LogLevel, SettingTypes};
pub use enums::{ConfigSettings, Event, EventType, InputEvent, MenuItems, Orientation};
pub use gamelist::{Folder, Game, GameList};
pub use systems::{System, SystemList};
