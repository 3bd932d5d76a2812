use vstd::prelude::*;

use crate::enums::ConfigSettings;

verus! {

/// How much the program logs.
#[derive(Debug, Clone, Copy, PartialEq, Eq, Structural)]
pub enum LogLevel {
    Trace,
    Debug,
    Info,
    Warn,
    Error,
}

/// The persisted user settings.
#[derive(Debug)]
pub struct Config {
    pub swap_confirm: bool,
    pub start_fullscreen: bool,
    pub theme: Option<String>,
    pub enable_keyboard: bool,
    pub log_level: LogLevel,
}

impl Clone for Config {
    fn clone(&self) -> (r: Self)
        ensures
            r == *self,
    {
        Config {
            swap_confirm: self.swap_confirm,
            start_fullscreen: self.start_fullscreen,
            theme: self.theme.clone(),
            enable_keyboard: self.enable_keyboard,
            log_level: self.log_level,
        }
    }
}

impl Config {
    /// The built-in settings, used when no configuration file can be read.
    pub open spec fn defaults() -> Config {
        Config {
            swap_confirm: false,
            start_fullscreen: true,
            theme: None,
            enable_keyboard: false,
            log_level: LogLevel::Debug,
        }
    }

    /// The settings read from storage, or the built-in ones where nothing could be read.
    pub fn load_or_default(loaded: Option<Config>) -> (r: Config)
        ensures
            r == (match loaded {
                Some(c) => c,
                None => Config::defaults(),
            }),
    {
        match loaded {
            Some(c) => c,
            None => Config::default(),
        }
    }

    /// The value of one settings field.
    pub fn setting_value(&self, setting: ConfigSettings) -> (r: SettingTypes)
        ensures
            r == self.value_of(setting),
    {
        match setting {
            ConfigSettings::SwapConfirm => SettingTypes::Boolean(self.swap_confirm),
            ConfigSettings::StartFullscreen => SettingTypes::Boolean(self.start_fullscreen),
            ConfigSettings::Theme => SettingTypes::OptionString(self.theme.clone()),
            ConfigSettings::EnableKeyboard => SettingTypes::Boolean(self.enable_keyboard),
        }
    }

    /// The value of one settings field.
    pub open spec fn value_of(self, setting: ConfigSettings) -> SettingTypes {
        match setting {
            ConfigSettings::SwapConfirm => SettingTypes::Boolean(self.swap_confirm),
            ConfigSettings::StartFullscreen => SettingTypes::Boolean(self.start_fullscreen),
            ConfigSettings::Theme => SettingTypes::OptionString(self.theme),
            ConfigSettings::EnableKeyboard => SettingTypes::Boolean(self.enable_keyboard),
        }
    }

    /// The settings after a confirm on `setting`: a flag is inverted; the theme is
    /// chosen elsewhere and stays.
    pub open spec fn toggled(self, setting: ConfigSettings) -> Config {
        match setting {
            ConfigSettings::SwapConfirm => Config { swap_confirm: !self.swap_confirm, ..self },
            ConfigSettings::StartFullscreen => Config {
                start_fullscreen: !self.start_fullscreen,
                ..self
            },
            ConfigSettings::Theme => self,
            ConfigSettings::EnableKeyboard => Config {
                enable_keyboard: !self.enable_keyboard,
                ..self
            },
        }
    }

    /// Confirms `setting` in place: a flag is inverted, the theme stays.
    pub fn toggle(&mut self, setting: ConfigSettings)
        ensures
            *final(self) == old(self).toggled(setting),
    {
        match setting {
            ConfigSettings::SwapConfirm => self.swap_confirm = !self.swap_confirm,
            ConfigSettings::StartFullscreen => self.start_fullscreen = !self.start_fullscreen,
            ConfigSettings::Theme => {},
            ConfigSettings::EnableKeyboard => self.enable_keyboard = !self.enable_keyboard,
        }
    }
}

impl Default for Config {
    fn default() -> (r: Config)
        ensures
            r == Config::defaults(),
    {
        Config {
            swap_confirm: false,
            start_fullscreen: true,
            theme: None,
            enable_keyboard: false,
            log_level: LogLevel::Debug,
        }
    }
}

/// The value of a settings field, with its type.
#[derive(Debug, PartialEq, Eq)]
pub enum SettingTypes {
    Boolean(bool),
    OptionString(Option<String>),
}

/// A JSON string literal: the characters between double quotes, with `"`, `\`
/// and the control characters below U+0020 escaped.
pub open spec fn json_quoted(s: Seq<char>) -> Seq<char> {
    seq!['"'] + s.map_values(|c: char| json_escape(c)).flatten() + seq!['"']
}

/// The JSON text of one character inside a string literal.
pub open spec fn json_escape(c: char) -> Seq<char> {
    if c == '"' {
        seq!['\\', '"']
    } else if c == '\\' {
        seq!['\\', '\\']
    } else if c == '\x08' {
        seq!['\\', 'b']
    } else if c == '\t' {
        seq!['\\', 't']
    } else if c == '\n' {
        seq!['\\', 'n']
    } else if c == '\x0c' {
        seq!['\\', 'f']
    } else if c == '\r' {
        seq!['\\', 'r']
    } else if (c as u32) < 0x20 {
        seq!['\\', 'u', '0', '0', hex_digit((c as u32) / 16), hex_digit((c as u32) % 16)]
    } else {
        seq![c]
    }
}

/// A lower-case hexadecimal digit.
pub open spec fn hex_digit(d: u32) -> char {
    seq!['0', '1', '2', '3', '4', '5', '6', '7', '8', '9', 'a', 'b', 'c', 'd', 'e', 'f'][d as int]
}

impl SettingTypes {
    /// The compact JSON text of the value.
    pub open spec fn json_spec(self) -> Seq<char> {
        match self {
            SettingTypes::Boolean(b) => if b {
                "true"@
            } else {
                "false"@
            },
            SettingTypes::OptionString(None) => "null"@,
            SettingTypes::OptionString(Some(s)) => json_quoted(s@),
        }
    }

    /// The compact JSON text of the value, as the presentation layer reads it.
    pub fn to_json(&self) -> (r: String)
        ensures
            r@ == self.json_spec(),
    {
        match self {
            SettingTypes::Boolean(b) => json_of_flag(*b),
            SettingTypes::OptionString(s) => json_of_text(s),
        }
    }
}

/// Relies on `Display` for `serde_json::Value` built from a `bool`: the compact
/// JSON text, `true` or `false`.
#[verifier::external_body]
fn json_of_flag(b: bool) -> (r: String)
    ensures
        r@ == (if b {
            "true"@
        } else {
            "false"@
        }),
{
    serde_json::Value::from(b).to_string()
}

/// Relies on `Display` for `serde_json::Value` built from an `Option<String>`:
/// `null` for `None`, else the string literal with serde_json's escapes.
#[verifier::external_body]
fn json_of_text(s: &Option<String>) -> (r: String)
    ensures
        r@ == (match s {
            None => "null"@,
            Some(t) => json_quoted(t@),
        }),
{
    serde_json::Value::from(s.clone()).to_string()
}

} // verus!
