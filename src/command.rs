use vstd::prelude::*;

use crate::app::App;
use crate::enums::{ConfigSettings, MenuItems, Orientation, MENU_COUNT, SETTINGS_COUNT};
use crate::gamelist::Game;
use crate::systems::System;
use crate::text::{decimal, decimal_text};

verus! {

/// Which picture or clip of the current game is asked for.
#[derive(Debug, Clone, Copy, PartialEq, Eq, Structural, Default)]
pub enum AssetType {
    #[default]
    Image,
    Thumbnail,
    Video,
}

/// Which descriptive text of the current game is asked for.
#[derive(Debug, Clone, Copy, PartialEq, Eq, Structural, Default)]
pub enum TextType {
    #[default]
    Description,
    Rating,
    ReleaseDate,
    Developer,
    Publisher,
    Genre,
    Players,
    PlayCount,
    LastPlayed,
}

/// The characters of an optional text.
pub open spec fn opt_view(o: Option<String>) -> Option<Seq<char>> {
    match o {
        Some(s) => Some(s@),
        None => None,
    }
}

impl Game {
    /// The asset path of the given kind.
    pub open spec fn asset(self, t: AssetType) -> Option<String> {
        match t {
            AssetType::Image => self.image,
            AssetType::Thumbnail => self.thumbnail,
            AssetType::Video => self.video,
        }
    }

    /// The descriptive text of the given kind; the play count in decimal.
    pub open spec fn text(self, t: TextType) -> Option<Seq<char>> {
        match t {
            TextType::Description => opt_view(self.desc),
            TextType::Rating => opt_view(self.rating),
            TextType::ReleaseDate => opt_view(self.releasedate),
            TextType::Developer => opt_view(self.developer),
            TextType::Publisher => opt_view(self.publisher),
            TextType::Genre => opt_view(self.genre),
            TextType::Players => opt_view(self.players),
            TextType::PlayCount => match self.playcount {
                Some(n) => Some(decimal(n as nat)),
                None => None,
            },
            TextType::LastPlayed => opt_view(self.lastplayed),
        }
    }
}

/// The labels of the top-level menu, in order.
pub fn menu(state: &App) -> (r: Vec<String>)
    ensures
        r@.len() == MENU_COUNT,
        forall|i: int|
            0 <= i < MENU_COUNT ==> (#[trigger] r@[i])@ == MenuItems::at(i as nat).label_spec(),
{
    let items = state.menu();
    let mut r: Vec<String> = Vec::new();
    let mut i: usize = 0;
    while i < items.len()
        invariant
            items@.len() == MENU_COUNT,
            forall|j: int| 0 <= j < MENU_COUNT ==> items@[j] == MenuItems::at(j as nat),
            i <= MENU_COUNT,
            r@.len() == i,
            forall|j: int| 0 <= j < i ==> (#[trigger] r@[j])@ == MenuItems::at(j as nat).label_spec(),
        decreases MENU_COUNT - i,
    {
        r.push(items[i].label());
        i = i + 1;
    }
    r
}

/// The labels of the settings list, in order.
pub fn settings_menu(state: &App) -> (r: Vec<String>)
    ensures
        r@.len() == SETTINGS_COUNT,
        forall|i: int|
            0 <= i < SETTINGS_COUNT ==> (#[trigger] r@[i])@ == ConfigSettings::at(
                i as nat,
            ).label_spec(),
{
    let fields = state.settings_menu();
    let mut r: Vec<String> = Vec::new();
    let mut i: usize = 0;
    while i < fields.len()
        invariant
            fields@.len() == SETTINGS_COUNT,
            forall|j: int| 0 <= j < SETTINGS_COUNT ==> fields@[j] == ConfigSettings::at(j as nat),
            i <= SETTINGS_COUNT,
            r@.len() == i,
            forall|j: int|
                0 <= j < i ==> (#[trigger] r@[j])@ == ConfigSettings::at(j as nat).label_spec(),
        decreases SETTINGS_COUNT - i,
    {
        r.push(fields[i].label());
        i = i + 1;
    }
    r
}

/// The value type of each settings field, in the order of the list.
pub fn setting_types(state: &App) -> (r: Vec<String>)
    ensures
        r@.len() == SETTINGS_COUNT,
        forall|i: int|
            0 <= i < SETTINGS_COUNT ==> (#[trigger] r@[i])@ == ConfigSettings::at(
                i as nat,
            ).value_kind(),
{
    state.settings_types()
}

/// The JSON text of the value of the settings field at position `setting`;
/// an error past the end of the list.
pub fn setting_value(state: &App, setting: usize) -> (r: Result<String, ()>)
    ensures
        r is Ok <==> setting < SETTINGS_COUNT,
        r matches Ok(s) ==> s@ == state.config.value_of(ConfigSettings::at(setting as nat)).json_spec(),
{
    match ConfigSettings::from_index(setting) {
        Some(field) => Ok(state.config.setting_value(field).to_json()),
        None => Err(()),
    }
}

/// The asset path of the given kind of the game under the cursor.
pub fn current_asset(state: &App, asset_type: AssetType) -> (r: Option<String>)
    requires
        state.wf(),
    ensures
        r == state.selected_game().asset(asset_type),
{
    let game = state.current_game();
    match asset_type {
        AssetType::Image => game.image.clone(),
        AssetType::Thumbnail => game.thumbnail.clone(),
        AssetType::Video => game.video.clone(),
    }
}

/// The descriptive text of the given kind of the game under the cursor.
pub fn current_text(state: &App, text_type: TextType) -> (r: Option<String>)
    requires
        state.wf(),
    ensures
        opt_view(r) == state.selected_game().text(text_type),
{
    let game = state.current_game();
    match text_type {
        TextType::Description => game.desc.clone(),
        TextType::Rating => game.rating.clone(),
        TextType::ReleaseDate => game.releasedate.clone(),
        TextType::Developer => game.developer.clone(),
        TextType::Publisher => game.publisher.clone(),
        TextType::Genre => game.genre.clone(),
        TextType::Players => game.players.clone(),
        TextType::PlayCount => match game.playcount {
            Some(n) => Some(decimal_text(n)),
            None => None,
        },
        TextType::LastPlayed => game.lastplayed.clone(),
    }
}

/// A copy of the catalog.
pub fn all_systems(state: &App) -> (r: Vec<System>)
    ensures
        r@.len() == state.all_systems.system@.len(),
        forall|i: int| 0 <= i < r@.len() ==> (#[trigger] r@[i]).same_as(&state.all_systems.system@[i]),
{
    state.all_systems.clone().system
}

/// A copy of the cursor.
pub fn current_orientation(state: &App) -> (r: Orientation)
    ensures
        r == state.orientation,
{
    state.orientation
}

} // verus!
