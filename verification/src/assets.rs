//! The font and the icons of the menu: where the host takes each of them
//! from, and which icon stands for which entry.
use crate::types::{HostKey, MenuIcon};
use vstd::prelude::*;

verus! {

/// What the menu needs the host to load.
#[derive(Debug, Clone, Copy, PartialEq, Eq, Structural)]
pub enum AssetSlot {
    Font,
    Checked,
    Unchecked,
    Back,
    Controls,
    Sound,
    Players,
    Settings,
}

/// Where the host takes an asset from.
#[derive(Debug, Clone, Copy)]
pub enum AssetSource {
    /// The file at this path, in place of what the menu brings along.
    File(&'static str),
    /// What the menu brings along for the slot.
    BuiltIn,
}

/// Paths of a font and of icons to use in place of those that the menu
/// brings along. A path that is left out keeps the built-in asset.
#[derive(Debug, Clone, Copy)]
pub struct MenuOptions {
    pub font: Option<&'static str>,
    pub icon_checked: Option<&'static str>,
    pub icon_unchecked: Option<&'static str>,
    pub icon_back: Option<&'static str>,
    pub icon_controls: Option<&'static str>,
    pub icon_sound: Option<&'static str>,
    pub icon_players: Option<&'static str>,
    pub icon_settings: Option<&'static str>,
}

impl Default for MenuOptions {
    /// Options that replace nothing.
    fn default() -> (options: Self)
        ensures
            forall|slot: AssetSlot| options.path(slot) is None,
    {
        MenuOptions {
            font: None,
            icon_checked: None,
            icon_unchecked: None,
            icon_back: None,
            icon_controls: None,
            icon_sound: None,
            icon_players: None,
            icon_settings: None,
        }
    }
}

impl MenuOptions {
    /// The path that the options give for `slot`, if any.
    pub open spec fn path(self, slot: AssetSlot) -> Option<&'static str> {
        match slot {
            AssetSlot::Font => self.font,
            AssetSlot::Checked => self.icon_checked,
            AssetSlot::Unchecked => self.icon_unchecked,
            AssetSlot::Back => self.icon_back,
            AssetSlot::Controls => self.icon_controls,
            AssetSlot::Sound => self.icon_sound,
            AssetSlot::Players => self.icon_players,
            AssetSlot::Settings => self.icon_settings,
        }
    }

    /// Where the host takes the asset for `slot` from: the file that the
    /// options name for it, and the built-in asset where they name none.
    pub fn source(&self, slot: AssetSlot) -> (source: AssetSource)
        ensures
            match self.path(slot) {
                Some(path) => source matches AssetSource::File(file) && file == path,
                None => source is BuiltIn,
            },
    {
        let path = match slot {
            AssetSlot::Font => self.font,
            AssetSlot::Checked => self.icon_checked,
            AssetSlot::Unchecked => self.icon_unchecked,
            AssetSlot::Back => self.icon_back,
            AssetSlot::Controls => self.icon_controls,
            AssetSlot::Sound => self.icon_sound,
            AssetSlot::Players => self.icon_players,
            AssetSlot::Settings => self.icon_settings,
        };
        match path {
            Some(file) => AssetSource::File(file),
            None => AssetSource::BuiltIn,
        }
    }
}

/// The keys under which the host holds what it has loaded for the menu.
#[derive(Debug, Clone, Copy, PartialEq, Eq, Structural)]
pub struct MenuAssets {
    pub font: HostKey,
    pub icon_checked: HostKey,
    pub icon_unchecked: HostKey,
    pub icon_back: HostKey,
    pub icon_controls: HostKey,
    pub icon_sound: HostKey,
    pub icon_players: HostKey,
    pub icon_settings: HostKey,
}

impl MenuAssets {
    /// The order in which the host loads the assets.
    pub open spec fn spec_load_order() -> Seq<AssetSlot> {
        seq![
            AssetSlot::Font,
            AssetSlot::Unchecked,
            AssetSlot::Checked,
            AssetSlot::Back,
            AssetSlot::Controls,
            AssetSlot::Sound,
            AssetSlot::Players,
            AssetSlot::Settings,
        ]
    }

    /// The order in which the host loads the assets.
    pub fn load_order() -> (slots: [AssetSlot; 8])
        ensures
            slots@ == Self::spec_load_order(),
    {
        [
            AssetSlot::Font,
            AssetSlot::Unchecked,
            AssetSlot::Checked,
            AssetSlot::Back,
            AssetSlot::Controls,
            AssetSlot::Sound,
            AssetSlot::Players,
            AssetSlot::Settings,
        ]
    }

    /// Puts together what the host has loaded: `keys` holds the key of each
    /// asset, in the order in which the assets are loaded.
    pub fn from_loaded(keys: [HostKey; 8]) -> (assets: Self)
        ensures
            forall|i: int|
                0 <= i < 8 ==> assets.spec_asset(#[trigger] Self::spec_load_order()[i]) == keys@[i],
    {
        MenuAssets {
            font: keys[0],
            icon_unchecked: keys[1],
            icon_checked: keys[2],
            icon_back: keys[3],
            icon_controls: keys[4],
            icon_sound: keys[5],
            icon_players: keys[6],
            icon_settings: keys[7],
        }
    }

    /// The key of the asset in `slot`.
    pub open spec fn spec_asset(self, slot: AssetSlot) -> HostKey {
        match slot {
            AssetSlot::Font => self.font,
            AssetSlot::Checked => self.icon_checked,
            AssetSlot::Unchecked => self.icon_unchecked,
            AssetSlot::Back => self.icon_back,
            AssetSlot::Controls => self.icon_controls,
            AssetSlot::Sound => self.icon_sound,
            AssetSlot::Players => self.icon_players,
            AssetSlot::Settings => self.icon_settings,
        }
    }

    /// The key of the asset in `slot`.
    #[verifier::when_used_as_spec(spec_asset)]
    pub fn asset(self, slot: AssetSlot) -> (key: HostKey)
        ensures
            key == self.spec_asset(slot),
    {
        match slot {
            AssetSlot::Font => self.font,
            AssetSlot::Checked => self.icon_checked,
            AssetSlot::Unchecked => self.icon_unchecked,
            AssetSlot::Back => self.icon_back,
            AssetSlot::Controls => self.icon_controls,
            AssetSlot::Sound => self.icon_sound,
            AssetSlot::Players => self.icon_players,
            AssetSlot::Settings => self.icon_settings,
        }
    }
}

impl MenuIcon {
    /// The image that stands for the icon: none for no icon, the loaded
    /// image for each of the stock icons, and its own for any other.
    pub open spec fn image(self, assets: MenuAssets) -> Option<HostKey> {
        match self {
            MenuIcon::NoIcon => None,
            MenuIcon::Checked => Some(assets.icon_checked),
            MenuIcon::Unchecked => Some(assets.icon_unchecked),
            MenuIcon::Back => Some(assets.icon_back),
            MenuIcon::Controls => Some(assets.icon_controls),
            MenuIcon::Sound => Some(assets.icon_sound),
            MenuIcon::Players => Some(assets.icon_players),
            MenuIcon::Settings => Some(assets.icon_settings),
            MenuIcon::Other(image) => Some(image),
        }
    }

    /// Finds the image that stands for the icon.
    pub fn resolve_icon(&self, assets: &MenuAssets) -> (image: Option<HostKey>)
        ensures
            image == self.image(*assets),
    {
        match self {
            MenuIcon::NoIcon => None,
            MenuIcon::Checked => Some(assets.icon_checked),
            MenuIcon::Unchecked => Some(assets.icon_unchecked),
            MenuIcon::Back => Some(assets.icon_back),
            MenuIcon::Controls => Some(assets.icon_controls),
            MenuIcon::Sound => Some(assets.icon_sound),
            MenuIcon::Players => Some(assets.icon_players),
            MenuIcon::Settings => Some(assets.icon_settings),
            MenuIcon::Other(s) => Some(*s),
        }
    }
}

} // verus!
