//! The per-game configuration the scan consumes, as the configuration
//! collaborator hands it over: install paths and enabled addons per
//! edition.  This crate never reads configuration files; the host passes
//! these plain values in.

use vstd::prelude::*;

verus! {

/// One enabled addon in a game's settings, by group and addon name.
#[derive(Debug, PartialEq, Eq)]
pub struct GameEditionAddon {
    pub group: String,
    pub name: String,
}

impl Clone for GameEditionAddon {
    fn clone(&self) -> (res: Self)
        ensures
            res == self,
    {
        GameEditionAddon { group: self.group.clone(), name: self.name.clone() }
    }
}

/// Where one edition of a game lives on disk.
#[derive(Debug, PartialEq, Eq)]
pub struct EditionPaths {
    /// The edition the paths belong to.
    pub edition: String,
    /// The game's own install root.
    pub game: String,
    /// The root that non-module addons install under.
    pub addons: String,
}

impl Clone for EditionPaths {
    fn clone(&self) -> (res: Self)
        ensures
            res == self,
    {
        EditionPaths {
            edition: self.edition.clone(),
            game: self.game.clone(),
            addons: self.addons.clone(),
        }
    }
}

/// The enabled addons of one edition.
#[derive(Debug, PartialEq, Eq)]
pub struct EditionAddons {
    /// The edition the list belongs to.
    pub edition: String,
    /// The addons the player enabled, beyond the required ones.
    pub enabled: Vec<GameEditionAddon>,
}

/// One game's settings: paths and enabled addons, per edition.
#[derive(Debug)]
pub struct GameSettings {
    pub paths: Vec<EditionPaths>,
    pub addons: Vec<EditionAddons>,
}

impl GameSettings {
    /// The paths configured for an edition, if any.
    pub fn get_paths(&self, edition: &String) -> (r: Option<&EditionPaths>)
        ensures
            match r {
                Some(p) => exists|j: int|
                    0 <= j < self.paths@.len() && (#[trigger] self.paths@[j]).edition@ == edition@
                        && *p == self.paths@[j],
                None => forall|j: int|
                    0 <= j < self.paths@.len() ==> (#[trigger] self.paths@[j]).edition@
                        != edition@,
            },
    {
        for i in 0..self.paths.len()
            invariant
                forall|j: int| 0 <= j < i ==> (#[trigger] self.paths@[j]).edition@ != edition@,
        {
            if self.paths[i].edition == *edition {
                return Some(&self.paths[i]);
            }
        }
        None
    }

    /// The enabled addons configured for an edition, if any.
    pub fn get_enabled_addons(&self, edition: &String) -> (r: Option<&Vec<GameEditionAddon>>)
        ensures
            match r {
                Some(a) => exists|j: int|
                    0 <= j < self.addons@.len() && (#[trigger] self.addons@[j]).edition@
                        == edition@ && *a == self.addons@[j].enabled,
                None => forall|j: int|
                    0 <= j < self.addons@.len() ==> (#[trigger] self.addons@[j]).edition@
                        != edition@,
            },
    {
        for i in 0..self.addons.len()
            invariant
                forall|j: int| 0 <= j < i ==> (#[trigger] self.addons@[j]).edition@ != edition@,
        {
            if self.addons[i].edition == *edition {
                return Some(&self.addons[i].enabled);
            }
        }
        None
    }
}

/// The settings for one game, looked up by game name, if any.
pub fn lookup_game_settings<'a>(settings: &'a Vec<(String, GameSettings)>, game_name: &String) -> (r:
    Option<&'a GameSettings>)
    ensures
        match r {
            Some(s) => exists|j: int|
                0 <= j < settings@.len() && (#[trigger] settings@[j]).0@ == game_name@ && *s
                    == settings@[j].1,
            None => forall|j: int|
                0 <= j < settings@.len() ==> (#[trigger] settings@[j]).0@ != game_name@,
        },
{
    for i in 0..settings.len()
        invariant
            forall|j: int| 0 <= j < i ==> (#[trigger] settings@[j]).0@ != game_name@,
    {
        if settings[i].0 == *game_name {
            return Some(&settings[i].1);
        }
    }
    None
}

} // verus!
