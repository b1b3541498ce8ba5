//! The pure scan logic: enablement, the attention decision, installation
//! path derivation and list partitioning.

use game_integrations::scan::{
    addon_needs_attention, is_addon_enabled, partition_entries, GameListEntry,
};
use game_integrations::settings::GameEditionAddon;
use game_integrations::standards::addons::{Addon, AddonType, AddonsGroup};
use game_integrations::standards::game::GameEdition;

fn sample_addon(kind: AddonType, required: bool) -> Addon {
    Addon {
        kind,
        name: String::from("en"),
        title: String::from("English"),
        version: String::from("1.0"),
        required,
    }
}

fn sample_group() -> AddonsGroup {
    AddonsGroup {
        name: String::from("voice-packs"),
        title: String::from("Voice packs"),
        addons: vec![],
    }
}

#[test]
fn required_addon_is_always_enabled() {
    let addon = sample_addon(AddonType::Layer, true);
    let group = sample_group();
    // No settings at all: still enabled, because the game requires it.
    assert!(is_addon_enabled(&vec![], &addon, &group));
    // Settings enabling something unrelated do not matter either.
    let unrelated = vec![GameEditionAddon {
        group: String::from("other"),
        name: String::from("fr"),
    }];
    assert!(is_addon_enabled(&unrelated, &addon, &group));
}

#[test]
fn optional_addon_without_matching_entry_is_disabled() {
    let addon = sample_addon(AddonType::Layer, false);
    let group = sample_group();
    assert!(!is_addon_enabled(&vec![], &addon, &group));
    // Same name under a different group does not enable it.
    let wrong_group = vec![GameEditionAddon {
        group: String::from("other"),
        name: String::from("en"),
    }];
    assert!(!is_addon_enabled(&wrong_group, &addon, &group));
    // Same group, different addon name: still disabled.
    let wrong_name = vec![GameEditionAddon {
        group: String::from("voice-packs"),
        name: String::from("fr"),
    }];
    assert!(!is_addon_enabled(&wrong_name, &addon, &group));
}

#[test]
fn optional_addon_with_matching_entry_is_enabled() {
    let addon = sample_addon(AddonType::Layer, false);
    let group = sample_group();
    let enabled = vec![
        GameEditionAddon {
            group: String::from("other"),
            name: String::from("en"),
        },
        GameEditionAddon {
            group: String::from("voice-packs"),
            name: String::from("en"),
        },
    ];
    assert!(is_addon_enabled(&enabled, &addon, &group));
}

#[test]
fn attention_decision_matches_the_rule() {
    // needs attention = enabled and (not installed or outdated)
    assert!(addon_needs_attention(true, false, false));
    assert!(addon_needs_attention(true, true, true));
    assert!(!addon_needs_attention(true, true, false));
    assert!(!addon_needs_attention(false, false, false));
    assert!(!addon_needs_attention(false, true, true));
}

#[test]
fn module_addon_installs_into_the_game_root() {
    let addon = sample_addon(AddonType::Module, false);
    let path = addon.get_installation_path("voice-packs", "/games/g", "/addons/g");
    assert_eq!(path, "/games/g");
}

#[test]
fn layer_addon_installs_under_the_addons_root() {
    let addon = sample_addon(AddonType::Layer, false);
    let path = addon.get_installation_path("voice-packs", "/games/g", "/addons/g");
    assert_eq!(path, "/addons/g/voice-packs/en");
}

#[test]
fn component_addon_installs_under_the_addons_root() {
    let addon = sample_addon(AddonType::Component, false);
    let path = addon.get_installation_path("voice-packs", "/games/g", "/addons/g");
    assert_eq!(path, "/addons/g/voice-packs/en");
}

#[test]
fn required_addon_installs_into_the_game_root_whatever_its_type() {
    let addon = sample_addon(AddonType::Layer, true);
    let path = addon.get_installation_path("voice-packs", "/games/g", "/addons/g");
    assert_eq!(path, "/games/g");
}

fn row(flag: bool, name: &str) -> (bool, GameListEntry) {
    (
        flag,
        GameListEntry {
            game_name: String::from(name),
            game_title: String::from(name),
            game_developer: String::from("dev"),
            edition: GameEdition {
                name: String::from("global"),
                title: String::from("Global"),
            },
            card_picture: String::from("card"),
        },
    )
}

#[test]
fn partition_splits_by_flag_and_keeps_order() {
    let rows = vec![row(true, "a"), row(false, "b"), row(true, "c"), row(false, "d")];
    let list = partition_entries(rows);
    let installed: Vec<&str> = list.installed.iter().map(|e| e.game_name.as_str()).collect();
    let available: Vec<&str> = list.available.iter().map(|e| e.game_name.as_str()).collect();
    assert_eq!(installed, ["a", "c"]);
    assert_eq!(available, ["b", "d"]);
}

#[test]
fn partition_of_nothing_is_empty() {
    let list = partition_entries(vec![]);
    assert!(list.installed.is_empty());
    assert!(list.available.is_empty());
}
