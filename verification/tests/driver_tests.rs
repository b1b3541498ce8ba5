//! End-to-end tests against a real script engine: a small fixture script
//! is loaded and the typed operations are driven through it.

use game_integrations::driver::v1::GameDriver;
use game_integrations::driver::{AddonsDriverExt, GameDriverExt};
use game_integrations::error::IntegrationError;
use game_integrations::integrations::Game;
use game_integrations::scan::{check_addon, check_addons, get_games_list, CardInfo,
    collect_games_styles, get_uninstall_addon_paths, init_games};
use game_integrations::settings::{EditionAddons, EditionPaths, GameEditionAddon, GameSettings};
use game_integrations::standards::addons::{Addon, AddonType, AddonsGroup};
use game_integrations::standards::game::DiffStatus;
use game_integrations::standards::manifest::Manifest;
use game_integrations::standards::IntegrationStandard;

const FIXTURE_SCRIPT: &str = r#"
calls = 0

function v1_game_get_editions_list()
  return {
    { name = "global", title = "Global" },
    { name = "cn", title = "China" },
  }
end

function v1_visual_get_card_picture(edition)
  calls = calls + 1
  return "card-" .. edition
end

function v1_visual_get_background_picture(edition)
  return "bg-" .. edition
end

function v1_game_get_version(path, edition)
  return tostring(calls)
end

function v1_game_is_installed(path)
  return path == "/games/installed"
end

function v1_game_get_download(edition)
  return { uri = "https://dl.invalid/" .. edition, version = "1.1", edition = edition, size = 10 }
end

function v1_game_get_diff(path, edition)
  return { status = "outdated", current_version = "1.0", latest_version = "1.1" }
end

function v1_game_get_status(path, edition)
  return { allow_launch = true, message = "ok" }
end

function v1_game_get_launch_options(game_path, addons_path, edition)
  return { executable = game_path .. "/run", options = { "-a", "-b" } }
end

function v1_game_get_integrity_info(path, edition)
  if edition == "global" then
    return { { algorithm = "md5", hash = "abc", path = "f.bin" } }
  end
  return {}
end

function v1_addons_get_list(edition)
  return {
    {
      name = "voice-packs",
      title = "Voice packs",
      addons = {
        { type = "layer", name = "en", title = "English", version = "1.0", required = false },
      },
    },
  }
end

function v1_addons_is_installed(group, addon, path, edition)
  return false
end

function v1_addons_get_diff(group, addon, path, edition)
  return nil
end

function v1_addons_get_paths(group, addon, path, edition)
  return { path .. "/a", path .. "/b" }
end

function v1_integrity_hash(algorithm, data)
  return algorithm .. ":" .. tostring(#data)
end
"#;

fn fixture_manifest(name: &str) -> Manifest {
    Manifest {
        game_name: String::from(name),
        game_title: format!("{name} title"),
        game_developer: String::from("Example Dev"),
        script_path: String::from("integration.lua"),
        script_standard: IntegrationStandard::V1,
    }
}

fn fixture_game(name: &str) -> Game {
    Game::new(
        mlua::Lua::new(),
        fixture_manifest(name),
        FIXTURE_SCRIPT,
        String::from("/scripts/integration.lua"),
    )
    .unwrap()
}

fn fixture_settings(game: &str) -> Vec<(String, GameSettings)> {
    vec![(
        String::from(game),
        GameSettings {
            paths: vec![
                EditionPaths {
                    edition: String::from("global"),
                    game: String::from("/games/installed"),
                    addons: String::from("/addons/g"),
                },
                EditionPaths {
                    edition: String::from("cn"),
                    game: String::from("/games/other"),
                    addons: String::from("/addons/g-cn"),
                },
            ],
            addons: vec![
                EditionAddons {
                    edition: String::from("global"),
                    enabled: vec![GameEditionAddon {
                        group: String::from("voice-packs"),
                        name: String::from("en"),
                    }],
                },
                EditionAddons {
                    edition: String::from("cn"),
                    enabled: vec![],
                },
            ],
        },
    )]
}

#[test]
fn loading_a_broken_script_is_a_load_error() {
    let r = Game::new(
        mlua::Lua::new(),
        fixture_manifest("bad"),
        "this is not lua",
        String::from("/scripts/bad.lua"),
    );
    assert!(matches!(r, Err(IntegrationError::Load(_))));
}

#[test]
fn editions_come_back_in_declared_order() {
    let mut game = fixture_game("g");
    let editions = game.get_game_editions_list().unwrap();
    let names: Vec<&str> = editions.iter().map(|e| e.name.as_str()).collect();
    assert_eq!(names, ["global", "cn"]);
    assert_eq!(editions[0].title, "Global");
}

#[test]
fn card_picture_is_cached_and_calls_the_script_once() {
    let mut game = fixture_game("g");
    let first = game.get_card_picture("global").unwrap();
    let second = game.get_card_picture("global").unwrap();
    assert_eq!(first, "card-global");
    assert_eq!(first, second);
    // The script-side counter proves one underlying call happened.
    let calls = game.get_game_version("/p", "global").unwrap();
    assert_eq!(calls.as_deref(), Some("1"));
    // A different edition is a different key: one more call.
    let other = game.get_card_picture("cn").unwrap();
    assert_eq!(other, "card-cn");
    let calls = game.get_game_version("/p", "cn").unwrap();
    assert_eq!(calls.as_deref(), Some("2"));
}

#[test]
fn absent_optional_hook_probes_false_and_yields_none() {
    let mut game = fixture_game("g");
    // The fixture defines no details-style hook: the probe answers false
    // and the dependent operation reports absence, not an error.
    assert_eq!(game.has_game_diff_transition().unwrap(), false);
    assert_eq!(game.has_game_diff_post_transition().unwrap(), false);
    assert_eq!(game.has_addons_diff_transition().unwrap(), false);
    assert_eq!(game.get_details_background_style("global").unwrap(), None);
}

#[test]
fn present_optional_hook_probes_true_and_is_used() {
    let script = format!(
        "{FIXTURE_SCRIPT}\nfunction v1_visual_get_details_background_css(edition)\n  \
         return \"background: \" .. edition\nend\n"
    );
    let mut game = Game::new(
        mlua::Lua::new(),
        fixture_manifest("styled"),
        script.as_str(),
        String::from("/scripts/integration.lua"),
    )
    .unwrap();
    assert_eq!(
        game.get_details_background_style("global").unwrap(),
        Some(String::from("background: global"))
    );
}

#[test]
fn install_state_and_diff_flow_through() {
    let game = fixture_game("g");
    assert!(game.is_game_installed("/games/installed", "global").unwrap());
    assert!(!game.is_game_installed("/games/missing", "global").unwrap());
    let diff = game.get_game_diff("/games/installed", "global").unwrap().unwrap();
    assert_eq!(diff.status, DiffStatus::Outdated);
    assert_eq!(diff.current_version, "1.0");
    assert_eq!(diff.latest_version, "1.1");
    assert!(diff.download.is_none());
}

#[test]
fn download_status_launch_and_integrity_decode() {
    let game = fixture_game("g");
    let download = game.get_game_download("global").unwrap();
    assert_eq!(download.uri, "https://dl.invalid/global");
    assert_eq!(download.size, 10);
    let status = game.get_game_status("/p", "global").unwrap().unwrap();
    assert!(status.allow_launch);
    assert_eq!(status.message, "ok");
    let options = game.get_launch_options("/g", "/a", "global").unwrap();
    assert_eq!(options.executable, "/g/run");
    assert_eq!(options.options, vec![String::from("-a"), String::from("-b")]);
    let integrity = game.get_game_integrity("/p", "global").unwrap();
    assert_eq!(integrity.len(), 1);
    assert_eq!(integrity[0].algorithm, "md5");
    let empty = game.get_game_integrity("/p", "cn").unwrap();
    assert!(empty.is_empty());
}

#[test]
fn script_hasher_is_gated_and_deterministic() {
    let game = fixture_game("g");
    assert!(game.has_integrity_hash().unwrap());
    let digest = game.integrity_hash("md5", &vec![1, 2, 3, 4]).unwrap();
    assert_eq!(digest, "md5:4");
}

#[test]
fn addon_scenario_emits_one_entry_for_the_enabled_edition() {
    // Group "voice-packs" holds addon "en" with required = false; the
    // settings enable it for "global" only, and the script reports it not
    // installed: the scan yields exactly one attention entry.
    let mut registry = init_games(vec![(String::from("g"), fixture_game("g"))]);
    let settings = fixture_settings("g");
    let entries = check_addons(&mut registry, &settings).unwrap();
    assert_eq!(entries.len(), 1);
    assert_eq!(entries[0].addon.name, "en");
    assert_eq!(entries[0].group.name, "voice-packs");
    assert_eq!(entries[0].game_info.edition, "global");
    assert_eq!(entries[0].game_info.picture_uri, "card-global");
}

#[test]
fn check_addon_skips_disabled_addons_without_calling_the_script() {
    let game = fixture_game("g");
    let info = CardInfo {
        name: String::from("g"),
        title: String::from("g title"),
        developer: String::from("Example Dev"),
        picture_uri: String::from("card-cn"),
        edition: String::from("cn"),
    };
    let addon = Addon {
        kind: AddonType::Layer,
        name: String::from("en"),
        title: String::from("English"),
        version: String::from("1.0"),
        required: false,
    };
    let group = AddonsGroup {
        name: String::from("voice-packs"),
        title: String::from("Voice packs"),
        addons: vec![addon.clone()],
    };
    let paths = EditionPaths {
        edition: String::from("cn"),
        game: String::from("/games/other"),
        addons: String::from("/addons/g-cn"),
    };
    // Not enabled for this edition: no entry.
    let r = check_addon(&game, &info, &vec![], &addon, &group, &paths).unwrap();
    assert!(r.is_none());
}

#[test]
fn scan_twice_produces_the_same_set_of_entries() {
    let mut registry = init_games(vec![
        (String::from("a"), fixture_game("a")),
        (String::from("b"), fixture_game("b")),
    ]);
    let mut settings = fixture_settings("a");
    settings.extend(fixture_settings("b"));
    let first = check_addons(&mut registry, &settings).unwrap();
    let second = check_addons(&mut registry, &settings).unwrap();
    let mut first_keys: Vec<String> = first
        .iter()
        .map(|e| format!("{}/{}/{}", e.game_info.name, e.group.name, e.addon.name))
        .collect();
    let mut second_keys: Vec<String> = second
        .iter()
        .map(|e| format!("{}/{}/{}", e.game_info.name, e.group.name, e.addon.name))
        .collect();
    first_keys.sort();
    second_keys.sort();
    assert_eq!(first_keys, second_keys);
    assert_eq!(first_keys, vec![String::from("a/voice-packs/en"), String::from("b/voice-packs/en")]);
}

#[test]
fn registry_lookup_finds_registered_games() {
    let registry = init_games(vec![
        (String::from("a"), fixture_game("a")),
        (String::from("b"), fixture_game("b")),
    ]);
    assert_eq!(registry.len(), 2);
    assert!(registry.get(&String::from("a")).is_some());
    assert!(registry.get(&String::from("missing")).is_none());
    let b = registry.get_unsafe(&String::from("b"));
    assert_eq!(b.manifest().game_name, "b");
    assert_eq!(registry.list().len(), 2);
}

#[test]
fn registry_keeps_the_last_game_under_a_repeated_name() {
    let registry = init_games(vec![
        (String::from("a"), fixture_game("first")),
        (String::from("a"), fixture_game("second")),
    ]);
    assert_eq!(registry.len(), 1);
    let g = registry.get_unsafe(&String::from("a"));
    assert_eq!(g.manifest().game_name, "second");
}

#[test]
fn games_list_splits_installed_and_available() {
    let mut registry = init_games(vec![(String::from("g"), fixture_game("g"))]);
    let settings = fixture_settings("g");
    let list = get_games_list(&mut registry, &settings).unwrap();
    assert_eq!(list.installed.len(), 1);
    assert_eq!(list.available.len(), 1);
    assert_eq!(list.installed[0].edition.name, "global");
    assert_eq!(list.installed[0].card_picture, "card-global");
    assert_eq!(list.available[0].edition.name, "cn");
}

#[test]
fn uninstall_paths_come_from_the_derived_location() {
    let game = fixture_game("g");
    let info = CardInfo {
        name: String::from("g"),
        title: String::from("g title"),
        developer: String::from("Example Dev"),
        picture_uri: String::from("card-global"),
        edition: String::from("global"),
    };
    let addon = Addon {
        kind: AddonType::Layer,
        name: String::from("en"),
        title: String::from("English"),
        version: String::from("1.0"),
        required: false,
    };
    let group = AddonsGroup {
        name: String::from("voice-packs"),
        title: String::from("Voice packs"),
        addons: vec![addon.clone()],
    };
    let paths = EditionPaths {
        edition: String::from("global"),
        game: String::from("/games/installed"),
        addons: String::from("/addons/g"),
    };
    let owned = get_uninstall_addon_paths(&game, &info, &addon, &group, &paths).unwrap();
    assert_eq!(
        owned,
        vec![
            String::from("/addons/g/voice-packs/en/a"),
            String::from("/addons/g/voice-packs/en/b"),
        ]
    );
}

#[test]
fn styles_are_collected_for_editions_that_define_the_hook() {
    let script = format!(
        "{FIXTURE_SCRIPT}\nfunction v1_visual_get_details_background_css(edition)\n  \
         return \"color: red\"\nend\n"
    );
    let game = Game::new(
        mlua::Lua::new(),
        fixture_manifest("styled"),
        script.as_str(),
        String::from("/scripts/integration.lua"),
    )
    .unwrap();
    let mut registry = init_games(vec![(String::from("styled"), game)]);
    let styles = collect_games_styles(&mut registry).unwrap();
    assert_eq!(
        styles,
        " .game-details--styled--global { color: red } .game-details--styled--cn { color: red }"
    );
}

#[test]
fn plain_driver_binds_and_answers() {
    let driver = GameDriver::new(mlua::Lua::new(), FIXTURE_SCRIPT).unwrap();
    let editions = driver.get_editions_list().unwrap();
    assert_eq!(editions.len(), 2);
    assert_eq!(driver.get_card_picture("global").unwrap(), "card-global");
    assert!(GameDriverExt::has_integrity_hash(&driver).unwrap());
    let groups = AddonsDriverExt::get_list(&driver, "global").unwrap();
    assert_eq!(groups.len(), 1);
    assert_eq!(groups[0].addons[0].name, "en");
    assert!(!AddonsDriverExt::is_installed(&driver, "voice-packs", "en", "/x", "global").unwrap());
}

#[test]
fn marshal_mismatch_is_reported_not_coerced() {
    let script = "function v1_game_get_editions_list() return { 1, 2 } end";
    let mut game = Game::new(
        mlua::Lua::new(),
        fixture_manifest("broken"),
        script,
        String::from("/scripts/broken.lua"),
    )
    .unwrap();
    assert_eq!(
        game.get_game_editions_list(),
        Err(IntegrationError::Marshal)
    );
}

#[test]
fn missing_required_entry_point_is_a_script_error() {
    let script = "-- defines nothing";
    let mut game = Game::new(
        mlua::Lua::new(),
        fixture_manifest("empty"),
        script,
        String::from("/scripts/empty.lua"),
    )
    .unwrap();
    assert!(matches!(
        game.get_game_editions_list(),
        Err(IntegrationError::Script(_))
    ));
}

#[test]
fn addons_list_is_cached_per_edition() {
    let script = format!(
        "{FIXTURE_SCRIPT}\naddon_calls = 0\n\
         function v1_addons_get_version(group, addon, path, edition)\n  \
         return tostring(addon_calls)\nend\n\
         local original_get_list = v1_addons_get_list\n\
         function v1_addons_get_list(edition)\n  \
         addon_calls = addon_calls + 1\n  return original_get_list(edition)\nend\n"
    );
    let mut game = Game::new(
        mlua::Lua::new(),
        fixture_manifest("counted"),
        script.as_str(),
        String::from("/scripts/integration.lua"),
    )
    .unwrap();
    let first = game.get_addons_list("global").unwrap();
    let second = game.get_addons_list("global").unwrap();
    assert_eq!(first, second);
    assert_eq!(first.len(), 1);
    let counted = game
        .get_addon_version("voice-packs", "en", "/x", "global")
        .unwrap();
    assert_eq!(counted.as_deref(), Some("1"));
    // A different edition is a fresh key: one more underlying call.
    game.get_addons_list("cn").unwrap();
    let counted = game
        .get_addon_version("voice-packs", "en", "/x", "cn")
        .unwrap();
    assert_eq!(counted.as_deref(), Some("2"));
}

#[test]
fn transition_hooks_probe_true_and_run() {
    let script = format!(
        "{FIXTURE_SCRIPT}\n\
         function v1_game_diff_transition(path, edition)\n  calls = calls + 100\nend\n\
         function v1_addons_diff_post_transition(group, addon, path, edition)\n  \
         calls = calls + 1000\nend\n"
    );
    let game = Game::new(
        mlua::Lua::new(),
        fixture_manifest("hooked"),
        script.as_str(),
        String::from("/scripts/integration.lua"),
    )
    .unwrap();
    assert!(game.has_game_diff_transition().unwrap());
    assert!(game.has_addons_diff_post_transition().unwrap());
    game.run_game_diff_transition("/t", "global").unwrap();
    game.run_addons_diff_post_transition("voice-packs", "en", "/p", "global")
        .unwrap();
    let counter = game.get_game_version("/p", "global").unwrap();
    assert_eq!(counter.as_deref(), Some("1100"));
}

#[test]
fn addon_download_and_background_flow_through() {
    let script = format!(
        "{FIXTURE_SCRIPT}\n\
         function v1_addons_get_download(group, addon, edition)\n  \
         return {{ uri = \"https://dl.invalid/\" .. group .. \"/\" .. addon,\n    \
         version = \"1.0\", edition = edition, size = 7 }}\nend\n"
    );
    let mut game = Game::new(
        mlua::Lua::new(),
        fixture_manifest("dl"),
        script.as_str(),
        String::from("/scripts/integration.lua"),
    )
    .unwrap();
    let download = game.get_addon_download("voice-packs", "en", "global").unwrap();
    assert_eq!(download.uri, "https://dl.invalid/voice-packs/en");
    assert_eq!(download.size, 7);
    assert_eq!(game.get_background_picture("global").unwrap(), "bg-global");
    // The background answer is memoized too.
    assert_eq!(game.get_background_picture("global").unwrap(), "bg-global");
}

#[test]
fn process_operations_reach_the_script() {
    let script = format!(
        "{FIXTURE_SCRIPT}\nrunning = true\n\
         function v1_game_is_running(game_path, edition)\n  return running\nend\n\
         function v1_game_kill(game_path, edition)\n  running = false\nend\n\
         function v1_addons_get_version(group, addon, path, edition)\n  return nil\nend\n\
         function v1_addons_get_integrity_info(group, addon, path, edition)\n  return {{}}\nend\n"
    );
    let driver = GameDriver::new(mlua::Lua::new(), script.as_str()).unwrap();
    assert!(driver.is_process_running("/g", "global").unwrap());
    driver.kill_process("/g", "global").unwrap();
    assert!(!driver.is_process_running("/g", "global").unwrap());
    let status = driver.get_status("/g", "global").unwrap().unwrap();
    assert!(status.allow_launch);
    let diff = GameDriverExt::get_diff(&driver, "/g", "global").unwrap().unwrap();
    assert_eq!(diff.status, DiffStatus::Outdated);
    let download = GameDriverExt::get_download(&driver, "global").unwrap();
    assert_eq!(download.edition, "global");
    let integrity = GameDriverExt::get_integrity(&driver, "/g", "global").unwrap();
    assert_eq!(integrity.len(), 1);
    let options = driver.get_launch_options("/g", "/a", "global").unwrap();
    assert_eq!(options.executable, "/g/run");
    let version = GameDriverExt::get_version(&driver, "/g", "global").unwrap();
    assert_eq!(version.as_deref(), Some("0"));
    assert!(GameDriverExt::is_installed(&driver, "/games/installed", "global").unwrap());
    assert_eq!(driver.get_background_picture("global").unwrap(), "bg-global");
    assert_eq!(driver.get_details_style("global").unwrap(), None);
    assert!(!GameDriverExt::has_diff_transition(&driver).unwrap());
    assert!(!GameDriverExt::has_diff_post_transition(&driver).unwrap());
    assert!(!AddonsDriverExt::has_diff_transition(&driver).unwrap());
    assert!(!AddonsDriverExt::has_diff_post_transition(&driver).unwrap());
    assert_eq!(driver.integrity_hash("crc", &vec![9, 9]).unwrap(), "crc:2");
    let paths =
        AddonsDriverExt::get_paths(&driver, "voice-packs", "en", "/p", "global").unwrap();
    assert_eq!(paths, vec![String::from("/p/a"), String::from("/p/b")]);
    let addon_version =
        AddonsDriverExt::get_version(&driver, "voice-packs", "en", "/p", "global").unwrap();
    assert!(addon_version.is_none());
    let addon_diff =
        AddonsDriverExt::get_diff(&driver, "voice-packs", "en", "/p", "global").unwrap();
    assert!(addon_diff.is_none());
    let addon_integrity =
        AddonsDriverExt::get_integrity(&driver, "voice-packs", "en", "/p", "global").unwrap();
    assert!(addon_integrity.is_empty());
}

#[test]
fn duplicate_group_names_are_a_marshal_error() {
    let script = format!(
        "{FIXTURE_SCRIPT}\nfunction v1_addons_get_list(edition)\n  return {{\n    \
         {{ name = \"voice-packs\", title = \"A\", addons = {{}} }},\n    \
         {{ name = \"voice-packs\", title = \"B\", addons = {{}} }},\n  }}\nend\n"
    );
    let mut game = Game::new(
        mlua::Lua::new(),
        fixture_manifest("dupes"),
        script.as_str(),
        String::from("/scripts/integration.lua"),
    )
    .unwrap();
    assert_eq!(game.get_addons_list("global"), Err(IntegrationError::Marshal));
}

#[test]
fn cyclic_table_is_a_script_error_not_a_crash() {
    let script = format!(
        "{FIXTURE_SCRIPT}\nfunction v1_game_get_editions_list()\n  \
         local t = {{}}\n  t[1] = t\n  return t\nend\n"
    );
    let mut game = Game::new(
        mlua::Lua::new(),
        fixture_manifest("cyclic"),
        script.as_str(),
        String::from("/scripts/integration.lua"),
    )
    .unwrap();
    assert!(matches!(
        game.get_game_editions_list(),
        Err(IntegrationError::Script(_))
    ));
}

#[test]
fn scan_of_empty_registry_is_empty() {
    let mut registry = init_games(vec![]);
    let entries = check_addons(&mut registry, &fixture_settings("g")).unwrap();
    assert!(entries.is_empty());
}

#[test]
fn scan_with_unrelated_settings_is_empty() {
    // The settings name no registered game: nothing is scanned and no
    // script call is made.
    let mut registry = init_games(vec![(String::from("g"), fixture_game("g"))]);
    let entries = check_addons(&mut registry, &fixture_settings("other")).unwrap();
    assert!(entries.is_empty());
}
