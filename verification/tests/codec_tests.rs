//! Round trips and error cases for every wire codec.

use game_integrations::error::IntegrationError;
use game_integrations::standards::addons::{Addon, AddonType, AddonsGroup};
use game_integrations::standards::game::{
    Diff, DiffStatus, Download, GameEdition, GameLaunchOptions, GameStatus, IntegrityInfo,
};
use game_integrations::standards::manifest::Manifest;
use game_integrations::standards::IntegrationStandard;
use game_integrations::wire::WireValue;

const V1: IntegrationStandard = IntegrationStandard::V1;

#[test]
fn edition_round_trip() {
    let e = GameEdition {
        name: String::from("global"),
        title: String::from("Global"),
    };
    let encoded = e.to_table(V1);
    let decoded = GameEdition::from_table(&encoded, V1).unwrap();
    assert_eq!(decoded, e);
}

#[test]
fn edition_rejects_non_record() {
    let r = GameEdition::from_table(&WireValue::Str(String::from("global")), V1);
    assert_eq!(r, Err(IntegrationError::Marshal));
}

#[test]
fn edition_rejects_missing_title() {
    let v = WireValue::Record(vec![(
        String::from("name"),
        WireValue::Str(String::from("global")),
    )]);
    assert_eq!(GameEdition::from_table(&v, V1), Err(IntegrationError::Marshal));
}

#[test]
fn edition_field_order_does_not_matter() {
    let v = WireValue::Record(vec![
        (String::from("title"), WireValue::Str(String::from("Global"))),
        (String::from("name"), WireValue::Str(String::from("global"))),
    ]);
    let e = GameEdition::from_table(&v, V1).unwrap();
    assert_eq!(e.name, "global");
    assert_eq!(e.title, "Global");
}

#[test]
fn download_round_trip() {
    let d = Download {
        uri: String::from("https://example.invalid/payload.zip"),
        version: String::from("1.2.3"),
        edition: String::from("global"),
        size: 123456789,
    };
    let decoded = Download::from_table(&d.to_table(V1), V1).unwrap();
    assert_eq!(decoded, d);
}

#[test]
fn download_rejects_negative_size() {
    let v = WireValue::Record(vec![
        (String::from("uri"), WireValue::Str(String::from("u"))),
        (String::from("version"), WireValue::Str(String::from("1"))),
        (String::from("edition"), WireValue::Str(String::from("e"))),
        (String::from("size"), WireValue::Number(-1)),
    ]);
    assert_eq!(Download::from_table(&v, V1), Err(IntegrationError::Marshal));
}

#[test]
fn diff_status_round_trip() {
    for s in [DiffStatus::UpToDate, DiffStatus::Outdated, DiffStatus::Unavailable] {
        let spelled = String::from(s.to_str(V1));
        assert_eq!(DiffStatus::from_str(&spelled, V1).unwrap(), s);
    }
}

#[test]
fn diff_status_spellings_are_exact() {
    assert_eq!(DiffStatus::UpToDate.to_str(V1), "up-to-date");
    assert_eq!(DiffStatus::Outdated.to_str(V1), "outdated");
    assert_eq!(DiffStatus::Unavailable.to_str(V1), "unavailable");
    assert_eq!(
        DiffStatus::from_str(&String::from("current"), V1),
        Err(IntegrationError::Marshal)
    );
}

#[test]
fn diff_round_trip_with_download() {
    let d = Diff {
        status: DiffStatus::Outdated,
        current_version: String::from("1.0.0"),
        latest_version: String::from("1.1.0"),
        download: Some(Download {
            uri: String::from("https://example.invalid/delta"),
            version: String::from("1.1.0"),
            edition: String::from("global"),
            size: 42,
        }),
    };
    assert_eq!(Diff::from_table(&d.to_table(V1), V1).unwrap(), d);
}

#[test]
fn diff_round_trip_without_download() {
    let d = Diff {
        status: DiffStatus::UpToDate,
        current_version: String::from("2.0.0"),
        latest_version: String::from("2.0.0"),
        download: None,
    };
    assert_eq!(Diff::from_table(&d.to_table(V1), V1).unwrap(), d);
}

#[test]
fn game_status_round_trip() {
    let s = GameStatus {
        allow_launch: true,
        message: String::from("all good"),
    };
    assert_eq!(GameStatus::from_table(&s.to_table(V1), V1).unwrap(), s);
}

#[test]
fn launch_options_round_trip() {
    let o = GameLaunchOptions {
        executable: String::from("game.exe"),
        options: vec![String::from("-fullscreen"), String::from("-lang=en")],
    };
    assert_eq!(GameLaunchOptions::from_table(&o.to_table(V1), V1).unwrap(), o);
}

#[test]
fn launch_options_empty_list_round_trip() {
    let o = GameLaunchOptions {
        executable: String::from("run"),
        options: vec![],
    };
    assert_eq!(GameLaunchOptions::from_table(&o.to_table(V1), V1).unwrap(), o);
}

#[test]
fn launch_options_reject_non_string_option() {
    let v = WireValue::Record(vec![
        (String::from("executable"), WireValue::Str(String::from("run"))),
        (
            String::from("options"),
            WireValue::List(vec![WireValue::Number(1)]),
        ),
    ]);
    assert_eq!(
        GameLaunchOptions::from_table(&v, V1),
        Err(IntegrationError::Marshal)
    );
}

#[test]
fn integrity_round_trip() {
    let i = IntegrityInfo {
        algorithm: String::from("md5"),
        hash: String::from("d41d8cd98f00b204e9800998ecf8427e"),
        path: String::from("data/files.bin"),
    };
    assert_eq!(IntegrityInfo::from_table(&i.to_table(V1), V1).unwrap(), i);
}

#[test]
fn addon_type_round_trip() {
    for t in [AddonType::Module, AddonType::Layer, AddonType::Component] {
        let spelled = String::from(t.to_str(V1));
        assert_eq!(AddonType::from_str(&spelled, V1).unwrap(), t);
    }
    assert_eq!(
        AddonType::from_str(&String::from("plugin"), V1),
        Err(IntegrationError::Marshal)
    );
}

#[test]
fn addon_round_trip() {
    let a = Addon {
        kind: AddonType::Layer,
        name: String::from("en"),
        title: String::from("English voice pack"),
        version: String::from("3.1"),
        required: false,
    };
    assert_eq!(Addon::from_table(&a.to_table(V1), V1).unwrap(), a);
}

#[test]
fn addon_wire_field_is_named_type() {
    let a = Addon {
        kind: AddonType::Module,
        name: String::from("core"),
        title: String::from("Core"),
        version: String::from("1"),
        required: true,
    };
    match a.to_table(V1) {
        WireValue::Record(fields) => {
            assert!(fields
                .iter()
                .any(|(k, v)| k == "type" && *v == WireValue::Str(String::from("module"))));
        }
        other => panic!("expected a record, got {:?}", other),
    }
}

#[test]
fn group_round_trip() {
    let g = AddonsGroup {
        name: String::from("voice-packs"),
        title: String::from("Voice packs"),
        addons: vec![
            Addon {
                kind: AddonType::Layer,
                name: String::from("en"),
                title: String::from("English"),
                version: String::from("1.0"),
                required: false,
            },
            Addon {
                kind: AddonType::Module,
                name: String::from("core"),
                title: String::from("Core"),
                version: String::from("2.0"),
                required: true,
            },
        ],
    };
    assert_eq!(AddonsGroup::from_table(&g.to_table(V1), V1).unwrap(), g);
}

#[test]
fn group_with_no_addons_round_trips() {
    let g = AddonsGroup {
        name: String::from("empty"),
        title: String::from("Empty"),
        addons: vec![],
    };
    assert_eq!(AddonsGroup::from_table(&g.to_table(V1), V1).unwrap(), g);
}

#[test]
fn group_rejects_malformed_addon() {
    let v = WireValue::Record(vec![
        (String::from("name"), WireValue::Str(String::from("g"))),
        (String::from("title"), WireValue::Str(String::from("G"))),
        (
            String::from("addons"),
            WireValue::List(vec![WireValue::Str(String::from("not an addon"))]),
        ),
    ]);
    assert_eq!(AddonsGroup::from_table(&v, V1), Err(IntegrationError::Marshal));
}

#[test]
fn manifest_round_trip() {
    let m = Manifest {
        game_name: String::from("some-game"),
        game_title: String::from("Some Game"),
        game_developer: String::from("Example Dev"),
        script_path: String::from("integration.lua"),
        script_standard: V1,
    };
    assert_eq!(Manifest::from_table(&m.to_table()).unwrap(), m);
}

#[test]
fn manifest_from_json_reads_the_schema() {
    let text = "{\"game_name\":\"some-game\",\"game_title\":\"Some Game\",\
                \"game_developer\":\"Example Dev\",\"script_path\":\"integration.lua\",\
                \"standard\":\"v1\"}";
    let m = Manifest::from_json(text).unwrap();
    assert_eq!(m.game_name, "some-game");
    assert_eq!(m.game_title, "Some Game");
    assert_eq!(m.game_developer, "Example Dev");
    assert_eq!(m.script_path, "integration.lua");
    assert_eq!(m.script_standard, V1);
}

#[test]
fn manifest_from_json_rejects_bad_text() {
    assert!(matches!(
        Manifest::from_json("not json at all"),
        Err(IntegrationError::Load(_))
    ));
    assert!(matches!(
        Manifest::from_json("{\"game_name\":\"x\"}"),
        Err(IntegrationError::Load(_))
    ));
}

#[test]
fn manifest_rejects_unknown_standard() {
    let text = "{\"game_name\":\"g\",\"game_title\":\"G\",\"game_developer\":\"D\",\
                \"script_path\":\"s.lua\",\"standard\":\"v2\"}";
    assert!(matches!(
        Manifest::from_json(text),
        Err(IntegrationError::Load(_))
    ));
}

#[test]
fn resolved_script_path_honours_absolute_paths() {
    let m = Manifest {
        game_name: String::from("g"),
        game_title: String::from("G"),
        game_developer: String::from("D"),
        script_path: String::from("/opt/scripts/game.lua"),
        script_standard: V1,
    };
    assert_eq!(m.resolved_script_path("/etc/games/g"), "/opt/scripts/game.lua");
}

#[test]
fn resolved_script_path_joins_relative_paths() {
    let m = Manifest {
        game_name: String::from("g"),
        game_title: String::from("G"),
        game_developer: String::from("D"),
        script_path: String::from("integration.lua"),
        script_standard: V1,
    };
    assert_eq!(
        m.resolved_script_path("/etc/games/g"),
        "/etc/games/g/integration.lua"
    );
}

#[test]
fn error_description_is_stable_for_marshal() {
    assert_eq!(
        IntegrationError::Marshal.describe(),
        "unexpected value shape from script"
    );
    assert_eq!(
        IntegrationError::Script(String::from("boom")).describe(),
        "boom"
    );
}

#[test]
fn download_size_boundary_round_trips() {
    let d = Download {
        uri: String::from("u"),
        version: String::from("1"),
        edition: String::from("e"),
        size: i64::MAX as u64,
    };
    let decoded = Download::from_table(&d.to_table(V1), V1).unwrap();
    assert_eq!(decoded, d);
    assert_eq!(decoded.size, i64::MAX as u64);
}

#[test]
fn group_rejects_duplicate_addon_names() {
    let dup = |name: &str| Addon {
        kind: AddonType::Layer,
        name: String::from(name),
        title: String::from("t"),
        version: String::from("1"),
        required: false,
    };
    let v = WireValue::Record(vec![
        (String::from("name"), WireValue::Str(String::from("g"))),
        (String::from("title"), WireValue::Str(String::from("G"))),
        (
            String::from("addons"),
            WireValue::List(vec![dup("en").to_table(V1), dup("en").to_table(V1)]),
        ),
    ]);
    assert_eq!(AddonsGroup::from_table(&v, V1), Err(IntegrationError::Marshal));
}
