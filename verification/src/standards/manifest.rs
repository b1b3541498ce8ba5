//! The game manifest: identity, script location and wire-contract
//! standard.  One manifest per game directory, immutable once loaded.

use vstd::prelude::*;

use crate::error::IntegrationError;
use crate::standards::IntegrationStandard;
use crate::wire::{
    WireValue, WireModel, get_str_field, wire_lookup, wire_record_view, lemma_wire_record_view,
};

verus! {

/// The wire spelling of a standard.
pub open spec fn spec_encode_standard(s: IntegrationStandard) -> Seq<char> {
    match s {
        IntegrationStandard::V1 => "v1"@,
    }
}

/// What decoding a wire string as a standard yields, if anything.
pub open spec fn spec_decode_standard(s: Seq<char>) -> Option<IntegrationStandard> {
    if s == "v1"@ {
        Some(IntegrationStandard::V1)
    } else {
        None
    }
}

/// Round trip: decoding an encoded standard restores it exactly.
pub proof fn lemma_standard_round_trip(s: IntegrationStandard)
    ensures
        spec_decode_standard(spec_encode_standard(s)) == Some(s),
{
}

impl IntegrationStandard {
    /// The wire spelling of this standard.
    pub fn to_str(&self) -> (r: &'static str)
        ensures
            r@ == spec_encode_standard(*self),
    {
        match self {
            IntegrationStandard::V1 => "v1",
        }
    }

    /// Parse the wire spelling of a standard.
    pub fn from_str(value: &String) -> (r: Result<IntegrationStandard, IntegrationError>)
        ensures
            match r {
                Ok(s) => spec_decode_standard(value@) == Some(s),
                Err(er) => spec_decode_standard(value@) is None && er is Marshal,
            },
    {
        if *value == String::from_str("v1") {
            Ok(IntegrationStandard::V1)
        } else {
            Err(IntegrationError::Marshal)
        }
    }
}

/// What identifies a game: its name, presentation title and developer, the
/// path of its integration script, and the wire-contract standard the
/// script was authored against.
#[derive(Debug, PartialEq, Eq)]
pub struct Manifest {
    pub game_name: String,
    pub game_title: String,
    pub game_developer: String,
    /// As given in the manifest: absolute, or relative to the manifest's
    /// directory.
    pub script_path: String,
    pub script_standard: IntegrationStandard,
}

/// Model of a [`Manifest`].
pub struct ManifestV {
    pub game_name: Seq<char>,
    pub game_title: Seq<char>,
    pub game_developer: Seq<char>,
    pub script_path: Seq<char>,
    pub script_standard: IntegrationStandard,
}

impl DeepView for Manifest {
    type V = ManifestV;

    open spec fn deep_view(&self) -> ManifestV {
        ManifestV {
            game_name: self.game_name@,
            game_title: self.game_title@,
            game_developer: self.game_developer@,
            script_path: self.script_path@,
            script_standard: self.script_standard,
        }
    }
}

impl Clone for Manifest {
    fn clone(&self) -> (res: Self)
        ensures
            res == self,
    {
        Manifest {
            game_name: self.game_name.clone(),
            game_title: self.game_title.clone(),
            game_developer: self.game_developer.clone(),
            script_path: self.script_path.clone(),
            script_standard: self.script_standard,
        }
    }
}

/// The wire shape of a manifest: `{game_name, game_title, game_developer,
/// script_path, standard}` of strings.
pub open spec fn spec_encode_manifest(m: ManifestV) -> WireModel {
    WireModel::Record(
        seq![
            ("game_name"@, WireModel::Str(m.game_name)),
            ("game_title"@, WireModel::Str(m.game_title)),
            ("game_developer"@, WireModel::Str(m.game_developer)),
            ("script_path"@, WireModel::Str(m.script_path)),
            ("standard"@, WireModel::Str(spec_encode_standard(m.script_standard))),
        ],
    )
}

/// What decoding a wire value as a manifest yields, if anything.
pub open spec fn spec_decode_manifest(v: WireModel) -> Option<ManifestV> {
    match v {
        WireModel::Record(fs) => match (
            wire_lookup(fs, "game_name"@),
            wire_lookup(fs, "game_title"@),
            wire_lookup(fs, "game_developer"@),
            wire_lookup(fs, "script_path"@),
            wire_lookup(fs, "standard"@),
        ) {
            (
                Some(WireModel::Str(n)),
                Some(WireModel::Str(t)),
                Some(WireModel::Str(d)),
                Some(WireModel::Str(p)),
                Some(WireModel::Str(s)),
            ) => match spec_decode_standard(s) {
                Some(standard) => Some(
                    ManifestV {
                        game_name: n,
                        game_title: t,
                        game_developer: d,
                        script_path: p,
                        script_standard: standard,
                    },
                ),
                None => None,
            },
            _ => None,
        },
        _ => None,
    }
}

/// Round trip: decoding an encoded manifest restores it exactly.
pub proof fn lemma_manifest_round_trip(m: ManifestV)
    ensures
        spec_decode_manifest(spec_encode_manifest(m)) == Some(m),
{
    reveal_strlit("game_name");
    reveal_strlit("game_title");
    reveal_strlit("game_developer");
    reveal_strlit("script_path");
    reveal_strlit("standard");
    let fs = spec_encode_manifest(m)->Record_0;
    assert("game_name"@.len() == 9 && "game_title"@.len() == 10 && "game_developer"@.len() == 14
        && "script_path"@.len() == 11 && "standard"@.len() == 8);
    let st = WireModel::Str(spec_encode_standard(m.script_standard));
    assert(fs.skip(1) =~= seq![
        ("game_title"@, WireModel::Str(m.game_title)),
        ("game_developer"@, WireModel::Str(m.game_developer)),
        ("script_path"@, WireModel::Str(m.script_path)),
        ("standard"@, st),
    ]);
    assert(fs.skip(1).skip(1) =~= seq![
        ("game_developer"@, WireModel::Str(m.game_developer)),
        ("script_path"@, WireModel::Str(m.script_path)),
        ("standard"@, st),
    ]);
    assert(fs.skip(1).skip(1).skip(1) =~= seq![
        ("script_path"@, WireModel::Str(m.script_path)),
        ("standard"@, st),
    ]);
    assert(fs.skip(1).skip(1).skip(1).skip(1) =~= seq![("standard"@, st)]);
    assert(wire_lookup(fs, "game_name"@) == Some(WireModel::Str(m.game_name)));
    assert(wire_lookup(fs, "game_title"@) == Some(WireModel::Str(m.game_title))) by {
        reveal_with_fuel(wire_lookup, 6);
    }
    assert(wire_lookup(fs, "game_developer"@) == Some(WireModel::Str(m.game_developer))) by {
        reveal_with_fuel(wire_lookup, 6);
    }
    assert(wire_lookup(fs, "script_path"@) == Some(WireModel::Str(m.script_path))) by {
        reveal_with_fuel(wire_lookup, 6);
    }
    assert(wire_lookup(fs, "standard"@) == Some(st)) by {
        reveal_with_fuel(wire_lookup, 6);
    }
    lemma_standard_round_trip(m.script_standard);
}

/// A path is absolute when it starts at the filesystem root.
pub open spec fn spec_is_absolute(path: Seq<char>) -> bool {
    path.len() > 0 && path[0] == '/'
}

/// Where the script of a manifest in directory `dir` lives: its
/// `script_path` as given when absolute, else resolved under `dir`.
pub open spec fn spec_resolved_script_path(dir: Seq<char>, script_path: Seq<char>) -> Seq<char> {
    if spec_is_absolute(script_path) {
        script_path
    } else {
        dir + "/"@ + script_path
    }
}

impl Manifest {
    /// Encode to the wire representation.
    pub fn to_table(&self) -> (r: WireValue)
        ensures
            r.deep_view() == spec_encode_manifest(self.deep_view()),
    {
        let mut fields: Vec<(String, WireValue)> = Vec::new();
        fields.push((String::from_str("game_name"), WireValue::Str(self.game_name.clone())));
        fields.push((String::from_str("game_title"), WireValue::Str(self.game_title.clone())));
        fields.push((String::from_str("game_developer"), WireValue::Str(self.game_developer.clone())));
        fields.push((String::from_str("script_path"), WireValue::Str(self.script_path.clone())));
        fields.push(
            (
                String::from_str("standard"),
                WireValue::Str(String::from_str(self.script_standard.to_str())),
            ),
        );
        proof {
            lemma_wire_record_view(fields@);
            assert(wire_record_view(fields@) =~= spec_encode_manifest(self.deep_view())->Record_0);
        }
        WireValue::Record(fields)
    }

    /// Decode a manifest from its wire representation.
    pub fn from_table(v: &WireValue) -> (r: Result<Manifest, IntegrationError>)
        ensures
            match r {
                Ok(m) => spec_decode_manifest(v.deep_view()) == Some(m.deep_view()),
                Err(er) => spec_decode_manifest(v.deep_view()) is None && er is Marshal,
            },
    {
        let fields = match v {
            WireValue::Record(fields) => fields,
            _ => { return Err(IntegrationError::Marshal); },
        };
        let game_name = match get_str_field(fields, &String::from_str("game_name")) {
            Some(s) => s,
            None => { return Err(IntegrationError::Marshal); },
        };
        let game_title = match get_str_field(fields, &String::from_str("game_title")) {
            Some(s) => s,
            None => { return Err(IntegrationError::Marshal); },
        };
        let game_developer = match get_str_field(fields, &String::from_str("game_developer")) {
            Some(s) => s,
            None => { return Err(IntegrationError::Marshal); },
        };
        let script_path = match get_str_field(fields, &String::from_str("script_path")) {
            Some(s) => s,
            None => { return Err(IntegrationError::Marshal); },
        };
        let standard_str = match get_str_field(fields, &String::from_str("standard")) {
            Some(s) => s,
            None => { return Err(IntegrationError::Marshal); },
        };
        let script_standard = match IntegrationStandard::from_str(&standard_str) {
            Ok(s) => s,
            Err(e) => { return Err(e); },
        };
        Ok(Manifest { game_name, game_title, game_developer, script_path, script_standard })
    }

    /// Parse a manifest from its JSON source text.  Unparseable text,
    /// values outside the wire model, and a missed schema are all load
    /// errors: driver construction aborts on them.  Success is owed
    /// exactly when the text parses into the wire model and the parsed
    /// value decodes as a manifest.
    pub fn from_json(text: &str) -> (r: Result<Manifest, IntegrationError>)
        ensures
            match r {
                Ok(m) => crate::engine::json_wire_of(text@) matches Some(w)
                    && spec_decode_manifest(w) == Some(m.deep_view()),
                Err(e) => e is Load && match crate::engine::json_wire_of(text@) {
                    Some(w) => spec_decode_manifest(w) is None,
                    None => true,
                },
            },
    {
        let wire = match crate::engine::parse_json_wire(text) {
            Ok(v) => v,
            Err(m) => { return Err(IntegrationError::Load(m)); },
        };
        match Manifest::from_table(&wire) {
            Ok(m) => Ok(m),
            Err(_) => Err(
                IntegrationError::Load(
                    String::from_str("manifest does not match the expected schema"),
                ),
            ),
        }
    }

    /// Resolve the script path against the manifest's directory: kept as
    /// given when absolute, else placed under the directory.
    pub fn resolved_script_path(&self, dir: &str) -> (r: String)
        ensures
            r@ == spec_resolved_script_path(dir@, self.script_path@),
    {
        if !self.script_path.as_str().is_empty() && self.script_path.as_str().get_char(0) == '/' {
            self.script_path.clone()
        } else {
            String::from_str(dir).concat("/").concat(self.script_path.as_str())
        }
    }
}

} // verus!
