//! Addon entities: addon types, addons and addon groups, and the
//! derivation of an addon's installation path.

use vstd::prelude::*;

use crate::error::IntegrationError;
use crate::standards::{
    IntegrationStandard, WireEntity, spec_decode_entity_list, spec_encode_entity_list,
    lemma_entity_list_round_trip, decode_entity_list, encode_entity_list, as_entity_list_value,
};
use crate::wire::{
    WireValue, WireModel, get_str_field, get_bool_field, get_list_field, wire_lookup, wire_record_view,
    lemma_wire_record_view,
};

verus! {

/// How an addon relates to the game's own installation.
#[derive(Debug, Clone, Copy, PartialEq, Eq, Structural)]
pub enum AddonType {
    /// Installs into the game's own root.
    Module,
    /// Overlays the installation from its own directory.
    Layer,
    /// A free-standing component under the addons root.
    Component,
}

/// The wire spelling of an addon type.
pub open spec fn spec_encode_addon_type(t: AddonType) -> Seq<char> {
    match t {
        AddonType::Module => "module"@,
        AddonType::Layer => "layer"@,
        AddonType::Component => "component"@,
    }
}

/// What decoding a wire string as an addon type yields, if anything.
pub open spec fn spec_decode_addon_type(s: Seq<char>) -> Option<AddonType> {
    if s == "module"@ {
        Some(AddonType::Module)
    } else if s == "layer"@ {
        Some(AddonType::Layer)
    } else if s == "component"@ {
        Some(AddonType::Component)
    } else {
        None
    }
}

/// Round trip: decoding an encoded addon type restores it exactly.
pub proof fn lemma_addon_type_round_trip(t: AddonType)
    ensures
        spec_decode_addon_type(spec_encode_addon_type(t)) == Some(t),
{
    reveal_strlit("module");
    reveal_strlit("layer");
    reveal_strlit("component");
    assert("module"@.len() == 6 && "layer"@.len() == 5 && "component"@.len() == 9);
}

impl AddonType {
    /// The wire spelling of this type.
    pub fn to_str(&self, standard: IntegrationStandard) -> (r: &'static str)
        ensures
            r@ == spec_encode_addon_type(*self),
    {
        match standard {
            IntegrationStandard::V1 => match self {
                AddonType::Module => "module",
                AddonType::Layer => "layer",
                AddonType::Component => "component",
            },
        }
    }

    /// Parse the wire spelling of an addon type.
    pub fn from_str(value: &String, standard: IntegrationStandard) -> (r: Result<
        AddonType,
        IntegrationError,
    >)
        ensures
            match r {
                Ok(t) => spec_decode_addon_type(value@) == Some(t),
                Err(er) => spec_decode_addon_type(value@) is None && er is Marshal,
            },
    {
        match standard {
            IntegrationStandard::V1 => {
                if *value == String::from_str("module") {
                    Ok(AddonType::Module)
                } else if *value == String::from_str("layer") {
                    Ok(AddonType::Layer)
                } else if *value == String::from_str("component") {
                    Ok(AddonType::Component)
                } else {
                    Err(IntegrationError::Marshal)
                }
            },
        }
    }
}

/// One addon: identity, presentation title, version and whether the game
/// requires it.
#[derive(Debug, PartialEq, Eq)]
pub struct Addon {
    /// How the addon relates to the game installation.  On the wire this
    /// field is named `type`.
    pub kind: AddonType,
    pub name: String,
    pub title: String,
    pub version: String,
    /// A required addon is always treated as enabled.
    pub required: bool,
}

/// Model of an [`Addon`].
pub struct AddonV {
    pub kind: AddonType,
    pub name: Seq<char>,
    pub title: Seq<char>,
    pub version: Seq<char>,
    pub required: bool,
}

impl DeepView for Addon {
    type V = AddonV;

    open spec fn deep_view(&self) -> AddonV {
        AddonV {
            kind: self.kind,
            name: self.name@,
            title: self.title@,
            version: self.version@,
            required: self.required,
        }
    }
}

impl Clone for Addon {
    fn clone(&self) -> (res: Self)
        ensures
            res == self,
    {
        Addon {
            kind: self.kind,
            name: self.name.clone(),
            title: self.title.clone(),
            version: self.version.clone(),
            required: self.required,
        }
    }
}

/// The wire shape of an addon: `{type, name, title, version, required}`.
pub open spec fn spec_encode_addon(a: AddonV) -> WireModel {
    WireModel::Record(
        seq![
            ("type"@, WireModel::Str(spec_encode_addon_type(a.kind))),
            ("name"@, WireModel::Str(a.name)),
            ("title"@, WireModel::Str(a.title)),
            ("version"@, WireModel::Str(a.version)),
            ("required"@, WireModel::Bool(a.required)),
        ],
    )
}

/// What decoding a wire value as an addon yields, if anything.
pub open spec fn spec_decode_addon(v: WireModel) -> Option<AddonV> {
    match v {
        WireModel::Record(fs) => match (
            wire_lookup(fs, "type"@),
            wire_lookup(fs, "name"@),
            wire_lookup(fs, "title"@),
            wire_lookup(fs, "version"@),
            wire_lookup(fs, "required"@),
        ) {
            (
                Some(WireModel::Str(ty)),
                Some(WireModel::Str(n)),
                Some(WireModel::Str(t)),
                Some(WireModel::Str(ver)),
                Some(WireModel::Bool(req)),
            ) => match spec_decode_addon_type(ty) {
                Some(kind) => Some(
                    AddonV { kind, name: n, title: t, version: ver, required: req },
                ),
                None => None,
            },
            _ => None,
        },
        _ => None,
    }
}

/// Round trip: decoding an encoded addon restores it exactly.
pub proof fn lemma_addon_round_trip(a: AddonV)
    ensures
        spec_decode_addon(spec_encode_addon(a)) == Some(a),
{
    reveal_strlit("type");
    reveal_strlit("name");
    reveal_strlit("title");
    reveal_strlit("version");
    reveal_strlit("required");
    let fs = spec_encode_addon(a)->Record_0;
    assert("type"@.len() == 4 && "name"@.len() == 4 && "title"@.len() == 5 && "version"@.len() == 7
        && "required"@.len() == 8);
    assert("type"@[0] == 't' && "name"@[0] == 'n');
    assert(fs.skip(1) =~= seq![
        ("name"@, WireModel::Str(a.name)),
        ("title"@, WireModel::Str(a.title)),
        ("version"@, WireModel::Str(a.version)),
        ("required"@, WireModel::Bool(a.required)),
    ]);
    assert(fs.skip(1).skip(1) =~= seq![
        ("title"@, WireModel::Str(a.title)),
        ("version"@, WireModel::Str(a.version)),
        ("required"@, WireModel::Bool(a.required)),
    ]);
    assert(fs.skip(1).skip(1).skip(1) =~= seq![
        ("version"@, WireModel::Str(a.version)),
        ("required"@, WireModel::Bool(a.required)),
    ]);
    assert(fs.skip(1).skip(1).skip(1).skip(1) =~= seq![("required"@, WireModel::Bool(a.required))]);
    assert(wire_lookup(fs, "type"@) == Some(WireModel::Str(spec_encode_addon_type(a.kind))));
    assert(wire_lookup(fs, "name"@) == Some(WireModel::Str(a.name))) by {
        reveal_with_fuel(wire_lookup, 6);
    }
    assert(wire_lookup(fs, "title"@) == Some(WireModel::Str(a.title))) by {
        reveal_with_fuel(wire_lookup, 6);
    }
    assert(wire_lookup(fs, "version"@) == Some(WireModel::Str(a.version))) by {
        reveal_with_fuel(wire_lookup, 6);
    }
    assert(wire_lookup(fs, "required"@) == Some(WireModel::Bool(a.required))) by {
        reveal_with_fuel(wire_lookup, 6);
    }
    lemma_addon_type_round_trip(a.kind);
}

impl Addon {
    /// Encode for the script boundary.
    pub fn to_table(&self, standard: IntegrationStandard) -> (r: WireValue)
        ensures
            r.deep_view() == spec_encode_addon(self.deep_view()),
    {
        match standard {
            IntegrationStandard::V1 => {
                let mut fields: Vec<(String, WireValue)> = Vec::new();
                fields.push(
                    (
                        String::from_str("type"),
                        WireValue::Str(String::from_str(self.kind.to_str(standard))),
                    ),
                );
                fields.push((String::from_str("name"), WireValue::Str(self.name.clone())));
                fields.push((String::from_str("title"), WireValue::Str(self.title.clone())));
                fields.push((String::from_str("version"), WireValue::Str(self.version.clone())));
                fields.push((String::from_str("required"), WireValue::Bool(self.required)));
                proof {
                    lemma_wire_record_view(fields@);
                    assert(wire_record_view(fields@) =~= spec_encode_addon(
                        self.deep_view(),
                    )->Record_0);
                }
                WireValue::Record(fields)
            },
        }
    }

    /// Decode from the script boundary.
    pub fn from_table(v: &WireValue, standard: IntegrationStandard) -> (r: Result<
        Addon,
        IntegrationError,
    >)
        ensures
            match r {
                Ok(a) => spec_decode_addon(v.deep_view()) == Some(a.deep_view()),
                Err(er) => spec_decode_addon(v.deep_view()) is None && er is Marshal,
            },
    {
        match standard {
            IntegrationStandard::V1 => {
                let fields = match v {
                    WireValue::Record(fields) => fields,
                    _ => { return Err(IntegrationError::Marshal); },
                };
                let kind_str = match get_str_field(fields, &String::from_str("type")) {
                    Some(s) => s,
                    None => { return Err(IntegrationError::Marshal); },
                };
                let name = match get_str_field(fields, &String::from_str("name")) {
                    Some(s) => s,
                    None => { return Err(IntegrationError::Marshal); },
                };
                let title = match get_str_field(fields, &String::from_str("title")) {
                    Some(s) => s,
                    None => { return Err(IntegrationError::Marshal); },
                };
                let version = match get_str_field(fields, &String::from_str("version")) {
                    Some(s) => s,
                    None => { return Err(IntegrationError::Marshal); },
                };
                let required = match get_bool_field(fields, &String::from_str("required")) {
                    Some(b) => b,
                    None => { return Err(IntegrationError::Marshal); },
                };
                let kind = match AddonType::from_str(&kind_str, standard) {
                    Ok(t) => t,
                    Err(e) => { return Err(e); },
                };
                Ok(Addon { kind, name, title, version, required })
            },
        }
    }

    /// The directory an addon installs into, derived from its type: a
    /// required or module-type addon resolves against the game's own
    /// install root, every other against
    /// `<addons root>/<group name>/<addon name>`.
    pub fn get_installation_path(&self, group_name: &str, game_path: &str, addons_path: &str) -> (r:
        String)
        ensures
            (self.required || self.kind == AddonType::Module) ==> r@ == game_path@,
            !(self.required || self.kind == AddonType::Module) ==> r@ == addons_path@ + "/"@
                + group_name@ + "/"@ + self.name@,
    {
        if self.required || matches!(self.kind, AddonType::Module) {
            String::from_str(game_path)
        } else {
            String::from_str(addons_path).concat("/").concat(group_name).concat("/").concat(
                self.name.as_str(),
            )
        }
    }
}

impl WireEntity for Addon {
    open spec fn wf(m: AddonV) -> bool {
        true
    }

    open spec fn spec_encode(m: AddonV) -> WireModel {
        spec_encode_addon(m)
    }

    open spec fn spec_decode(v: WireModel) -> Option<AddonV> {
        spec_decode_addon(v)
    }

    proof fn lemma_round_trip(m: AddonV) {
        lemma_addon_round_trip(m);
    }

    fn encode_value(&self, standard: IntegrationStandard) -> (r: WireValue) {
        self.to_table(standard)
    }

    fn decode_value(v: &WireValue, standard: IntegrationStandard) -> (r: Result<
        Addon,
        IntegrationError,
    >) {
        Addon::from_table(v, standard)
    }
}

/// Copy a vector of addons, element by element.
pub fn clone_addons_vec(v: &Vec<Addon>) -> (r: Vec<Addon>)
    ensures
        r@ == v@,
{
    let mut out: Vec<Addon> = Vec::new();
    for i in 0..v.len()
        invariant
            out@.len() == i,
            forall|j: int| 0 <= j < i ==> out@[j] == v@[j],
    {
        out.push(v[i].clone());
    }
    proof {
        assert(out@ =~= v@);
    }
    out
}

/// No two addons of the list share a name.
pub open spec fn addon_names_unique(addons: Seq<AddonV>) -> bool {
    forall|i: int, j: int|
        0 <= i < j < addons.len() ==> (#[trigger] addons[i]).name != (#[trigger] addons[j]).name
}

/// No two groups of the list share a name.
pub open spec fn group_names_unique(groups: Seq<AddonsGroupV>) -> bool {
    forall|i: int, j: int|
        0 <= i < j < groups.len() ==> (#[trigger] groups[i]).name != (#[trigger] groups[j]).name
}

/// Whether the addons of the list carry pairwise distinct names.
pub fn addon_names_are_unique(addons: &Vec<Addon>) -> (r: bool)
    ensures
        r == addon_names_unique(addons.deep_view()),
{
    let n = addons.len();
    for i in 0..n
        invariant
            n == addons@.len(),
            forall|p: int, q: int|
                0 <= p < q < n && p < i ==> (#[trigger] addons.deep_view()[p]).name != (
                #[trigger] addons.deep_view()[q]).name,
    {
        for j in (i + 1)..n
            invariant
                i < n == addons@.len(),
                forall|p: int, q: int|
                    0 <= p < q < n && p < i ==> (#[trigger] addons.deep_view()[p]).name != (
                    #[trigger] addons.deep_view()[q]).name,
                forall|q: int|
                    i < q < j ==> (#[trigger] addons.deep_view()[q]).name != addons.deep_view()[
                    i as int].name,
        {
            if addons[i].name == addons[j].name {
                proof {
                    assert(addons.deep_view()[i as int].name == addons@[i as int].name@);
                    assert(addons.deep_view()[j as int].name == addons@[j as int].name@);
                }
                return false;
            }
        }
    }
    true
}

/// A named group of addons, in script-declared order.
#[derive(Debug, PartialEq, Eq)]
pub struct AddonsGroup {
    pub name: String,
    pub title: String,
    pub addons: Vec<Addon>,
}

/// Model of an [`AddonsGroup`].
pub struct AddonsGroupV {
    pub name: Seq<char>,
    pub title: Seq<char>,
    pub addons: Seq<AddonV>,
}

impl DeepView for AddonsGroup {
    type V = AddonsGroupV;

    open spec fn deep_view(&self) -> AddonsGroupV {
        AddonsGroupV { name: self.name@, title: self.title@, addons: self.addons.deep_view() }
    }
}

impl Clone for AddonsGroup {
    fn clone(&self) -> (res: Self)
        ensures
            res.deep_view() == self.deep_view(),
            res.name@ == self.name@,
            res.title@ == self.title@,
            res.addons@ == self.addons@,
    {
        AddonsGroup {
            name: self.name.clone(),
            title: self.title.clone(),
            addons: clone_addons_vec(&self.addons),
        }
    }
}

/// A group is well formed when its addon names are pairwise distinct —
/// addon names are unique within their list.
pub open spec fn group_wf(g: AddonsGroupV) -> bool {
    addon_names_unique(g.addons)
}

/// The wire shape of a group: `{name, title, addons}` with the addons a
/// list of addon records.
pub open spec fn spec_encode_group(g: AddonsGroupV) -> WireModel {
    WireModel::Record(
        seq![
            ("name"@, WireModel::Str(g.name)),
            ("title"@, WireModel::Str(g.title)),
            ("addons"@, WireModel::List(spec_encode_entity_list::<Addon>(g.addons))),
        ],
    )
}

/// What decoding a wire value as an addon group yields, if anything.
pub open spec fn spec_decode_group(v: WireModel) -> Option<AddonsGroupV> {
    match v {
        WireModel::Record(fs) => match (
            wire_lookup(fs, "name"@),
            wire_lookup(fs, "title"@),
            wire_lookup(fs, "addons"@),
        ) {
            (Some(WireModel::Str(n)), Some(WireModel::Str(t)), Some(WireModel::List(items))) => match
                spec_decode_entity_list::<Addon>(items) {
                Some(addons) => if addon_names_unique(addons) {
                    Some(AddonsGroupV { name: n, title: t, addons })
                } else {
                    None
                },
                None => None,
            },
            _ => None,
        },
        _ => None,
    }
}

/// Round trip: decoding an encoded well-formed addon group restores it
/// exactly.
pub proof fn lemma_group_round_trip(g: AddonsGroupV)
    requires
        group_wf(g),
    ensures
        spec_decode_group(spec_encode_group(g)) == Some(g),
{
    reveal_strlit("name");
    reveal_strlit("title");
    reveal_strlit("addons");
    let fs = spec_encode_group(g)->Record_0;
    assert("name"@.len() == 4 && "title"@.len() == 5 && "addons"@.len() == 6);
    let enc = WireModel::List(spec_encode_entity_list::<Addon>(g.addons));
    assert(fs.skip(1) =~= seq![("title"@, WireModel::Str(g.title)), ("addons"@, enc)]);
    assert(fs.skip(1).skip(1) =~= seq![("addons"@, enc)]);
    assert(wire_lookup(fs, "name"@) == Some(WireModel::Str(g.name)));
    assert(wire_lookup(fs, "title"@) == Some(WireModel::Str(g.title))) by {
        reveal_with_fuel(wire_lookup, 4);
    }
    assert(wire_lookup(fs, "addons"@) == Some(enc)) by {
        reveal_with_fuel(wire_lookup, 4);
    }
    assert(forall|i: int| 0 <= i < g.addons.len() ==> <Addon as WireEntity>::wf(
        #[trigger] g.addons[i],
    ));
    lemma_entity_list_round_trip::<Addon>(g.addons);
}

impl AddonsGroup {
    /// Encode for the script boundary.
    pub fn to_table(&self, standard: IntegrationStandard) -> (r: WireValue)
        ensures
            r.deep_view() == spec_encode_group(self.deep_view()),
    {
        match standard {
            IntegrationStandard::V1 => {
                let addons = encode_entity_list::<Addon>(&self.addons, standard);
                let mut fields: Vec<(String, WireValue)> = Vec::new();
                fields.push((String::from_str("name"), WireValue::Str(self.name.clone())));
                fields.push((String::from_str("title"), WireValue::Str(self.title.clone())));
                fields.push((String::from_str("addons"), WireValue::List(addons)));
                proof {
                    lemma_wire_record_view(fields@);
                    assert(wire_record_view(fields@) =~= spec_encode_group(
                        self.deep_view(),
                    )->Record_0);
                }
                WireValue::Record(fields)
            },
        }
    }

    /// Decode from the script boundary.  A malformed addon entry fails the
    /// whole group: marshalling errors propagate, they are never dropped.
    pub fn from_table(v: &WireValue, standard: IntegrationStandard) -> (r: Result<
        AddonsGroup,
        IntegrationError,
    >)
        ensures
            match r {
                Ok(g) => spec_decode_group(v.deep_view()) == Some(g.deep_view()),
                Err(er) => spec_decode_group(v.deep_view()) is None && er is Marshal,
            },
    {
        match standard {
            IntegrationStandard::V1 => {
                let fields = match v {
                    WireValue::Record(fields) => fields,
                    _ => { return Err(IntegrationError::Marshal); },
                };
                let name = match get_str_field(fields, &String::from_str("name")) {
                    Some(s) => s,
                    None => { return Err(IntegrationError::Marshal); },
                };
                let title = match get_str_field(fields, &String::from_str("title")) {
                    Some(s) => s,
                    None => { return Err(IntegrationError::Marshal); },
                };
                let items = match get_list_field(fields, &String::from_str("addons")) {
                    Some(items) => items,
                    None => { return Err(IntegrationError::Marshal); },
                };
                let addons = match decode_entity_list::<Addon>(items, standard) {
                    Ok(a) => a,
                    Err(e) => { return Err(e); },
                };
                if addon_names_are_unique(&addons) {
                    Ok(AddonsGroup { name, title, addons })
                } else {
                    Err(IntegrationError::Marshal)
                }
            },
        }
    }
}

impl WireEntity for AddonsGroup {
    open spec fn wf(m: AddonsGroupV) -> bool {
        group_wf(m)
    }

    open spec fn spec_encode(m: AddonsGroupV) -> WireModel {
        spec_encode_group(m)
    }

    open spec fn spec_decode(v: WireModel) -> Option<AddonsGroupV> {
        spec_decode_group(v)
    }

    proof fn lemma_round_trip(m: AddonsGroupV) {
        lemma_group_round_trip(m);
    }

    fn encode_value(&self, standard: IntegrationStandard) -> (r: WireValue) {
        self.to_table(standard)
    }

    fn decode_value(v: &WireValue, standard: IntegrationStandard) -> (r: Result<
        AddonsGroup,
        IntegrationError,
    >) {
        AddonsGroup::from_table(v, standard)
    }
}

/// Whether the groups of the list carry pairwise distinct names.
pub fn group_names_are_unique(groups: &Vec<AddonsGroup>) -> (r: bool)
    ensures
        r == group_names_unique(groups.deep_view()),
{
    let n = groups.len();
    for i in 0..n
        invariant
            n == groups@.len(),
            forall|p: int, q: int|
                0 <= p < q < n && p < i ==> (#[trigger] groups.deep_view()[p]).name != (
                #[trigger] groups.deep_view()[q]).name,
    {
        for j in (i + 1)..n
            invariant
                i < n == groups@.len(),
                forall|p: int, q: int|
                    0 <= p < q < n && p < i ==> (#[trigger] groups.deep_view()[p]).name != (
                    #[trigger] groups.deep_view()[q]).name,
                forall|q: int|
                    i < q < j ==> (#[trigger] groups.deep_view()[q]).name != groups.deep_view()[
                    i as int].name,
        {
            if groups[i].name == groups[j].name {
                proof {
                    assert(groups.deep_view()[i as int].name == groups@[i as int].name@);
                    assert(groups.deep_view()[j as int].name == groups@[j as int].name@);
                }
                return false;
            }
        }
    }
    true
}

/// A sane addons listing: group names pairwise distinct, and every group
/// well formed.
pub open spec fn addons_listing_wf(gs: Seq<AddonsGroupV>) -> bool {
    group_names_unique(gs) && (forall|k: int| 0 <= k < gs.len() ==> group_wf(#[trigger] gs[k]))
}

/// Every group of a decoded listing is well formed: the decoder rejects a
/// group whose addon names repeat.
proof fn lemma_decoded_groups_wf(w: Seq<WireModel>, out: Seq<AddonsGroupV>)
    requires
        spec_decode_entity_list::<AddonsGroup>(w) == Some(out),
    ensures
        forall|k: int| 0 <= k < out.len() ==> group_wf(#[trigger] out[k]),
    decreases w.len(),
{
    if w.len() > 0 {
        let head = <AddonsGroup as WireEntity>::spec_decode(w[0]);
        let rest = spec_decode_entity_list::<AddonsGroup>(w.skip(1));
        assert(head is Some && rest is Some);
        assert(out == seq![head.unwrap()] + rest.unwrap());
        lemma_decoded_groups_wf(w.skip(1), rest.unwrap());
        assert forall|k: int| 0 <= k < out.len() implies group_wf(#[trigger] out[k]) by {
            if k == 0 {
                assert(out[0] == head.unwrap());
            } else {
                assert(out[k] == rest.unwrap()[k - 1]);
            }
        }
    }
}

/// Decode a wire value as an edition's addons listing: a list of groups
/// with pairwise distinct names, each well formed — group and addon names
/// are unique within their list, and a listing that breaks that is a
/// shape mismatch.
pub fn decode_addons_listing(v: WireValue, standard: IntegrationStandard) -> (r: Result<
    Vec<AddonsGroup>,
    IntegrationError,
>)
    ensures
        match r {
            Ok(gs) => (v.deep_view() matches WireModel::List(w)
                && spec_decode_entity_list::<AddonsGroup>(w) == Some(gs.deep_view()))
                && addons_listing_wf(gs.deep_view()),
            Err(e) => e is Marshal && (match v.deep_view() {
                WireModel::List(w) => match spec_decode_entity_list::<AddonsGroup>(w) {
                    Some(d) => !group_names_unique(d),
                    None => true,
                },
                _ => true,
            }),
        },
{
    let gs = match as_entity_list_value::<AddonsGroup>(v, standard) {
        Ok(gs) => gs,
        Err(e) => { return Err(e); },
    };
    if group_names_are_unique(&gs) {
        proof {
            lemma_decoded_groups_wf(v.deep_view()->List_0, gs.deep_view());
        }
        Ok(gs)
    } else {
        Err(IntegrationError::Marshal)
    }
}

/// Copy a vector of addon groups, element by element.
pub fn clone_groups_vec(v: &Vec<AddonsGroup>) -> (r: Vec<AddonsGroup>)
    ensures
        r.deep_view() == v.deep_view(),
        r@.len() == v@.len(),
{
    let mut out: Vec<AddonsGroup> = Vec::new();
    for i in 0..v.len()
        invariant
            out@.len() == i,
            forall|j: int| 0 <= j < i ==> out@[j].deep_view() == v@[j].deep_view(),
    {
        out.push(v[i].clone());
    }
    proof {
        assert(out.deep_view() =~= v.deep_view());
    }
    out
}

} // verus!
