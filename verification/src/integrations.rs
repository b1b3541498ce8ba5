//! A loaded game integration: one manifest, one script execution context,
//! and the memo caches that wrap its stable queries.
//!
//! Every operation dispatches on the manifest's wire-contract standard — a
//! closed match — and marshals through the verified codecs.  The queries
//! whose results are stable for the process lifetime (artwork, style
//! sheets, edition and addon listings) are memoized per driver: a cached
//! key is answered from the cache, bit for bit, with no further script
//! call and no state change.  Queries with externally mutable outcomes
//! (install state, running state, diffs) are never cached.

use vstd::prelude::*;

use crate::cache::Cache;
use crate::driver::v1::{args1, args2, args3, args4};
use crate::engine::{script_call, script_call_bytes, script_has_global};
use crate::error::IntegrationError;
use crate::standards::addons::{AddonsGroup, addons_listing_wf, clone_groups_vec, decode_addons_listing};
use crate::standards::game::{
    Diff, Download, GameEdition, GameLaunchOptions, GameStatus, IntegrityInfo, clone_editions_vec,
    spec_decode_download, spec_decode_diff, spec_decode_game_status, spec_decode_launch_options,
};
use crate::standards::manifest::Manifest;
use crate::standards::{
    IntegrationStandard, as_bool_value, as_entity_list_value, as_opt_entity_value,
    as_opt_str_value, as_str_list_value, as_str_value, spec_decode_entity_list,
};
use crate::wire::WireModel;

verus! {

/// A map updated at one key whose stored vector has the given view, all
/// other keys untouched.
pub open spec fn editions_updated(
    new: Map<Seq<char>, Vec<GameEdition>>,
    prior: Map<Seq<char>, Vec<GameEdition>>,
    key: Seq<char>,
    es: Seq<GameEdition>,
) -> bool {
    &&& new.dom() =~= prior.dom().insert(key)
    &&& new[key]@ == es
    &&& forall|k: Seq<char>| prior.contains_key(k) && k != key ==> new[k] == #[trigger] prior[k]
}

/// A map updated at one key whose stored vector has the given deep view,
/// all other keys untouched.
pub open spec fn groups_updated(
    new: Map<Seq<char>, Vec<AddonsGroup>>,
    prior: Map<Seq<char>, Vec<AddonsGroup>>,
    key: Seq<char>,
    gs: Seq<<AddonsGroup as DeepView>::V>,
) -> bool {
    &&& new.dom() =~= prior.dom().insert(key)
    &&& new[key].deep_view() == gs
    &&& forall|k: Seq<char>| prior.contains_key(k) && k != key ==> new[k] == #[trigger] prior[k]
}

/// One loaded game: manifest, script context, and per-driver memo caches,
/// explicit in the constructor rather than hidden at the call sites.
#[derive(Debug)]
pub struct Game {
    manifest: Manifest,
    script_path: String,
    lua: mlua::Lua,
    card_cache: Cache<String>,
    background_cache: Cache<String>,
    style_cache: Cache<Option<String>>,
    editions_cache: Cache<Vec<GameEdition>>,
    addons_cache: Cache<Vec<AddonsGroup>>,
}

impl Game {
    /// All memo caches are well formed, and every cached addons listing
    /// is sane: only listings with unique group and addon names are ever
    /// stored.
    pub closed spec fn wf(self) -> bool {
        &&& self.card_cache.wf()
        &&& self.background_cache.wf()
        &&& self.style_cache.wf()
        &&& self.editions_cache.wf()
        &&& self.addons_cache.wf()
        &&& forall|k: Seq<char>|
            self.addons_cache.model().contains_key(k) ==> addons_listing_wf(
                (#[trigger] self.addons_cache.model()[k]).deep_view(),
            )
    }

    /// The memoized card artwork, by composite key.
    pub closed spec fn cards(self) -> Map<Seq<char>, String> {
        self.card_cache.model()
    }

    /// The memoized background artwork, by composite key.
    pub closed spec fn backgrounds(self) -> Map<Seq<char>, String> {
        self.background_cache.model()
    }

    /// The memoized style sheets, by composite key.
    pub closed spec fn styles(self) -> Map<Seq<char>, Option<String>> {
        self.style_cache.model()
    }

    /// The memoized edition listings, by game name.
    pub closed spec fn editions(self) -> Map<Seq<char>, Vec<GameEdition>> {
        self.editions_cache.model()
    }

    /// The memoized addon listings, by composite key.
    pub closed spec fn addons(self) -> Map<Seq<char>, Vec<AddonsGroup>> {
        self.addons_cache.model()
    }

    /// The manifest the game was loaded from.
    pub closed spec fn spec_manifest(self) -> Manifest {
        self.manifest
    }

    /// The resolved location the script was read from.
    pub closed spec fn spec_script_path(self) -> String {
        self.script_path
    }

    /// The manifest the game was loaded from.
    pub fn manifest(&self) -> (r: &Manifest)
        ensures
            *r == self.spec_manifest(),
    {
        &self.manifest
    }

    /// The resolved location the script was read from.
    pub fn script_path(&self) -> (r: &String)
        ensures
            *r == self.spec_script_path(),
    {
        &self.script_path
    }

    /// The composite cache key for a per-edition query.
    pub closed spec fn cache_key(self, edition: Seq<char>) -> Seq<char> {
        self.manifest.game_name@ + edition
    }

    /// Everything but the memo caches is as it was: the manifest, the
    /// script location, and the execution context the game was built with.
    pub closed spec fn same_identity(self, prior: Game) -> bool {
        &&& self.manifest == prior.manifest
        &&& self.script_path == prior.script_path
        &&& self.lua == prior.lua
    }

    /// What an unchanged identity carries: the manifest, the script
    /// location, and with them every cache key.  This is the bridge a
    /// caller needs to chain two operations: after a first memoized call
    /// succeeds, the key it cached is the key the second call looks up.
    pub broadcast proof fn lemma_same_identity(g1: Game, g0: Game)
        requires
            #[trigger] g1.same_identity(g0),
        ensures
            g1.spec_manifest() == g0.spec_manifest(),
            g1.spec_script_path() == g0.spec_script_path(),
            forall|e: Seq<char>| #[trigger] g1.cache_key(e) == g0.cache_key(e),
    {
    }

    /// Bind a fresh game: run the script's top level once inside the
    /// prepared execution context and start with empty caches.  Any
    /// load-time failure aborts construction; no partial game is returned.
    pub fn new(lua: mlua::Lua, manifest: Manifest, script: &str, script_path: String) -> (r:
        Result<Game, IntegrationError>)
        ensures
            r matches Ok(g) ==> g.wf() && g.spec_manifest() == manifest && g.spec_script_path() == script_path
                && g.cards() =~= Map::<Seq<char>, String>::empty() && g.backgrounds() =~= Map::<
                Seq<char>,
                String,
            >::empty() && g.styles() =~= Map::<Seq<char>, Option<String>>::empty() && g.editions()
                =~= Map::<Seq<char>, Vec<GameEdition>>::empty() && g.addons() =~= Map::<
                Seq<char>,
                Vec<AddonsGroup>,
            >::empty(),
            r matches Err(e) ==> e is Load,
    {
        match crate::engine::script_exec(&lua, script) {
            Ok(()) => Ok(
                Game {
                    manifest,
                    script_path,
                    lua,
                    card_cache: Cache::new(),
                    background_cache: Cache::new(),
                    style_cache: Cache::new(),
                    editions_cache: Cache::new(),
                    addons_cache: Cache::new(),
                },
            ),
            Err(m) => Err(IntegrationError::Load(m)),
        }
    }

    /// The card artwork for an edition, memoized: a key already held is
    /// answered from the cache unchanged; a fresh result is cached.
    pub fn get_card_picture(&mut self, edition: &str) -> (r: Result<String, IntegrationError>)
        requires
            old(self).wf(),
        ensures
            final(self).wf(),
            final(self).same_identity(*old(self)),
            final(self).backgrounds() == old(self).backgrounds(),
            final(self).styles() == old(self).styles(),
            final(self).editions() == old(self).editions(),
            final(self).addons() == old(self).addons(),
            old(self).cards().contains_key(old(self).cache_key(edition@)) ==> *final(self) == *old(
                self,
            ) && r == Ok::<String, IntegrationError>(
                old(self).cards()[old(self).cache_key(edition@)],
            ),
            r matches Ok(p) ==> final(self).cards() =~= old(self).cards().insert(
                old(self).cache_key(edition@),
                p,
            ),
            r is Err ==> *final(self) == *old(self),
    {
        let key = self.manifest.game_name.clone().concat(edition);
        match self.card_cache.get(&key) {
            Some(p) => {
                let out = p.clone();
                proof {
                    assert(old(self).cards().insert(key@, out) =~= old(self).cards());
                }
                return Ok(out);
            },
            None => {},
        }
        match self.manifest.script_standard {
            IntegrationStandard::V1 => {
                match script_call(&self.lua, "v1_visual_get_card_picture", args1(edition)) {
                    Ok(v) => match as_str_value(v) {
                        Ok(p) => {
                            self.card_cache.set(key, p.clone());
                            Ok(p)
                        },
                        Err(e) => Err(e),
                    },
                    Err(m) => Err(IntegrationError::Script(m)),
                }
            },
        }
    }

    /// The background artwork for an edition, memoized like the card.
    pub fn get_background_picture(&mut self, edition: &str) -> (r: Result<
        String,
        IntegrationError,
    >)
        requires
            old(self).wf(),
        ensures
            final(self).wf(),
            final(self).same_identity(*old(self)),
            final(self).cards() == old(self).cards(),
            final(self).styles() == old(self).styles(),
            final(self).editions() == old(self).editions(),
            final(self).addons() == old(self).addons(),
            old(self).backgrounds().contains_key(old(self).cache_key(edition@)) ==> *final(self)
                == *old(self) && r == Ok::<String, IntegrationError>(
                old(self).backgrounds()[old(self).cache_key(edition@)],
            ),
            r matches Ok(p) ==> final(self).backgrounds() =~= old(self).backgrounds().insert(
                old(self).cache_key(edition@),
                p,
            ),
            r is Err ==> *final(self) == *old(self),
    {
        let key = self.manifest.game_name.clone().concat(edition);
        match self.background_cache.get(&key) {
            Some(p) => {
                let out = p.clone();
                proof {
                    assert(old(self).backgrounds().insert(key@, out) =~= old(self).backgrounds());
                }
                return Ok(out);
            },
            None => {},
        }
        match self.manifest.script_standard {
            IntegrationStandard::V1 => {
                match script_call(&self.lua, "v1_visual_get_background_picture", args1(edition)) {
                    Ok(v) => match as_str_value(v) {
                        Ok(p) => {
                            self.background_cache.set(key, p.clone());
                            Ok(p)
                        },
                        Err(e) => Err(e),
                    },
                    Err(m) => Err(IntegrationError::Script(m)),
                }
            },
        }
    }

    /// The details style sheet for an edition, memoized.  The hook is
    /// optional: when the script does not define it the result is `None`,
    /// not an error, and that absence is cached like any other answer.
    pub fn get_details_background_style(&mut self, edition: &str) -> (r: Result<
        Option<String>,
        IntegrationError,
    >)
        requires
            old(self).wf(),
        ensures
            final(self).wf(),
            final(self).same_identity(*old(self)),
            final(self).cards() == old(self).cards(),
            final(self).backgrounds() == old(self).backgrounds(),
            final(self).editions() == old(self).editions(),
            final(self).addons() == old(self).addons(),
            old(self).styles().contains_key(old(self).cache_key(edition@)) ==> *final(self)
                == *old(self) && r == Ok::<Option<String>, IntegrationError>(
                old(self).styles()[old(self).cache_key(edition@)],
            ),
            r matches Ok(p) ==> final(self).styles() =~= old(self).styles().insert(
                old(self).cache_key(edition@),
                p,
            ),
            r is Err ==> *final(self) == *old(self),
    {
        let key = self.manifest.game_name.clone().concat(edition);
        match self.style_cache.get(&key) {
            Some(p) => {
                let out = match p {
                    Some(s) => Some(s.clone()),
                    None => None,
                };
                proof {
                    assert(old(self).styles().insert(key@, out) =~= old(self).styles());
                }
                return Ok(out);
            },
            None => {},
        }
        match self.manifest.script_standard {
            IntegrationStandard::V1 => {
                let has = match script_has_global(
                    &self.lua,
                    "v1_visual_get_details_background_css",
                ) {
                    Ok(b) => b,
                    Err(m) => { return Err(IntegrationError::Script(m)); },
                };
                let style: Option<String> = if has {
                    match script_call(
                        &self.lua,
                        "v1_visual_get_details_background_css",
                        args1(edition),
                    ) {
                        Ok(v) => match as_str_value(v) {
                            Ok(s) => Some(s),
                            Err(e) => { return Err(e); },
                        },
                        Err(m) => { return Err(IntegrationError::Script(m)); },
                    }
                } else {
                    None
                };
                let stored = match &style {
                    Some(s) => Some(s.clone()),
                    None => None,
                };
                self.style_cache.set(key, stored);
                Ok(style)
            },
        }
    }

    /// The editions the game ships in, memoized under the game's name.
    pub fn get_game_editions_list(&mut self) -> (r: Result<Vec<GameEdition>, IntegrationError>)
        requires
            old(self).wf(),
        ensures
            final(self).wf(),
            final(self).same_identity(*old(self)),
            final(self).cards() == old(self).cards(),
            final(self).backgrounds() == old(self).backgrounds(),
            final(self).styles() == old(self).styles(),
            final(self).addons() == old(self).addons(),
            old(self).editions().contains_key(old(self).spec_manifest().game_name@) ==> *final(self)
                == *old(self) && (r matches Ok(es) && es@ == old(self).editions()[old(
                self,
            ).spec_manifest().game_name@]@),
            r matches Ok(es) ==> editions_updated(
                final(self).editions(),
                old(self).editions(),
                old(self).spec_manifest().game_name@,
                es@,
            ),
            r matches Ok(es) ==> !old(self).editions().contains_key(
                old(self).spec_manifest().game_name@,
            ) ==> exists|w: Seq<WireModel>|
                #[trigger] spec_decode_entity_list::<GameEdition>(w) == Some(es.deep_view()),
            r is Err ==> *final(self) == *old(self),
    {
        let key = self.manifest.game_name.clone();
        match self.editions_cache.get(&key) {
            Some(es) => {
                let out = clone_editions_vec(es);
                proof {
                    assert(final(self).editions().dom() =~= old(self).editions().dom().insert(
                        key@,
                    ));
                }
                return Ok(out);
            },
            None => {},
        }
        match self.manifest.script_standard {
            IntegrationStandard::V1 => {
                match script_call(&self.lua, "v1_game_get_editions_list", Vec::new()) {
                    Ok(v) => match as_entity_list_value::<GameEdition>(
                        v,
                        IntegrationStandard::V1,
                    ) {
                        Ok(es) => {
                            self.editions_cache.set(key, clone_editions_vec(&es));
                            proof {
                                assert(final(self).editions().dom() =~= old(
                                    self,
                                ).editions().dom().insert(old(self).manifest.game_name@));
                            }
                            Ok(es)
                        },
                        Err(e) => Err(e),
                    },
                    Err(m) => Err(IntegrationError::Script(m)),
                }
            },
        }
    }

    /// The addon groups an edition offers, memoized per edition.
    pub fn get_addons_list(&mut self, edition: &str) -> (r: Result<
        Vec<AddonsGroup>,
        IntegrationError,
    >)
        requires
            old(self).wf(),
        ensures
            final(self).wf(),
            final(self).same_identity(*old(self)),
            final(self).cards() == old(self).cards(),
            final(self).backgrounds() == old(self).backgrounds(),
            final(self).styles() == old(self).styles(),
            final(self).editions() == old(self).editions(),
            old(self).addons().contains_key(old(self).cache_key(edition@)) ==> *final(self)
                == *old(self) && (r matches Ok(gs) && gs.deep_view() == old(self).addons()[old(
                self,
            ).cache_key(edition@)].deep_view()),
            r matches Ok(gs) ==> groups_updated(
                final(self).addons(),
                old(self).addons(),
                old(self).cache_key(edition@),
                gs.deep_view(),
            ),
            r matches Ok(gs) ==> addons_listing_wf(gs.deep_view()),
            r matches Ok(gs) ==> !old(self).addons().contains_key(old(self).cache_key(edition@))
                ==> exists|w: Seq<WireModel>|
                #[trigger] spec_decode_entity_list::<AddonsGroup>(w) == Some(gs.deep_view()),
            r is Err ==> *final(self) == *old(self),
    {
        let key = self.manifest.game_name.clone().concat(edition);
        match self.addons_cache.get(&key) {
            Some(gs) => {
                let out = clone_groups_vec(gs);
                proof {
                    assert(final(self).addons().dom() =~= old(self).addons().dom().insert(key@));
                }
                return Ok(out);
            },
            None => {},
        }
        match self.manifest.script_standard {
            IntegrationStandard::V1 => {
                match script_call(&self.lua, "v1_addons_get_list", args1(edition)) {
                    Ok(v) => match decode_addons_listing(v, IntegrationStandard::V1) {
                        Ok(gs) => {
                            self.addons_cache.set(key, clone_groups_vec(&gs));
                            proof {
                                assert(final(self).addons().dom() =~= old(
                                    self,
                                ).addons().dom().insert(old(self).cache_key(edition@)));
                                assert forall|k: Seq<char>|
                                    final(self).addons().contains_key(k) implies addons_listing_wf(
                                    (#[trigger] final(self).addons()[k]).deep_view(),
                                ) by {
                                    if k != old(self).cache_key(edition@) {
                                        assert(old(self).addons().contains_key(k));
                                        assert(final(self).addons()[k] == old(self).addons()[k]);
                                    }
                                }
                            }
                            Ok(gs)
                        },
                        Err(e) => Err(e),
                    },
                    Err(m) => Err(IntegrationError::Script(m)),
                }
            },
        }
    }

    /// Whether the edition is installed under `path`.  Install state is
    /// externally mutable, so this is never cached.
    pub fn is_game_installed(&self, path: &str, edition: &str) -> (r: Result<
        bool,
        IntegrationError,
    >) {
        match self.manifest.script_standard {
            IntegrationStandard::V1 => {
                match script_call(&self.lua, "v1_game_is_installed", args2(path, edition)) {
                    Ok(v) => as_bool_value(v),
                    Err(m) => Err(IntegrationError::Script(m)),
                }
            },
        }
    }

    /// The installed version, or `None` when it cannot be determined.
    pub fn get_game_version(&self, path: &str, edition: &str) -> (r: Result<
        Option<String>,
        IntegrationError,
    >) {
        match self.manifest.script_standard {
            IntegrationStandard::V1 => {
                match script_call(&self.lua, "v1_game_get_version", args2(path, edition)) {
                    Ok(v) => as_opt_str_value(v),
                    Err(m) => Err(IntegrationError::Script(m)),
                }
            },
        }
    }

    /// The payload that installs an edition.
    pub fn get_game_download(&self, edition: &str) -> (r: Result<Download, IntegrationError>)
        ensures
            r matches Ok(d) ==> exists|w: WireModel| #[trigger] spec_decode_download(w) == Some(
                d.deep_view(),
            ),
    {
        match self.manifest.script_standard {
            IntegrationStandard::V1 => {
                match script_call(&self.lua, "v1_game_get_download", args1(edition)) {
                    Ok(v) => Download::from_table(&v, IntegrationStandard::V1),
                    Err(m) => Err(IntegrationError::Script(m)),
                }
            },
        }
    }

    /// The delta from the installed state, or `None` when not installed.
    pub fn get_game_diff(&self, path: &str, edition: &str) -> (r: Result<
        Option<Diff>,
        IntegrationError,
    >)
        ensures
            r matches Ok(Some(d)) ==> exists|w: WireModel| #[trigger] spec_decode_diff(w) == Some(
                d.deep_view(),
            ),
    {
        match self.manifest.script_standard {
            IntegrationStandard::V1 => {
                match script_call(&self.lua, "v1_game_get_diff", args2(path, edition)) {
                    Ok(v) => as_opt_entity_value::<Diff>(v, IntegrationStandard::V1),
                    Err(m) => Err(IntegrationError::Script(m)),
                }
            },
        }
    }

    /// The runtime status report, or `None` when the script has none.
    pub fn get_game_status(&self, path: &str, edition: &str) -> (r: Result<
        Option<GameStatus>,
        IntegrationError,
    >)
        ensures
            r matches Ok(Some(s)) ==> exists|w: WireModel| #[trigger] spec_decode_game_status(w)
                == Some(s.deep_view()),
    {
        match self.manifest.script_standard {
            IntegrationStandard::V1 => {
                match script_call(&self.lua, "v1_game_get_status", args2(path, edition)) {
                    Ok(v) => as_opt_entity_value::<GameStatus>(v, IntegrationStandard::V1),
                    Err(m) => Err(IntegrationError::Script(m)),
                }
            },
        }
    }

    /// How to launch an edition.
    pub fn get_launch_options(&self, game_path: &str, addons_path: &str, edition: &str) -> (r:
        Result<GameLaunchOptions, IntegrationError>)
        ensures
            r matches Ok(o) ==> exists|w: WireModel| #[trigger] spec_decode_launch_options(w)
                == Some(o.deep_view()),
    {
        match self.manifest.script_standard {
            IntegrationStandard::V1 => {
                match script_call(
                    &self.lua,
                    "v1_game_get_launch_options",
                    args3(game_path, addons_path, edition),
                ) {
                    Ok(v) => GameLaunchOptions::from_table(&v, IntegrationStandard::V1),
                    Err(m) => Err(IntegrationError::Script(m)),
                }
            },
        }
    }

    /// The file-integrity expectations for an installed edition.
    pub fn get_game_integrity(&self, game_path: &str, edition: &str) -> (r: Result<
        Vec<IntegrityInfo>,
        IntegrationError,
    >)
        ensures
            r matches Ok(infos) ==> exists|w: Seq<WireModel>|
                #[trigger] spec_decode_entity_list::<IntegrityInfo>(w) == Some(infos.deep_view()),
    {
        match self.manifest.script_standard {
            IntegrationStandard::V1 => {
                match script_call(
                    &self.lua,
                    "v1_game_get_integrity_info",
                    args2(game_path, edition),
                ) {
                    Ok(v) => as_entity_list_value::<IntegrityInfo>(v, IntegrationStandard::V1),
                    Err(m) => Err(IntegrationError::Script(m)),
                }
            },
        }
    }

    /// Whether the addon is installed under `addon_path`.
    pub fn is_addon_installed(
        &self,
        group_name: &str,
        addon_name: &str,
        addon_path: &str,
        edition: &str,
    ) -> (r: Result<bool, IntegrationError>) {
        match self.manifest.script_standard {
            IntegrationStandard::V1 => {
                match script_call(
                    &self.lua,
                    "v1_addons_is_installed",
                    args4(group_name, addon_name, addon_path, edition),
                ) {
                    Ok(v) => as_bool_value(v),
                    Err(m) => Err(IntegrationError::Script(m)),
                }
            },
        }
    }

    /// The installed addon version, or `None` when it cannot be
    /// determined.
    pub fn get_addon_version(
        &self,
        group_name: &str,
        addon_name: &str,
        addon_path: &str,
        edition: &str,
    ) -> (r: Result<Option<String>, IntegrationError>) {
        match self.manifest.script_standard {
            IntegrationStandard::V1 => {
                match script_call(
                    &self.lua,
                    "v1_addons_get_version",
                    args4(group_name, addon_name, addon_path, edition),
                ) {
                    Ok(v) => as_opt_str_value(v),
                    Err(m) => Err(IntegrationError::Script(m)),
                }
            },
        }
    }

    /// The payload that installs an addon.
    pub fn get_addon_download(&self, group_name: &str, addon_name: &str, edition: &str) -> (r:
        Result<Download, IntegrationError>)
        ensures
            r matches Ok(d) ==> exists|w: WireModel| #[trigger] spec_decode_download(w) == Some(
                d.deep_view(),
            ),
    {
        match self.manifest.script_standard {
            IntegrationStandard::V1 => {
                match script_call(
                    &self.lua,
                    "v1_addons_get_download",
                    args3(group_name, addon_name, edition),
                ) {
                    Ok(v) => Download::from_table(&v, IntegrationStandard::V1),
                    Err(m) => Err(IntegrationError::Script(m)),
                }
            },
        }
    }

    /// The delta from the installed addon state, or `None` when not
    /// installed.
    pub fn get_addon_diff(
        &self,
        group_name: &str,
        addon_name: &str,
        addon_path: &str,
        edition: &str,
    ) -> (r: Result<Option<Diff>, IntegrationError>)
        ensures
            r matches Ok(Some(d)) ==> exists|w: WireModel| #[trigger] spec_decode_diff(w) == Some(
                d.deep_view(),
            ),
    {
        match self.manifest.script_standard {
            IntegrationStandard::V1 => {
                match script_call(
                    &self.lua,
                    "v1_addons_get_diff",
                    args4(group_name, addon_name, addon_path, edition),
                ) {
                    Ok(v) => as_opt_entity_value::<Diff>(v, IntegrationStandard::V1),
                    Err(m) => Err(IntegrationError::Script(m)),
                }
            },
        }
    }

    /// The files and directories the addon owns.
    pub fn get_addon_paths(
        &self,
        group_name: &str,
        addon_name: &str,
        addon_path: &str,
        edition: &str,
    ) -> (r: Result<Vec<String>, IntegrationError>) {
        match self.manifest.script_standard {
            IntegrationStandard::V1 => {
                match script_call(
                    &self.lua,
                    "v1_addons_get_paths",
                    args4(group_name, addon_name, addon_path, edition),
                ) {
                    Ok(v) => as_str_list_value(v),
                    Err(m) => Err(IntegrationError::Script(m)),
                }
            },
        }
    }

    /// The file-integrity expectations for an installed addon.
    pub fn get_addon_integrity(
        &self,
        group_name: &str,
        addon_name: &str,
        addon_path: &str,
        edition: &str,
    ) -> (r: Result<Vec<IntegrityInfo>, IntegrationError>)
        ensures
            r matches Ok(infos) ==> exists|w: Seq<WireModel>|
                #[trigger] spec_decode_entity_list::<IntegrityInfo>(w) == Some(infos.deep_view()),
    {
        match self.manifest.script_standard {
            IntegrationStandard::V1 => {
                match script_call(
                    &self.lua,
                    "v1_addons_get_integrity_info",
                    args4(group_name, addon_name, addon_path, edition),
                ) {
                    Ok(v) => as_entity_list_value::<IntegrityInfo>(v, IntegrationStandard::V1),
                    Err(m) => Err(IntegrationError::Script(m)),
                }
            },
        }
    }

    /// Capability probe: does the script define the diff transition hook?
    pub fn has_game_diff_transition(&self) -> (r: Result<bool, IntegrationError>) {
        match self.manifest.script_standard {
            IntegrationStandard::V1 => {
                match script_has_global(&self.lua, "v1_game_diff_transition") {
                    Ok(b) => Ok(b),
                    Err(m) => Err(IntegrationError::Script(m)),
                }
            },
        }
    }

    /// Run the diff transition hook.  Correct callers probe first and call
    /// only when the probe answered true.
    pub fn run_game_diff_transition(&self, transition_path: &str, edition: &str) -> (r: Result<
        (),
        IntegrationError,
    >) {
        match self.manifest.script_standard {
            IntegrationStandard::V1 => {
                match script_call(
                    &self.lua,
                    "v1_game_diff_transition",
                    args2(transition_path, edition),
                ) {
                    Ok(_) => Ok(()),
                    Err(m) => Err(IntegrationError::Script(m)),
                }
            },
        }
    }

    /// Capability probe: does the script define the post-transition hook?
    pub fn has_game_diff_post_transition(&self) -> (r: Result<bool, IntegrationError>) {
        match self.manifest.script_standard {
            IntegrationStandard::V1 => {
                match script_has_global(&self.lua, "v1_game_diff_post_transition") {
                    Ok(b) => Ok(b),
                    Err(m) => Err(IntegrationError::Script(m)),
                }
            },
        }
    }

    /// Run the post-transition hook.
    pub fn run_game_diff_post_transition(&self, path: &str, edition: &str) -> (r: Result<
        (),
        IntegrationError,
    >) {
        match self.manifest.script_standard {
            IntegrationStandard::V1 => {
                match script_call(&self.lua, "v1_game_diff_post_transition", args2(path, edition)) {
                    Ok(_) => Ok(()),
                    Err(m) => Err(IntegrationError::Script(m)),
                }
            },
        }
    }

    /// Capability probe: does the script define the addon transition hook?
    pub fn has_addons_diff_transition(&self) -> (r: Result<bool, IntegrationError>) {
        match self.manifest.script_standard {
            IntegrationStandard::V1 => {
                match script_has_global(&self.lua, "v1_addons_diff_transition") {
                    Ok(b) => Ok(b),
                    Err(m) => Err(IntegrationError::Script(m)),
                }
            },
        }
    }

    /// Run the addon diff transition hook.
    pub fn run_addons_diff_transition(
        &self,
        group_name: &str,
        addon_name: &str,
        transition_path: &str,
        edition: &str,
    ) -> (r: Result<(), IntegrationError>) {
        match self.manifest.script_standard {
            IntegrationStandard::V1 => {
                match script_call(
                    &self.lua,
                    "v1_addons_diff_transition",
                    args4(group_name, addon_name, transition_path, edition),
                ) {
                    Ok(_) => Ok(()),
                    Err(m) => Err(IntegrationError::Script(m)),
                }
            },
        }
    }

    /// Capability probe: does the script define the addon post-transition
    /// hook?
    pub fn has_addons_diff_post_transition(&self) -> (r: Result<bool, IntegrationError>) {
        match self.manifest.script_standard {
            IntegrationStandard::V1 => {
                match script_has_global(&self.lua, "v1_addons_diff_post_transition") {
                    Ok(b) => Ok(b),
                    Err(m) => Err(IntegrationError::Script(m)),
                }
            },
        }
    }

    /// Run the addon post-transition hook.
    pub fn run_addons_diff_post_transition(
        &self,
        group_name: &str,
        addon_name: &str,
        addon_path: &str,
        edition: &str,
    ) -> (r: Result<(), IntegrationError>) {
        match self.manifest.script_standard {
            IntegrationStandard::V1 => {
                match script_call(
                    &self.lua,
                    "v1_addons_diff_post_transition",
                    args4(group_name, addon_name, addon_path, edition),
                ) {
                    Ok(_) => Ok(()),
                    Err(m) => Err(IntegrationError::Script(m)),
                }
            },
        }
    }

    /// Capability probe: does the script define its own hasher?
    pub fn has_integrity_hash(&self) -> (r: Result<bool, IntegrationError>) {
        match self.manifest.script_standard {
            IntegrationStandard::V1 => {
                match script_has_global(&self.lua, "v1_integrity_hash") {
                    Ok(b) => Ok(b),
                    Err(m) => Err(IntegrationError::Script(m)),
                }
            },
        }
    }

    /// Digest `data` with the script's hasher under `algorithm`.  Correct
    /// callers probe `has_integrity_hash` first.
    pub fn integrity_hash(&self, algorithm: &str, data: &Vec<u8>) -> (r: Result<
        String,
        IntegrationError,
    >) {
        match self.manifest.script_standard {
            IntegrationStandard::V1 => {
                match script_call_bytes(&self.lua, "v1_integrity_hash", algorithm, data) {
                    Ok(v) => as_str_value(v),
                    Err(m) => Err(IntegrationError::Script(m)),
                }
            },
        }
    }
}

} // verus!

