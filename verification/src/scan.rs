//! The orchestration scan: which addons need attention, and which games
//! are installed.
//!
//! The scan walks every registered game, every edition, every addon group
//! and every addon, and decides "needs attention" = the addon is enabled
//! (required, or enabled in the settings) and either not installed or
//! installed but outdated.  Results form a set: no consumer may depend on
//! discovery order, and [`lemma_scan_set_independent`] proves the decision
//! honours that.  One failing script call fails the whole scan: errors
//! propagate, they are not dropped per game.

use vstd::prelude::*;
use vstd::seq_lib::group_to_multiset_ensures;

use crate::error::IntegrationError;
use crate::games::Registry;
use crate::integrations::Game;
use crate::settings::{EditionPaths, GameEditionAddon, GameSettings, lookup_game_settings};
use crate::standards::addons::{Addon, AddonsGroup};
use crate::standards::game::{DiffStatus, GameEdition};

verus! {

/// What identifies a game card to the shell: the game, its presentation,
/// and the edition the card stands for.
#[derive(Debug, PartialEq, Eq)]
pub struct CardInfo {
    pub name: String,
    pub title: String,
    pub developer: String,
    pub picture_uri: String,
    pub edition: String,
}

impl Clone for CardInfo {
    fn clone(&self) -> (res: Self)
        ensures
            res == self,
    {
        CardInfo {
            name: self.name.clone(),
            title: self.title.clone(),
            developer: self.developer.clone(),
            picture_uri: self.picture_uri.clone(),
            edition: self.edition.clone(),
        }
    }
}

/// One addon needing attention: the card it belongs to, the addon, and
/// its group.
#[derive(Debug, PartialEq, Eq)]
pub struct AddonsListEntry {
    pub game_info: CardInfo,
    pub addon: Addon,
    pub group: AddonsGroup,
}

/// An addon is enabled when the game requires it, or when the settings
/// list it under its group for the edition at hand.
pub open spec fn spec_is_addon_enabled(
    enabled_addons: Seq<GameEditionAddon>,
    addon: Addon,
    group: AddonsGroup,
) -> bool {
    addon.required || exists|i: int|
        0 <= i < enabled_addons.len() && (#[trigger] enabled_addons[i]).group@ == group.name@
            && enabled_addons[i].name@ == addon.name@
}

/// Whether the addon is enabled: required addons always are, whatever the
/// settings say; any other addon only when the settings name it.
pub fn is_addon_enabled(
    enabled_addons: &Vec<GameEditionAddon>,
    addon: &Addon,
    group: &AddonsGroup,
) -> (r: bool)
    ensures
        r == spec_is_addon_enabled(enabled_addons@, *addon, *group),
{
    if addon.required {
        return true;
    }
    for i in 0..enabled_addons.len()
        invariant
            forall|j: int|
                0 <= j < i ==> !((#[trigger] enabled_addons@[j]).group@ == group.name@
                    && enabled_addons@[j].name@ == addon.name@),
    {
        if enabled_addons[i].group == group.name && enabled_addons[i].name == addon.name {
            return true;
        }
    }
    false
}

/// The scan's decision for one addon: enabled, and either not installed
/// or installed but outdated.
pub fn addon_needs_attention(enabled: bool, installed: bool, outdated: bool) -> (r: bool)
    ensures
        r == (enabled && (!installed || outdated)),
{
    enabled && (installed == false || outdated)
}

/// Check one addon: decide whether it is enabled, and if so probe the
/// script for its install state and diff.  An enabled addon that is not
/// installed, or whose diff is outdated, yields an attention entry.
pub fn check_addon(
    game: &Game,
    game_info: &CardInfo,
    enabled_addons: &Vec<GameEditionAddon>,
    addon: &Addon,
    group: &AddonsGroup,
    paths: &EditionPaths,
) -> (r: Result<Option<AddonsListEntry>, IntegrationError>)
    ensures
        !spec_is_addon_enabled(enabled_addons@, *addon, *group) ==> r == Ok::<
            Option<AddonsListEntry>,
            IntegrationError,
        >(None),
        r matches Ok(Some(e)) ==> spec_is_addon_enabled(enabled_addons@, *addon, *group)
            && e.game_info == *game_info && e.addon == *addon && e.group.deep_view()
            == group.deep_view(),
{
    if is_addon_enabled(enabled_addons, addon, group) {
        let addon_path = addon.get_installation_path(
            group.name.as_str(),
            paths.game.as_str(),
            paths.addons.as_str(),
        );
        let installed = match game.is_addon_installed(
            group.name.as_str(),
            addon.name.as_str(),
            addon_path.as_str(),
            game_info.edition.as_str(),
        ) {
            Ok(b) => b,
            Err(e) => { return Err(e); },
        };
        let outdated: bool = if installed {
            let diff = match game.get_addon_diff(
                group.name.as_str(),
                addon.name.as_str(),
                addon_path.as_str(),
                game_info.edition.as_str(),
            ) {
                Ok(d) => d,
                Err(e) => { return Err(e); },
            };
            match &diff {
                Some(d) => matches!(d.status, DiffStatus::Outdated),
                None => false,
            }
        } else {
            false
        };
        if addon_needs_attention(true, installed, outdated) {
            Ok(
                Some(
                    AddonsListEntry {
                        game_info: game_info.clone(),
                        addon: addon.clone(),
                        group: group.clone(),
                    },
                ),
            )
        } else {
            Ok(None)
        }
    } else {
        Ok(None)
    }
}

/// The facts the scan gathered about one addon, whatever order the tasks
/// completed in.
pub struct AddonCheck {
    pub entry: AddonsListEntry,
    pub enabled: bool,
    pub installed: bool,
    pub outdated: bool,
}

/// The scan's decision over gathered facts.
pub open spec fn spec_needs_attention(c: AddonCheck) -> bool {
    c.enabled && (!c.installed || c.outdated)
}

/// The entries the scan reports for a sequence of gathered facts, in
/// order: exactly those needing attention.
pub open spec fn spec_select(facts: Seq<AddonCheck>) -> Seq<AddonsListEntry>
    decreases facts.len(),
{
    if facts.len() == 0 {
        Seq::empty()
    } else if spec_needs_attention(facts[0]) {
        seq![facts[0].entry] + spec_select(facts.skip(1))
    } else {
        spec_select(facts.skip(1))
    }
}

/// Prepending one element inserts it into the multiset.
proof fn lemma_cons_to_multiset<T>(e: T, s: Seq<T>)
    ensures
        (seq![e] + s).to_multiset() =~= s.to_multiset().insert(e),
{
    broadcast use group_to_multiset_ensures;

    let c = seq![e] + s;
    assert(c.remove(0) =~= s);
    assert(c[0] == e);
    assert(c.remove(0).to_multiset() =~= c.to_multiset().remove(c[0]));
    assert(c.contains(e));
    assert(c.to_multiset().count(e) > 0);
    assert forall|x: T| c.to_multiset().count(x) == s.to_multiset().insert(e).count(x) by {
        assert(s.to_multiset().count(x) == c.to_multiset().remove(e).count(x));
    }
}

/// Removing position `j` removes one copy of the selected entry when the
/// fact there needs attention, and nothing otherwise.
proof fn lemma_select_remove(facts: Seq<AddonCheck>, j: int)
    requires
        0 <= j < facts.len(),
    ensures
        spec_select(facts).to_multiset() =~= if spec_needs_attention(facts[j]) {
            spec_select(facts.remove(j)).to_multiset().insert(facts[j].entry)
        } else {
            spec_select(facts.remove(j)).to_multiset()
        },
    decreases j,
{
    broadcast use group_to_multiset_ensures;

    if j == 0 {
        assert(facts.remove(0) =~= facts.skip(1));
        if spec_needs_attention(facts[0]) {
            lemma_cons_to_multiset(facts[0].entry, spec_select(facts.skip(1)));
        }
    } else {
        lemma_select_remove(facts.skip(1), j - 1);
        assert(facts.remove(j).skip(1) =~= facts.skip(1).remove(j - 1));
        assert(facts.remove(j)[0] == facts[0]);
        assert(facts.skip(1)[j - 1] == facts[j]);
        if spec_needs_attention(facts[0]) {
            lemma_cons_to_multiset(facts[0].entry, spec_select(facts.skip(1)));
            lemma_cons_to_multiset(facts[0].entry, spec_select(facts.remove(j).skip(1)));
            assert(spec_select(facts) =~= seq![facts[0].entry] + spec_select(facts.skip(1)));
            assert(spec_select(facts.remove(j)) =~= seq![facts[0].entry] + spec_select(
                facts.remove(j).skip(1),
            ));
        } else {
            assert(spec_select(facts) =~= spec_select(facts.skip(1)));
            assert(spec_select(facts.remove(j)) =~= spec_select(facts.remove(j).skip(1)));
        }
    }
}

/// Law: the scan's result is a set.  Two gatherings of the same facts —
/// however task completion interleaved them — select the same multiset of
/// attention entries.
pub proof fn lemma_scan_set_independent(f1: Seq<AddonCheck>, f2: Seq<AddonCheck>)
    requires
        f1.to_multiset() == f2.to_multiset(),
    ensures
        spec_select(f1).to_multiset() == spec_select(f2).to_multiset(),
    decreases f1.len(),
{
    broadcast use group_to_multiset_ensures;

    if f1.len() == 0 {
        assert(f2.to_multiset().len() == 0);
        assert(f2.len() == 0);
    } else {
        let x = f1[0];
        assert(f1.contains(x));
        assert(f1.to_multiset().count(x) > 0);
        assert(f2.to_multiset().count(x) > 0);
        assert(f2.contains(x));
        let j = choose|j: int| 0 <= j < f2.len() && f2[j] == x;
        assert(f1.remove(0) =~= f1.skip(1));
        assert(f1.remove(0).to_multiset() =~= f1.to_multiset().remove(x));
        assert(f2.remove(j).to_multiset() =~= f2.to_multiset().remove(x));
        lemma_scan_set_independent(f1.skip(1), f2.remove(j));
        lemma_select_remove(f1, 0);
        lemma_select_remove(f2, j);
    }
}

/// The settings list an addon for the entry's own game and edition, under
/// the entry's group, by the entry's addon name.
pub open spec fn spec_entry_enabled_in_settings(
    settings: Seq<(String, GameSettings)>,
    e: AddonsListEntry,
) -> bool {
    exists|gi: int|
        0 <= gi < settings.len() && (#[trigger] settings[gi]).0@ == e.game_info.name@ && exists|
            ei: int,
        |
            0 <= ei < settings[gi].1.addons@.len() && (#[trigger] settings[gi].1.addons@[ei]).edition@
                == e.game_info.edition@ && exists|ai: int|
                0 <= ai < settings[gi].1.addons@[ei].enabled@.len() && (
                #[trigger] settings[gi].1.addons@[ei].enabled@[ai]).group@ == e.group.name@
                    && settings[gi].1.addons@[ei].enabled@[ai].name@ == e.addon.name@
}

/// One attention entry as built from one registered game: the entry's
/// card matches the game's registry name and manifest identity, its
/// edition is named by the game's cached edition listing, its artwork is
/// the game's cached card, and its group lies in the game's cached addons
/// listing for that edition, with the addon inside the group.
pub open spec fn spec_entry_at(name: String, g: Game, e: AddonsListEntry) -> bool {
    &&& name@ == e.game_info.name@
    &&& g.spec_manifest().game_title@ == e.game_info.title@
    &&& g.spec_manifest().game_developer@ == e.game_info.developer@
    &&& g.editions().contains_key(g.spec_manifest().game_name@)
    &&& ({
        let listing = g.editions()[g.spec_manifest().game_name@]@;
        exists|ei: int|
            0 <= ei < listing.len() && (#[trigger] listing[ei]).name@ == e.game_info.edition@
    })
    &&& g.cards().contains_key(g.cache_key(e.game_info.edition@))
    &&& g.cards()[g.cache_key(e.game_info.edition@)]@ == e.game_info.picture_uri@
    &&& g.addons().contains_key(g.cache_key(e.game_info.edition@))
    &&& exists|x: int|
        0 <= x < g.addons()[g.cache_key(e.game_info.edition@)].deep_view().len() && (
        #[trigger] g.addons()[g.cache_key(e.game_info.edition@)].deep_view()[x]) == e.group.deep_view()
    &&& exists|a: int|
        0 <= a < e.group.deep_view().addons.len() && (#[trigger] e.group.deep_view().addons[a])
            == e.addon.deep_view()
}

/// The entry was built from one of the first `upto` registered games.
pub open spec fn spec_entry_in_registry(reg: Registry, upto: int, e: AddonsListEntry) -> bool {
    exists|gj: int|
        0 <= gj < upto && spec_entry_at(
            (#[trigger] reg.entries()[gj]).0,
            reg.entries()[gj].1,
            e,
        )
}

/// An entry among the first games is among any longer prefix of them.
proof fn lemma_entry_in_registry_widen(reg: Registry, upto1: int, upto2: int, e: AddonsListEntry)
    requires
        spec_entry_in_registry(reg, upto1, e),
        upto1 <= upto2,
    ensures
        spec_entry_in_registry(reg, upto2, e),
{
    let gj = choose|gj: int|
        0 <= gj < upto1 && spec_entry_at((#[trigger] reg.entries()[gj]).0, reg.entries()[gj].1, e);
    assert(0 <= gj < upto2 && spec_entry_at(reg.entries()[gj].0, reg.entries()[gj].1, e));
}

/// An entry stays in the registry across one step that touches only the
/// game at `gi`, keeps that game's identity and edition listing, and only
/// grows its card and addons caches without rewriting a held binding.
proof fn lemma_entry_in_registry_step(
    reg0: Registry,
    reg1: Registry,
    gi: int,
    upto: int,
    e: AddonsListEntry,
)
    requires
        spec_entry_in_registry(reg0, upto, e),
        0 <= gi < reg0.entries().len(),
        upto <= reg0.entries().len(),
        reg1.entries().len() == reg0.entries().len(),
        forall|j: int|
            0 <= j < reg0.entries().len() && j != gi ==> reg1.entries()[j] == #[trigger] reg0.entries()[j],
        reg1.entries()[gi].0 == reg0.entries()[gi].0,
        reg1.entries()[gi].1.same_identity(reg0.entries()[gi].1),
        reg1.entries()[gi].1.editions() == reg0.entries()[gi].1.editions(),
        forall|k2: Seq<char>|
            reg0.entries()[gi].1.cards().contains_key(k2) ==> #[trigger] reg1.entries()[gi].1.cards().contains_key(
                k2,
            ) && reg1.entries()[gi].1.cards()[k2] == reg0.entries()[gi].1.cards()[k2],
        forall|k2: Seq<char>|
            reg0.entries()[gi].1.addons().contains_key(k2) ==> #[trigger] reg1.entries()[gi].1.addons().contains_key(
                k2,
            ) && reg1.entries()[gi].1.addons()[k2] == reg0.entries()[gi].1.addons()[k2],
    ensures
        spec_entry_in_registry(reg1, upto, e),
{
    let gj = choose|gj: int|
        0 <= gj < upto && spec_entry_at((#[trigger] reg0.entries()[gj]).0, reg0.entries()[gj].1, e);
    if gj != gi {
        assert(reg1.entries()[gj] == reg0.entries()[gj]);
        assert(spec_entry_at(reg1.entries()[gj].0, reg1.entries()[gj].1, e));
    } else {
        let g0 = reg0.entries()[gi].1;
        let g1 = reg1.entries()[gi].1;
        Game::lemma_same_identity(g1, g0);
        assert(spec_entry_at(reg1.entries()[gi].0, g1, e));
    }
}

/// No registered game has an entry in the settings.
pub open spec fn spec_no_game_settings(
    games: Seq<(String, Game)>,
    settings: Seq<(String, GameSettings)>,
) -> bool {
    forall|k: int, j: int|
        0 <= k < games.len() && 0 <= j < settings.len() ==> (#[trigger] settings[j]).0@ != (
        #[trigger] games[k]).0@
}

/// Scan every registered game: for each edition with configured settings,
/// list its addon groups and check every addon.  Only addons needing
/// attention are returned, and every one of them is enabled: required, or
/// listed by the settings.  A game or edition without settings is
/// skipped — an empty registry, or settings naming no registered game,
/// yield the empty result without a single script call.  A failing
/// script call fails the whole scan.
pub fn check_addons(registry: &mut Registry, settings: &Vec<(String, GameSettings)>) -> (r: Result<
    Vec<AddonsListEntry>,
    IntegrationError,
>)
    requires
        old(registry).wf(),
    ensures
        final(registry).wf(),
        r matches Ok(entries) ==> forall|k: int|
            0 <= k < entries@.len() ==> (#[trigger] entries@[k]).addon.required
                || spec_entry_enabled_in_settings(settings@, entries@[k]),
        r matches Ok(entries) ==> forall|k: int|
            0 <= k < entries@.len() ==> spec_entry_in_registry(
                *final(registry),
                final(registry).entries().len() as int,
                #[trigger] entries@[k],
            ),
        old(registry).entries().len() == 0 ==> (r matches Ok(entries) && entries@.len() == 0),
        spec_no_game_settings(old(registry).entries(), settings@) ==> (r matches Ok(entries)
            && entries@.len() == 0 && *final(registry) == *old(registry)),
{
    let mut entries: Vec<AddonsListEntry> = Vec::new();
    let n = registry.len();
    let mut gi: usize = 0;
    while gi < n
        invariant
            registry.wf(),
            n == registry.entries().len(),
            gi <= n,
            forall|k: int|
                0 <= k < entries@.len() ==> (#[trigger] entries@[k]).addon.required
                    || spec_entry_enabled_in_settings(settings@, entries@[k]),
            forall|k: int|
                0 <= k < entries@.len() ==> spec_entry_in_registry(
                    *registry,
                    gi as int,
                    #[trigger] entries@[k],
                ),
            spec_no_game_settings(old(registry).entries(), settings@) ==> (*registry == *old(
                registry,
            ) && entries@.len() == 0),
        decreases n - gi,
    {
        let game_name = registry.name_at(gi).clone();
        match lookup_game_settings(settings, &game_name) {
            Some(gs) => {
                let ghost gs_at = choose|j: int|
                    0 <= j < settings@.len() && (#[trigger] settings@[j]).0@ == game_name@ && *gs
                        == settings@[j].1;
                proof {
                    if spec_no_game_settings(old(registry).entries(), settings@) {
                        assert((#[trigger] settings@[gs_at]).0@ == game_name@);
                        assert(game_name@ == (#[trigger] old(registry).entries()[gi as int]).0@);
                        assert(false);
                    }
                }
                let ghost reg0 = *registry;
                let editions = match registry.game_at_mut(gi).get_game_editions_list() {
                    Ok(es) => es,
                    Err(e) => { return Err(e); },
                };
                let game_title = registry.game_at(gi).manifest().game_title.clone();
                let game_developer = registry.game_at(gi).manifest().game_developer.clone();
                proof {
                    Game::lemma_same_identity(
                        registry.entries()[gi as int].1,
                        reg0.entries()[gi as int].1,
                    );
                    assert forall|k: int| 0 <= k < entries@.len() implies spec_entry_in_registry(
                        *registry,
                        gi as int + 1,
                        #[trigger] entries@[k],
                    ) by {
                        let gj = choose|gj: int|
                            0 <= gj < gi && spec_entry_at(
                                (#[trigger] reg0.entries()[gj]).0,
                                reg0.entries()[gj].1,
                                entries@[k],
                            );
                        assert(registry.entries()[gj] == reg0.entries()[gj]);
                        assert(spec_entry_at(
                            registry.entries()[gj].0,
                            registry.entries()[gj].1,
                            entries@[k],
                        ));
                    }
                }
                for ei in 0..editions.len()
                    invariant
                        registry.wf(),
                        n == registry.entries().len(),
                        gi < n,
                        0 <= gs_at < settings@.len(),
                        settings@[gs_at].0@ == game_name@,
                        *gs == settings@[gs_at].1,
                        !spec_no_game_settings(old(registry).entries(), settings@),
                        ({
                            let gm = registry.entries()[gi as int].1;
                            &&& registry.entries()[gi as int].0@ == game_name@
                            &&& gm.spec_manifest().game_title@ == game_title@
                            &&& gm.spec_manifest().game_developer@ == game_developer@
                            &&& gm.editions().contains_key(gm.spec_manifest().game_name@)
                            &&& gm.editions()[gm.spec_manifest().game_name@]@ == editions@
                        }),
                        forall|k: int|
                            0 <= k < entries@.len() ==> (#[trigger] entries@[k]).addon.required
                                || spec_entry_enabled_in_settings(settings@, entries@[k]),
                        forall|k: int|
                            0 <= k < entries@.len() ==> spec_entry_in_registry(
                                *registry,
                                gi as int + 1,
                                #[trigger] entries@[k],
                            ),
                {
                    let edition_name = editions[ei].name.clone();
                    match (gs.get_enabled_addons(&edition_name), gs.get_paths(&edition_name)) {
                        (Some(enabled), Some(paths)) => {
                            let ghost en_at = choose|j: int|
                                0 <= j < gs.addons@.len() && (#[trigger] gs.addons@[j]).edition@
                                    == edition_name@ && *enabled == gs.addons@[j].enabled;
                            let ghost reg_c = *registry;
                            let card = match registry.game_at_mut(gi).get_card_picture(
                                edition_name.as_str(),
                            ) {
                                Ok(c) => c,
                                Err(e) => { return Err(e); },
                            };
                            proof {
                                let g0 = reg_c.entries()[gi as int].1;
                                let g1 = registry.entries()[gi as int].1;
                                Game::lemma_same_identity(g1, g0);
                                assert forall|k2: Seq<char>|
                                    g0.cards().contains_key(k2) implies #[trigger] g1.cards().contains_key(
                                    k2,
                                ) && g1.cards()[k2] == g0.cards()[k2] by {
                                    if !g0.cards().contains_key(g0.cache_key(edition_name@)) {
                                        assert(k2 != g0.cache_key(edition_name@));
                                    }
                                }
                                assert forall|k: int|
                                    0 <= k < entries@.len() implies spec_entry_in_registry(
                                    *registry,
                                    gi as int + 1,
                                    #[trigger] entries@[k],
                                ) by {
                                    lemma_entry_in_registry_step(
                                        reg_c,
                                        *registry,
                                        gi as int,
                                        gi as int + 1,
                                        entries@[k],
                                    );
                                }
                                assert(g1.cards().contains_key(g1.cache_key(edition_name@)));
                                assert(g1.cards()[g1.cache_key(edition_name@)]@ == card@);
                            }
                            let game_info = CardInfo {
                                name: game_name.clone(),
                                title: game_title.clone(),
                                developer: game_developer.clone(),
                                picture_uri: card,
                                edition: edition_name.clone(),
                            };
                            let ghost reg_a = *registry;
                            let groups = match registry.game_at_mut(gi).get_addons_list(
                                edition_name.as_str(),
                            ) {
                                Ok(g) => g,
                                Err(e) => { return Err(e); },
                            };
                            proof {
                                let g0 = reg_a.entries()[gi as int].1;
                                let g1 = registry.entries()[gi as int].1;
                                Game::lemma_same_identity(g1, g0);
                                assert forall|k2: Seq<char>|
                                    g0.addons().contains_key(k2) implies #[trigger] g1.addons().contains_key(
                                    k2,
                                ) && g1.addons()[k2] == g0.addons()[k2] by {
                                    if !g0.addons().contains_key(g0.cache_key(edition_name@)) {
                                        assert(k2 != g0.cache_key(edition_name@));
                                    }
                                }
                                assert forall|k: int|
                                    0 <= k < entries@.len() implies spec_entry_in_registry(
                                    *registry,
                                    gi as int + 1,
                                    #[trigger] entries@[k],
                                ) by {
                                    lemma_entry_in_registry_step(
                                        reg_a,
                                        *registry,
                                        gi as int,
                                        gi as int + 1,
                                        entries@[k],
                                    );
                                }
                                assert(g1.addons().contains_key(g1.cache_key(edition_name@)));
                                assert(g1.addons()[g1.cache_key(edition_name@)].deep_view()
                                    == groups.deep_view());
                            }
                            for g in 0..groups.len()
                                invariant
                                    registry.wf(),
                                    n == registry.entries().len(),
                                    gi < n,
                                    0 <= gs_at < settings@.len(),
                                    settings@[gs_at].0@ == game_name@,
                                    *gs == settings@[gs_at].1,
                                    !spec_no_game_settings(old(registry).entries(), settings@),
                                    0 <= en_at < gs.addons@.len(),
                                    gs.addons@[en_at].edition@ == edition_name@,
                                    *enabled == gs.addons@[en_at].enabled,
                                    game_info.name@ == game_name@,
                                    game_info.edition@ == edition_name@,
                                    game_info.title@ == game_title@,
                                    game_info.developer@ == game_developer@,
                                    ({
                                        let gm = registry.entries()[gi as int].1;
                                        &&& registry.entries()[gi as int].0@ == game_name@
                                        &&& gm.spec_manifest().game_title@ == game_title@
                                        &&& gm.spec_manifest().game_developer@ == game_developer@
                                        &&& gm.editions().contains_key(gm.spec_manifest().game_name@)
                                        &&& gm.editions()[gm.spec_manifest().game_name@]@ == editions@
                                        &&& gm.cards().contains_key(gm.cache_key(edition_name@))
                                        &&& gm.cards()[gm.cache_key(edition_name@)]@
                                            == game_info.picture_uri@
                                        &&& gm.addons().contains_key(gm.cache_key(edition_name@))
                                        &&& gm.addons()[gm.cache_key(edition_name@)].deep_view()
                                            == groups.deep_view()
                                    }),
                                    ei < editions@.len(),
                                    editions@[ei as int].name@ == edition_name@,
                                    forall|k: int|
                                        0 <= k < entries@.len() ==> (
                                        #[trigger] entries@[k]).addon.required
                                            || spec_entry_enabled_in_settings(
                                            settings@,
                                            entries@[k],
                                        ),
                                    forall|k: int|
                                        0 <= k < entries@.len() ==> spec_entry_in_registry(
                                            *registry,
                                            gi as int + 1,
                                            #[trigger] entries@[k],
                                        ),
                            {
                                let addon_count = groups[g].addons.len();
                                for a in 0..addon_count
                                    invariant
                                        registry.wf(),
                                        n == registry.entries().len(),
                                        gi < n,
                                        g < groups@.len(),
                                        addon_count == groups@[g as int].addons@.len(),
                                        0 <= gs_at < settings@.len(),
                                        !spec_no_game_settings(old(registry).entries(), settings@),
                                        settings@[gs_at].0@ == game_name@,
                                        *gs == settings@[gs_at].1,
                                        0 <= en_at < gs.addons@.len(),
                                        gs.addons@[en_at].edition@ == edition_name@,
                                        *enabled == gs.addons@[en_at].enabled,
                                        game_info.name@ == game_name@,
                                        game_info.edition@ == edition_name@,
                                        game_info.title@ == game_title@,
                                        game_info.developer@ == game_developer@,
                                        ({
                                            let gm = registry.entries()[gi as int].1;
                                            &&& registry.entries()[gi as int].0@ == game_name@
                                            &&& gm.spec_manifest().game_title@ == game_title@
                                            &&& gm.spec_manifest().game_developer@
                                                == game_developer@
                                            &&& gm.editions().contains_key(
                                                gm.spec_manifest().game_name@,
                                            )
                                            &&& gm.editions()[gm.spec_manifest().game_name@]@
                                                == editions@
                                            &&& gm.cards().contains_key(gm.cache_key(edition_name@))
                                            &&& gm.cards()[gm.cache_key(edition_name@)]@
                                                == game_info.picture_uri@
                                            &&& gm.addons().contains_key(
                                                gm.cache_key(edition_name@),
                                            )
                                            &&& gm.addons()[gm.cache_key(edition_name@)].deep_view()
                                                == groups.deep_view()
                                        }),
                                        ei < editions@.len(),
                                        editions@[ei as int].name@ == edition_name@,
                                        forall|k: int|
                                            0 <= k < entries@.len() ==> (
                                            #[trigger] entries@[k]).addon.required
                                                || spec_entry_enabled_in_settings(
                                                settings@,
                                                entries@[k],
                                            ),
                                        forall|k: int|
                                            0 <= k < entries@.len() ==> spec_entry_in_registry(
                                                *registry,
                                                gi as int + 1,
                                                #[trigger] entries@[k],
                                            ),
                                {
                                    let found = check_addon(
                                        registry.game_at(gi),
                                        &game_info,
                                        enabled,
                                        &groups[g].addons[a],
                                        &groups[g],
                                        paths,
                                    );
                                    match found {
                                        Ok(Some(entry)) => {
                                            proof {
                                                if !entry.addon.required {
                                                    let target = groups@[g as int];
                                                    let ai = choose|i: int|
                                                        0 <= i < enabled@.len() && (
                                                        #[trigger] enabled@[i]).group@
                                                            == target.name@ && enabled@[i].name@
                                                            == target.addons@[a as int].name@;
                                                    assert(entry.group.name@ == target.name@);
                                                    assert(settings@[gs_at].1.addons@[en_at].enabled@[ai].group@
                                                        == entry.group.name@);
                                                    assert(spec_entry_enabled_in_settings(
                                                        settings@,
                                                        entry,
                                                    ));
                                                }
                                                let gm = registry.entries()[gi as int].1;
                                                assert(groups.deep_view()[g as int] == groups@[
                                                    g as int].deep_view());
                                                assert(entry.group.deep_view() == groups@[
                                                    g as int].deep_view());
                                                assert(groups@[g as int].addons.deep_view()[
                                                    a as int] == groups@[g as int].addons@[
                                                    a as int].deep_view());
                                                assert(entry.addon.deep_view() == groups@[
                                                    g as int].addons@[a as int].deep_view());
                                                assert(entry.group.deep_view().addons[a as int]
                                                    == entry.addon.deep_view());
                                                assert(spec_entry_at(
                                                    registry.entries()[gi as int].0,
                                                    gm,
                                                    entry,
                                                ));
                                                assert(spec_entry_in_registry(
                                                    *registry,
                                                    gi as int + 1,
                                                    entry,
                                                ));
                                            }
                                            entries.push(entry);
                                        },
                                        Ok(None) => {},
                                        Err(e) => { return Err(e); },
                                    }
                                }
                            }
                        },
                        _ => {},
                    }
                }
            },
            None => {},
        }
        proof {
            assert forall|k: int| 0 <= k < entries@.len() implies spec_entry_in_registry(
                *registry,
                gi as int + 1,
                #[trigger] entries@[k],
            ) by {
                if spec_entry_in_registry(*registry, gi as int, entries@[k]) {
                    lemma_entry_in_registry_widen(
                        *registry,
                        gi as int,
                        gi as int + 1,
                        entries@[k],
                    );
                }
            }
        }
        gi = gi + 1;
    }
    Ok(entries)
}

/// One row of the games list: the game's identity, one edition, and the
/// card artwork for it.
#[derive(Debug, PartialEq, Eq)]
pub struct GameListEntry {
    pub game_name: String,
    pub game_title: String,
    pub game_developer: String,
    pub edition: GameEdition,
    pub card_picture: String,
}

impl Clone for GameListEntry {
    fn clone(&self) -> (res: Self)
        ensures
            res == self,
    {
        GameListEntry {
            game_name: self.game_name.clone(),
            game_title: self.game_title.clone(),
            game_developer: self.game_developer.clone(),
            edition: self.edition.clone(),
            card_picture: self.card_picture.clone(),
        }
    }
}

/// Every game edition, split into the installed and the available.
#[derive(Debug, PartialEq, Eq)]
pub struct GamesList {
    pub installed: Vec<GameListEntry>,
    pub available: Vec<GameListEntry>,
}

/// The entries carrying the given flag, in order.
pub open spec fn spec_flagged(s: Seq<(bool, GameListEntry)>, flag: bool) -> Seq<GameListEntry>
    decreases s.len(),
{
    if s.len() == 0 {
        Seq::empty()
    } else if s[0].0 == flag {
        seq![s[0].1] + spec_flagged(s.skip(1), flag)
    } else {
        spec_flagged(s.skip(1), flag)
    }
}

/// Appending an entry extends exactly the side its flag selects.
proof fn lemma_flagged_snoc(s: Seq<(bool, GameListEntry)>, x: (bool, GameListEntry), flag: bool)
    ensures
        spec_flagged(s.push(x), flag) =~= if x.0 == flag {
            spec_flagged(s, flag).push(x.1)
        } else {
            spec_flagged(s, flag)
        },
    decreases s.len(),
{
    if s.len() == 0 {
        assert(s.push(x).skip(1) =~= Seq::<(bool, GameListEntry)>::empty());
        assert(s.push(x)[0] == x);
        assert(spec_flagged(Seq::<(bool, GameListEntry)>::empty(), flag) == Seq::<
            GameListEntry,
        >::empty());
        if x.0 == flag {
            assert(spec_flagged(s.push(x), flag) =~= seq![x.1]);
            assert(spec_flagged(s, flag).push(x.1) =~= seq![x.1]);
        }
    } else {
        lemma_flagged_snoc(s.skip(1), x, flag);
        assert(s.push(x).skip(1) =~= s.skip(1).push(x));
        assert(s.push(x)[0] == s[0]);
        if s[0].0 == flag {
            if x.0 == flag {
                assert(spec_flagged(s.push(x), flag) =~= seq![s[0].1] + spec_flagged(
                    s.skip(1),
                    flag,
                ).push(x.1));
                assert(spec_flagged(s, flag).push(x.1) =~= (seq![s[0].1] + spec_flagged(
                    s.skip(1),
                    flag,
                )).push(x.1));
            }
        }
    }
}

/// Split flagged entries: the installed on one side, the available on the
/// other, each keeping its order.
pub fn partition_entries(entries: Vec<(bool, GameListEntry)>) -> (r: GamesList)
    ensures
        r.installed@ == spec_flagged(entries@, true),
        r.available@ == spec_flagged(entries@, false),
{
    let mut installed: Vec<GameListEntry> = Vec::new();
    let mut available: Vec<GameListEntry> = Vec::new();
    let n = entries.len();
    let mut entries = entries;
    let ghost all = entries@;
    // Walk front to back by index, moving each entry out once.
    let mut i: usize = 0;
    while i < n
        invariant
            n == all.len(),
            entries@ == all,
            i <= n,
            installed@ =~= spec_flagged(all.take(i as int), true),
            available@ =~= spec_flagged(all.take(i as int), false),
        decreases n - i,
    {
        let flagged = entries[i].0;
        let entry = entries[i].1.clone();
        proof {
            lemma_flagged_snoc(all.take(i as int), all[i as int], true);
            lemma_flagged_snoc(all.take(i as int), all[i as int], false);
            assert(all.take(i as int).push(all[i as int]) =~= all.take(i + 1));
        }
        if flagged {
            installed.push(entry);
        } else {
            available.push(entry);
        }
        i = i + 1;
    }
    proof {
        assert(all.take(n as int) =~= all);
    }
    GamesList { installed, available }
}

/// Build the registry once from the loaded games.
pub fn init_games(games: Vec<(String, Game)>) -> (r: Registry)
    requires
        forall|i: int| 0 <= i < games@.len() ==> (#[trigger] games@[i]).1.wf(),
    ensures
        r.wf(),
        r.model() =~= crate::cache::cache_model(games@),
{
    Registry::init(games)
}

/// One games-list row as built from one registered game: it copies the
/// manifest identity, names an edition that game's cached edition listing
/// holds, and carries the card artwork the game's cache holds for that
/// edition.
pub open spec fn spec_row_from_game(g: Game, row: GameListEntry) -> bool {
    &&& row.game_name@ == g.spec_manifest().game_name@
    &&& row.game_title@ == g.spec_manifest().game_title@
    &&& row.game_developer@ == g.spec_manifest().game_developer@
    &&& g.editions().contains_key(g.spec_manifest().game_name@)
    &&& g.editions()[g.spec_manifest().game_name@]@.contains(row.edition)
    &&& g.cards().contains_key(g.cache_key(row.edition.name@))
    &&& g.cards()[g.cache_key(row.edition.name@)]@ == row.card_picture@
}

/// The rows for one game: one entry per edition with configured paths,
/// flagged by whether that edition is installed.  Every row copies the
/// game's manifest identity and carries a cached edition and its cached
/// card; the registry's other entries are untouched.
fn get_game_entries(registry: &mut Registry, gi: usize, settings: &GameSettings) -> (r: Result<
    Vec<(bool, GameListEntry)>,
    IntegrationError,
>)
    requires
        old(registry).wf(),
        gi < old(registry).entries().len(),
    ensures
        final(registry).wf(),
        final(registry).entries().len() == old(registry).entries().len(),
        forall|j: int|
            0 <= j < old(registry).entries().len() && j != gi ==> final(registry).entries()[j]
                == #[trigger] old(registry).entries()[j],
        r matches Ok(rows) ==> forall|k: int|
            0 <= k < rows@.len() ==> spec_row_from_game(
                final(registry).entries()[gi as int].1,
                (#[trigger] rows@[k]).1,
            ),
{
    let mut out: Vec<(bool, GameListEntry)> = Vec::new();
    let n = registry.len();
    let game_name = registry.game_at(gi).manifest().game_name.clone();
    let game_title = registry.game_at(gi).manifest().game_title.clone();
    let game_developer = registry.game_at(gi).manifest().game_developer.clone();
    let ghost g_start = registry.entries()[gi as int].1;
    let editions = match registry.game_at_mut(gi).get_game_editions_list() {
        Ok(es) => es,
        Err(e) => { return Err(e); },
    };
    proof {
        Game::lemma_same_identity(registry.entries()[gi as int].1, g_start);
    }
    for ei in 0..editions.len()
        invariant
            registry.wf(),
            n == registry.entries().len(),
            n == old(registry).entries().len(),
            gi < n,
            forall|j: int|
                0 <= j < n && j != gi ==> registry.entries()[j] == #[trigger] old(
                    registry,
                ).entries()[j],
            ({
                let g = registry.entries()[gi as int].1;
                &&& g.spec_manifest().game_name@ == game_name@
                &&& g.spec_manifest().game_title@ == game_title@
                &&& g.spec_manifest().game_developer@ == game_developer@
                &&& g.editions().contains_key(g.spec_manifest().game_name@)
                &&& g.editions()[g.spec_manifest().game_name@]@ == editions@
            }),
            forall|k: int|
                0 <= k < out@.len() ==> spec_row_from_game(
                    registry.entries()[gi as int].1,
                    (#[trigger] out@[k]).1,
                ),
    {
        let edition = &editions[ei];
        match settings.get_paths(&edition.name) {
            Some(paths) => {
                let ghost g0 = registry.entries()[gi as int].1;
                let card_picture = match registry.game_at_mut(gi).get_card_picture(
                    edition.name.as_str(),
                ) {
                    Ok(c) => c,
                    Err(e) => { return Err(e); },
                };
                proof {
                    let g1 = registry.entries()[gi as int].1;
                    Game::lemma_same_identity(g1, g0);
                    assert forall|k: int| 0 <= k < out@.len() implies spec_row_from_game(
                        g1,
                        (#[trigger] out@[k]).1,
                    ) by {
                        let row = out@[k].1;
                        assert(spec_row_from_game(g0, row));
                        assert(g1.cache_key(row.edition.name@) == g0.cache_key(row.edition.name@));
                        if g0.cache_key(row.edition.name@) == g0.cache_key(edition.name@) {
                            assert(g0.cards().contains_key(g0.cache_key(edition.name@)));
                        }
                    }
                }
                let installed = match registry.game_at(gi).is_game_installed(
                    paths.game.as_str(),
                    edition.name.as_str(),
                ) {
                    Ok(b) => b,
                    Err(e) => { return Err(e); },
                };
                out.push(
                    (
                        installed,
                        GameListEntry {
                            game_name: game_name.clone(),
                            game_title: game_title.clone(),
                            game_developer: game_developer.clone(),
                            edition: edition.clone(),
                            card_picture,
                        },
                    ),
                );
            },
            None => {},
        }
    }
    Ok(out)
}

/// Every entry of a flagged filter is the row of some input pair.
proof fn lemma_flagged_membership(s: Seq<(bool, GameListEntry)>, flag: bool)
    ensures
        forall|k: int|
            0 <= k < spec_flagged(s, flag).len() ==> exists|i: int|
                0 <= i < s.len() && (#[trigger] spec_flagged(s, flag)[k]) == s[i].1,
    decreases s.len(),
{
    if s.len() > 0 {
        lemma_flagged_membership(s.skip(1), flag);
        assert forall|k: int| 0 <= k < spec_flagged(s, flag).len() implies exists|i: int|
            0 <= i < s.len() && (#[trigger] spec_flagged(s, flag)[k]) == s[i].1 by {
            if s[0].0 == flag && k == 0 {
                assert(spec_flagged(s, flag)[0] == s[0].1);
            } else {
                let kk: int = if s[0].0 == flag {
                    k - 1
                } else {
                    k
                };
                assert(spec_flagged(s, flag)[k] == spec_flagged(s.skip(1), flag)[kk]);
                let i = choose|i: int|
                    0 <= i < s.skip(1).len() && (#[trigger] spec_flagged(s.skip(1), flag)[kk])
                        == s.skip(1)[i].1;
                assert(s.skip(1)[i] == s[i + 1]);
            }
        }
    }
}

/// The row was built from one of the first `upto` registered games.
pub open spec fn spec_row_in_registry(reg: Registry, upto: int, row: GameListEntry) -> bool {
    exists|gj: int| 0 <= gj < upto && spec_row_from_game((#[trigger] reg.entries()[gj]).1, row)
}

/// A row among the first games is among any longer prefix of them.
proof fn lemma_row_in_registry_widen(reg: Registry, upto1: int, upto2: int, row: GameListEntry)
    requires
        spec_row_in_registry(reg, upto1, row),
        upto1 <= upto2,
    ensures
        spec_row_in_registry(reg, upto2, row),
{
    let gj = choose|gj: int|
        0 <= gj < upto1 && spec_row_from_game((#[trigger] reg.entries()[gj]).1, row);
    assert(0 <= gj < upto2 && spec_row_from_game(reg.entries()[gj].1, row));
}

/// A row stays in the registry when the games it may have come from are
/// untouched.
proof fn lemma_row_in_registry_stable(reg0: Registry, reg1: Registry, upto: int, row: GameListEntry)
    requires
        spec_row_in_registry(reg0, upto, row),
        forall|j: int| 0 <= j < upto ==> reg1.entries()[j] == #[trigger] reg0.entries()[j],
    ensures
        spec_row_in_registry(reg1, upto, row),
{
    let gj = choose|gj: int|
        0 <= gj < upto && spec_row_from_game((#[trigger] reg0.entries()[gj]).1, row);
    assert(0 <= gj < upto && spec_row_from_game(reg1.entries()[gj].1, row));
}

/// The games list: every registered game's editions, split into installed
/// and available by the script's own answer against the configured game
/// path.  A game or edition without settings is skipped.  Every returned
/// row copies a registered game's manifest identity and carries one of
/// its cached editions with its cached card artwork.
pub fn get_games_list(registry: &mut Registry, settings: &Vec<(String, GameSettings)>) -> (r:
    Result<GamesList, IntegrationError>)
    requires
        old(registry).wf(),
    ensures
        final(registry).wf(),
        r matches Ok(gl) ==> exists|rows: Seq<(bool, GameListEntry)>|
            gl.installed@ == #[trigger] spec_flagged(rows, true) && gl.available@ == spec_flagged(
                rows,
                false,
            ),
        r matches Ok(gl) ==> forall|k: int|
            0 <= k < gl.installed@.len() ==> spec_row_in_registry(
                *final(registry),
                final(registry).entries().len() as int,
                #[trigger] gl.installed@[k],
            ),
        r matches Ok(gl) ==> forall|k: int|
            0 <= k < gl.available@.len() ==> spec_row_in_registry(
                *final(registry),
                final(registry).entries().len() as int,
                #[trigger] gl.available@[k],
            ),
{
    let mut all: Vec<(bool, GameListEntry)> = Vec::new();
    let n = registry.len();
    let mut gi: usize = 0;
    while gi < n
        invariant
            registry.wf(),
            n == registry.entries().len(),
            gi <= n,
            forall|k: int|
                0 <= k < all@.len() ==> spec_row_in_registry(
                    *registry,
                    gi as int,
                    (#[trigger] all@[k]).1,
                ),
        decreases n - gi,
    {
        let game_name = registry.name_at(gi).clone();
        match lookup_game_settings(settings, &game_name) {
            Some(gs) => {
                let ghost reg_before = *registry;
                let mut rows = match get_game_entries(registry, gi, gs) {
                    Ok(rows) => rows,
                    Err(e) => { return Err(e); },
                };
                proof {
                    assert forall|k: int| 0 <= k < all@.len() implies spec_row_in_registry(
                        *registry,
                        gi as int,
                        (#[trigger] all@[k]).1,
                    ) by {
                        lemma_row_in_registry_stable(reg_before, *registry, gi as int, all@[k].1);
                    }
                }
                let row_count = rows.len();
                let mut taken: Vec<(bool, GameListEntry)> = Vec::new();
                // Move the rows over, last first, then restore the order.
                while rows.len() > 0
                    invariant
                        taken@.len() + rows@.len() == row_count,
                        gi < n == registry.entries().len(),
                        forall|k: int|
                            0 <= k < rows@.len() ==> spec_row_from_game(
                                registry.entries()[gi as int].1,
                                (#[trigger] rows@[k]).1,
                            ),
                        forall|k: int|
                            0 <= k < taken@.len() ==> spec_row_from_game(
                                registry.entries()[gi as int].1,
                                (#[trigger] taken@[k]).1,
                            ),
                        forall|k: int|
                            0 <= k < all@.len() ==> spec_row_in_registry(
                                *registry,
                                gi as int,
                                (#[trigger] all@[k]).1,
                            ),
                    decreases rows.len(),
                {
                    let row = rows.pop().unwrap();
                    taken.push(row);
                }
                while taken.len() > 0
                    invariant
                        taken@.len() <= row_count,
                        gi < n == registry.entries().len(),
                        forall|k: int|
                            0 <= k < taken@.len() ==> spec_row_from_game(
                                registry.entries()[gi as int].1,
                                (#[trigger] taken@[k]).1,
                            ),
                        forall|k: int|
                            0 <= k < all@.len() ==> spec_row_in_registry(
                                *registry,
                                gi as int + 1,
                                (#[trigger] all@[k]).1,
                            ),
                    decreases taken.len(),
                {
                    let row = taken.pop().unwrap();
                    all.push(row);
                    proof {
                        assert(spec_row_in_registry(
                            *registry,
                            gi as int + 1,
                            all@[all@.len() - 1].1,
                        ));
                    }
                }
            },
            None => {},
        }
        proof {
            assert forall|k: int| 0 <= k < all@.len() implies spec_row_in_registry(
                *registry,
                gi as int + 1,
                (#[trigger] all@[k]).1,
            ) by {
                if spec_row_in_registry(*registry, gi as int, all@[k].1) {
                    lemma_row_in_registry_widen(*registry, gi as int, gi as int + 1, all@[k].1);
                }
            }
        }
        gi = gi + 1;
    }
    let ghost all_rows = all@;
    let list = partition_entries(all);
    proof {
        lemma_flagged_membership(all_rows, true);
        lemma_flagged_membership(all_rows, false);
        assert forall|k: int| 0 <= k < list.installed@.len() implies spec_row_in_registry(
            *registry,
            registry.entries().len() as int,
            #[trigger] list.installed@[k],
        ) by {
            let i = choose|i: int|
                0 <= i < all_rows.len() && (#[trigger] spec_flagged(all_rows, true)[k])
                    == all_rows[i].1;
        }
        assert forall|k: int| 0 <= k < list.available@.len() implies spec_row_in_registry(
            *registry,
            registry.entries().len() as int,
            #[trigger] list.available@[k],
        ) by {
            let i = choose|i: int|
                0 <= i < all_rows.len() && (#[trigger] spec_flagged(all_rows, false)[k])
                    == all_rows[i].1;
        }
    }
    Ok(list)
}

/// Derive where an addon is installed and ask the script which files and
/// directories it owns there.
pub fn get_uninstall_addon_paths(
    game: &Game,
    game_info: &CardInfo,
    addon: &Addon,
    group: &AddonsGroup,
    paths: &EditionPaths,
) -> (r: Result<Vec<String>, IntegrationError>) {
    let addon_path = addon.get_installation_path(
        group.name.as_str(),
        paths.game.as_str(),
        paths.addons.as_str(),
    );
    game.get_addon_paths(
        group.name.as_str(),
        addon.name.as_str(),
        addon_path.as_str(),
        game_info.edition.as_str(),
    )
}

/// The one style rule a game and edition contribute: a class selector
/// over both names, holding the style the script handed back.
pub open spec fn spec_style_rule(game: Seq<char>, edition: Seq<char>, style: Seq<char>) -> Seq<
    char,
> {
    " .game-details--"@ + game + "--"@ + edition + " { "@ + style + " }"@
}

/// Format the style rule for one game and edition, exactly.
pub fn format_style_rule(game_name: &String, edition_name: &String, style: &String) -> (r: String)
    ensures
        r@ == spec_style_rule(game_name@, edition_name@, style@),
{
    let mut out = String::from_str(" .game-details--");
    out.append(game_name.as_str());
    out.append("--");
    out.append(edition_name.as_str());
    out.append(" { ");
    out.append(style.as_str());
    out.append(" }");
    out
}

/// One style-sheet rule per edition that defines the optional details
/// style hook, concatenated for the shell to register.
pub fn collect_games_styles(registry: &mut Registry) -> (r: Result<String, IntegrationError>)
    requires
        old(registry).wf(),
    ensures
        final(registry).wf(),
{
    let mut styles = String::new();
    let n = registry.len();
    let mut gi: usize = 0;
    while gi < n
        invariant
            registry.wf(),
            n == registry.entries().len(),
            gi <= n,
        decreases n - gi,
    {
        let game_name = registry.name_at(gi).clone();
        let editions = match registry.game_at_mut(gi).get_game_editions_list() {
            Ok(es) => es,
            Err(e) => { return Err(e); },
        };
        for ei in 0..editions.len()
            invariant
                registry.wf(),
                n == registry.entries().len(),
                gi < n,
        {
            let edition_name = editions[ei].name.clone();
            let style = match registry.game_at_mut(gi).get_details_background_style(
                edition_name.as_str(),
            ) {
                Ok(s) => s,
                Err(e) => { return Err(e); },
            };
            match style {
                Some(rule) => {
                    styles.append(format_style_rule(&game_name, &edition_name, &rule).as_str());
                },
                None => {},
            }
        }
        gi = gi + 1;
    }
    Ok(styles)
}

} // verus!
