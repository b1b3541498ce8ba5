//! The driver bound to the first wire-contract standard.
//!
//! Every operation maps to one entry point named `v1_<domain>_<operation>`
//! and marshals its arguments and result across the script boundary.  The
//! decoders carry the exact contracts; an operation's own promise is that
//! whatever the script returned, its result is a faithful decode of it.

use vstd::prelude::*;

use crate::engine::{script_call, script_call_bytes, script_exec, script_has_global};
use crate::error::IntegrationError;
use crate::driver::{AddonsDriverExt, GameDriverExt, GeneralDriver};
use crate::standards::addons::{AddonsGroup, addons_listing_wf, decode_addons_listing};
use crate::standards::game::{
    Diff, Download, GameEdition, GameLaunchOptions, GameStatus, IntegrityInfo,
    spec_decode_game_status, spec_decode_launch_options,
};
use crate::standards::{
    IntegrationStandard, as_bool_value, as_entity_list_value, as_opt_entity_value,
    as_opt_str_value, as_str_value, spec_decode_entity_list,
};
use crate::wire::WireModel;

verus! {

/// One string argument for an entry point.
pub(crate) fn args1(a: &str) -> (r: Vec<String>)
    ensures
        r@.len() == 1,
        r@[0]@ == a@,
{
    let mut args: Vec<String> = Vec::new();
    args.push(String::from_str(a));
    args
}

/// Two string arguments for an entry point, in order.
pub(crate) fn args2(a: &str, b: &str) -> (r: Vec<String>)
    ensures
        r@.len() == 2,
        r@[0]@ == a@,
        r@[1]@ == b@,
{
    let mut args = args1(a);
    args.push(String::from_str(b));
    args
}

/// Three string arguments for an entry point, in order.
pub(crate) fn args3(a: &str, b: &str, c: &str) -> (r: Vec<String>)
    ensures
        r@.len() == 3,
        r@[0]@ == a@,
        r@[1]@ == b@,
        r@[2]@ == c@,
{
    let mut args = args2(a, b);
    args.push(String::from_str(c));
    args
}

/// Four string arguments for an entry point, in order.
pub(crate) fn args4(a: &str, b: &str, c: &str, d: &str) -> (r: Vec<String>)
    ensures
        r@.len() == 4,
        r@[0]@ == a@,
        r@[1]@ == b@,
        r@[2]@ == c@,
        r@[3]@ == d@,
{
    let mut args = args3(a, b, c);
    args.push(String::from_str(d));
    args
}

/// A driver bound to the first standard, backed by one loaded script.
#[derive(Debug)]
pub struct GameDriver {
    lua: mlua::Lua,
}

impl GameDriver {
    /// Bind a fresh driver: run the script's top level once inside the
    /// prepared execution context.  Any load-time failure aborts the
    /// construction; no partial driver is returned.
    pub fn new(lua: mlua::Lua, script: &str) -> (r: Result<GameDriver, IntegrationError>)
        ensures
            r matches Err(e) ==> e is Load,
    {
        match script_exec(&lua, script) {
            Ok(()) => Ok(GameDriver { lua }),
            Err(m) => Err(IntegrationError::Load(m)),
        }
    }
}

impl GameDriverExt for GameDriver {
    type Error = IntegrationError;

    fn get_editions_list(&self) -> (r: Result<Vec<GameEdition>, IntegrationError>)
        ensures
            r matches Ok(es) ==> exists|w: Seq<WireModel>|
                #[trigger] spec_decode_entity_list::<GameEdition>(w) == Some(es.deep_view()),
    {
        match script_call(&self.lua, "v1_game_get_editions_list", Vec::new()) {
            Ok(v) => as_entity_list_value::<GameEdition>(v, IntegrationStandard::V1),
            Err(m) => Err(IntegrationError::Script(m)),
        }
    }

    fn get_card_picture(&self, edition: &str) -> (r: Result<String, IntegrationError>) {
        match script_call(&self.lua, "v1_visual_get_card_picture", args1(edition)) {
            Ok(v) => as_str_value(v),
            Err(m) => Err(IntegrationError::Script(m)),
        }
    }

    fn get_background_picture(&self, edition: &str) -> (r: Result<String, IntegrationError>) {
        match script_call(&self.lua, "v1_visual_get_background_picture", args1(edition)) {
            Ok(v) => as_str_value(v),
            Err(m) => Err(IntegrationError::Script(m)),
        }
    }

    fn get_details_style(&self, edition: &str) -> (r: Result<Option<String>, IntegrationError>) {
        let has = match script_has_global(&self.lua, "v1_visual_get_details_background_css") {
            Ok(b) => b,
            Err(m) => { return Err(IntegrationError::Script(m)); },
        };
        if has {
            match script_call(&self.lua, "v1_visual_get_details_background_css", args1(edition)) {
                Ok(v) => match as_str_value(v) {
                    Ok(s) => Ok(Some(s)),
                    Err(e) => Err(e),
                },
                Err(m) => Err(IntegrationError::Script(m)),
            }
        } else {
            Ok(None)
        }
    }

    fn is_installed(&self, path: &str, edition: &str) -> (r: Result<bool, IntegrationError>) {
        match script_call(&self.lua, "v1_game_is_installed", args2(path, edition)) {
            Ok(v) => as_bool_value(v),
            Err(m) => Err(IntegrationError::Script(m)),
        }
    }

    fn get_version(&self, path: &str, edition: &str) -> (r: Result<
        Option<String>,
        IntegrationError,
    >) {
        match script_call(&self.lua, "v1_game_get_version", args2(path, edition)) {
            Ok(v) => as_opt_str_value(v),
            Err(m) => Err(IntegrationError::Script(m)),
        }
    }

    fn get_download(&self, edition: &str) -> (r: Result<Download, IntegrationError>) {
        match script_call(&self.lua, "v1_game_get_download", args1(edition)) {
            Ok(v) => Download::from_table(&v, IntegrationStandard::V1),
            Err(m) => Err(IntegrationError::Script(m)),
        }
    }

    fn get_diff(&self, path: &str, edition: &str) -> (r: Result<Option<Diff>, IntegrationError>) {
        match script_call(&self.lua, "v1_game_get_diff", args2(path, edition)) {
            Ok(v) => as_opt_entity_value::<Diff>(v, IntegrationStandard::V1),
            Err(m) => Err(IntegrationError::Script(m)),
        }
    }

    fn get_status(&self, path: &str, edition: &str) -> (r: Result<
        Option<GameStatus>,
        IntegrationError,
    >)
        ensures
            r matches Ok(Some(s)) ==> exists|w: WireModel| #[trigger] spec_decode_game_status(w)
                == Some(s.deep_view()),
    {
        match script_call(&self.lua, "v1_game_get_status", args2(path, edition)) {
            Ok(v) => as_opt_entity_value::<GameStatus>(v, IntegrationStandard::V1),
            Err(m) => Err(IntegrationError::Script(m)),
        }
    }

    fn get_launch_options(&self, game_path: &str, addons_path: &str, edition: &str) -> (r: Result<
        GameLaunchOptions,
        IntegrationError,
    >)
        ensures
            r matches Ok(o) ==> exists|w: WireModel| #[trigger] spec_decode_launch_options(w)
                == Some(o.deep_view()),
    {
        match script_call(
            &self.lua,
            "v1_game_get_launch_options",
            args3(game_path, addons_path, edition),
        ) {
            Ok(v) => GameLaunchOptions::from_table(&v, IntegrationStandard::V1),
            Err(m) => Err(IntegrationError::Script(m)),
        }
    }

    fn is_process_running(&self, game_path: &str, edition: &str) -> (r: Result<
        bool,
        IntegrationError,
    >) {
        match script_call(&self.lua, "v1_game_is_running", args2(game_path, edition)) {
            Ok(v) => as_bool_value(v),
            Err(m) => Err(IntegrationError::Script(m)),
        }
    }

    fn kill_process(&self, game_path: &str, edition: &str) -> (r: Result<(), IntegrationError>) {
        match script_call(&self.lua, "v1_game_kill", args2(game_path, edition)) {
            Ok(_) => Ok(()),
            Err(m) => Err(IntegrationError::Script(m)),
        }
    }

    fn get_integrity(&self, game_path: &str, edition: &str) -> (r: Result<
        Vec<IntegrityInfo>,
        IntegrationError,
    >) {
        match script_call(&self.lua, "v1_game_get_integrity_info", args2(game_path, edition)) {
            Ok(v) => as_entity_list_value::<IntegrityInfo>(v, IntegrationStandard::V1),
            Err(m) => Err(IntegrationError::Script(m)),
        }
    }

    fn has_diff_transition(&self) -> (r: Result<bool, IntegrationError>) {
        match script_has_global(&self.lua, "v1_game_diff_transition") {
            Ok(b) => Ok(b),
            Err(m) => Err(IntegrationError::Script(m)),
        }
    }

    fn run_diff_transition(&self, transition_path: &str, edition: &str) -> (r: Result<
        (),
        IntegrationError,
    >) {
        match script_call(&self.lua, "v1_game_diff_transition", args2(transition_path, edition)) {
            Ok(_) => Ok(()),
            Err(m) => Err(IntegrationError::Script(m)),
        }
    }

    fn has_diff_post_transition(&self) -> (r: Result<bool, IntegrationError>) {
        match script_has_global(&self.lua, "v1_game_diff_post_transition") {
            Ok(b) => Ok(b),
            Err(m) => Err(IntegrationError::Script(m)),
        }
    }

    fn run_diff_post_transition(&self, game_path: &str, edition: &str) -> (r: Result<
        (),
        IntegrationError,
    >) {
        match script_call(&self.lua, "v1_game_diff_post_transition", args2(game_path, edition)) {
            Ok(_) => Ok(()),
            Err(m) => Err(IntegrationError::Script(m)),
        }
    }

    fn has_integrity_hash(&self) -> (r: Result<bool, IntegrationError>) {
        match script_has_global(&self.lua, "v1_integrity_hash") {
            Ok(b) => Ok(b),
            Err(m) => Err(IntegrationError::Script(m)),
        }
    }

    fn integrity_hash(&self, algorithm: &str, data: &Vec<u8>) -> (r: Result<
        String,
        IntegrationError,
    >) {
        match script_call_bytes(&self.lua, "v1_integrity_hash", algorithm, data) {
            Ok(v) => as_str_value(v),
            Err(m) => Err(IntegrationError::Script(m)),
        }
    }
}

impl AddonsDriverExt for GameDriver {
    type Error = IntegrationError;

    fn get_list(&self, edition: &str) -> (r: Result<Vec<AddonsGroup>, IntegrationError>)
        ensures
            r matches Ok(groups) ==> exists|w: Seq<WireModel>|
                #[trigger] spec_decode_entity_list::<AddonsGroup>(w) == Some(groups.deep_view()),
            r matches Ok(groups) ==> addons_listing_wf(groups.deep_view()),
    {
        match script_call(&self.lua, "v1_addons_get_list", args1(edition)) {
            Ok(v) => decode_addons_listing(v, IntegrationStandard::V1),
            Err(m) => Err(IntegrationError::Script(m)),
        }
    }

    fn is_installed(
        &self,
        group_name: &str,
        addon_name: &str,
        addon_path: &str,
        edition: &str,
    ) -> (r: Result<bool, IntegrationError>) {
        match script_call(
            &self.lua,
            "v1_addons_is_installed",
            args4(group_name, addon_name, addon_path, edition),
        ) {
            Ok(v) => as_bool_value(v),
            Err(m) => Err(IntegrationError::Script(m)),
        }
    }

    fn get_version(
        &self,
        group_name: &str,
        addon_name: &str,
        addon_path: &str,
        edition: &str,
    ) -> (r: Result<Option<String>, IntegrationError>) {
        match script_call(
            &self.lua,
            "v1_addons_get_version",
            args4(group_name, addon_name, addon_path, edition),
        ) {
            Ok(v) => as_opt_str_value(v),
            Err(m) => Err(IntegrationError::Script(m)),
        }
    }

    fn get_download(&self, group_name: &str, addon_name: &str, edition: &str) -> (r: Result<
        Download,
        IntegrationError,
    >) {
        match script_call(
            &self.lua,
            "v1_addons_get_download",
            args3(group_name, addon_name, edition),
        ) {
            Ok(v) => Download::from_table(&v, IntegrationStandard::V1),
            Err(m) => Err(IntegrationError::Script(m)),
        }
    }

    fn get_diff(
        &self,
        group_name: &str,
        addon_name: &str,
        addon_path: &str,
        edition: &str,
    ) -> (r: Result<Option<Diff>, IntegrationError>) {
        match script_call(
            &self.lua,
            "v1_addons_get_diff",
            args4(group_name, addon_name, addon_path, edition),
        ) {
            Ok(v) => as_opt_entity_value::<Diff>(v, IntegrationStandard::V1),
            Err(m) => Err(IntegrationError::Script(m)),
        }
    }

    fn get_paths(
        &self,
        group_name: &str,
        addon_name: &str,
        addon_path: &str,
        edition: &str,
    ) -> (r: Result<Vec<String>, IntegrationError>) {
        match script_call(
            &self.lua,
            "v1_addons_get_paths",
            args4(group_name, addon_name, addon_path, edition),
        ) {
            Ok(v) => crate::standards::as_str_list_value(v),
            Err(m) => Err(IntegrationError::Script(m)),
        }
    }

    fn get_integrity(
        &self,
        group_name: &str,
        addon_name: &str,
        addon_path: &str,
        edition: &str,
    ) -> (r: Result<Vec<IntegrityInfo>, IntegrationError>) {
        match script_call(
            &self.lua,
            "v1_addons_get_integrity_info",
            args4(group_name, addon_name, addon_path, edition),
        ) {
            Ok(v) => as_entity_list_value::<IntegrityInfo>(v, IntegrationStandard::V1),
            Err(m) => Err(IntegrationError::Script(m)),
        }
    }

    fn has_diff_transition(&self) -> (r: Result<bool, IntegrationError>) {
        match script_has_global(&self.lua, "v1_addons_diff_transition") {
            Ok(b) => Ok(b),
            Err(m) => Err(IntegrationError::Script(m)),
        }
    }

    fn run_diff_transition(
        &self,
        group_name: &str,
        addon_name: &str,
        transition_path: &str,
        edition: &str,
    ) -> (r: Result<(), IntegrationError>) {
        match script_call(
            &self.lua,
            "v1_addons_diff_transition",
            args4(group_name, addon_name, transition_path, edition),
        ) {
            Ok(_) => Ok(()),
            Err(m) => Err(IntegrationError::Script(m)),
        }
    }

    fn has_diff_post_transition(&self) -> (r: Result<bool, IntegrationError>) {
        match script_has_global(&self.lua, "v1_addons_diff_post_transition") {
            Ok(b) => Ok(b),
            Err(m) => Err(IntegrationError::Script(m)),
        }
    }

    fn run_diff_post_transition(
        &self,
        group_name: &str,
        addon_name: &str,
        addon_path: &str,
        edition: &str,
    ) -> (r: Result<(), IntegrationError>) {
        match script_call(
            &self.lua,
            "v1_addons_diff_post_transition",
            args4(group_name, addon_name, addon_path, edition),
        ) {
            Ok(_) => Ok(()),
            Err(m) => Err(IntegrationError::Script(m)),
        }
    }
}

impl GeneralDriver<IntegrationError> for GameDriver {

}

} // verus!
