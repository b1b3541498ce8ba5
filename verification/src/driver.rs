//! The driver contract: the full set of game-level and addon-level
//! operations a loaded integration script supports.
//!
//! A concrete driver binds the contract to one wire-contract standard for
//! its whole lifetime; [`v1`] holds the binding for the first standard.
//! Callers never see an entry-point name: dispatch from operation to entry
//! point is the driver's business.

use vstd::prelude::*;

use crate::standards::addons::AddonsGroup;
use crate::standards::game::{
    Diff, Download, GameEdition, GameLaunchOptions, GameStatus, IntegrityInfo,
};

pub mod v1;

verus! {

/// The game-level operations.
pub trait GameDriverExt {
    type Error;

    /// The editions the game ships in, in script-declared order.
    fn get_editions_list(&self) -> Result<Vec<GameEdition>, Self::Error>;

    /// The card artwork location for an edition.
    fn get_card_picture(&self, edition: &str) -> Result<String, Self::Error>;

    /// The background artwork location for an edition.
    fn get_background_picture(&self, edition: &str) -> Result<String, Self::Error>;

    /// The style sheet for the details page, when the script defines the
    /// optional hook; `None` when it does not.
    fn get_details_style(&self, edition: &str) -> Result<Option<String>, Self::Error>;

    /// Whether the edition is installed under `path`.
    fn is_installed(&self, path: &str, edition: &str) -> Result<bool, Self::Error>;

    /// The installed version, or `None` when it cannot be determined.
    fn get_version(&self, path: &str, edition: &str) -> Result<Option<String>, Self::Error>;

    /// The payload that installs the edition.
    fn get_download(&self, edition: &str) -> Result<Download, Self::Error>;

    /// The delta from the installed state, or `None` when not installed.
    fn get_diff(&self, path: &str, edition: &str) -> Result<Option<Diff>, Self::Error>;

    /// The runtime status report, or `None` when the script has none.
    fn get_status(&self, path: &str, edition: &str) -> Result<Option<GameStatus>, Self::Error>;

    /// How to launch the edition.
    fn get_launch_options(&self, game_path: &str, addons_path: &str, edition: &str) -> Result<
        GameLaunchOptions,
        Self::Error,
    >;

    /// Whether the game's process is running.
    fn is_process_running(&self, game_path: &str, edition: &str) -> Result<bool, Self::Error>;

    /// Stop the game's process.
    fn kill_process(&self, game_path: &str, edition: &str) -> Result<(), Self::Error>;

    /// The file-integrity expectations for an installed edition.
    fn get_integrity(&self, game_path: &str, edition: &str) -> Result<
        Vec<IntegrityInfo>,
        Self::Error,
    >;

    /// Capability probe: does the script define the diff transition hook?
    fn has_diff_transition(&self) -> Result<bool, Self::Error>;

    /// Run the diff transition hook.
    fn run_diff_transition(&self, transition_path: &str, edition: &str) -> Result<
        (),
        Self::Error,
    >;

    /// Capability probe: does the script define the post-transition hook?
    fn has_diff_post_transition(&self) -> Result<bool, Self::Error>;

    /// Run the post-transition hook.
    fn run_diff_post_transition(&self, game_path: &str, edition: &str) -> Result<
        (),
        Self::Error,
    >;

    /// Capability probe: does the script define its own hasher?
    fn has_integrity_hash(&self) -> Result<bool, Self::Error>;

    /// Digest `data` with the script's hasher under `algorithm`.
    fn integrity_hash(&self, algorithm: &str, data: &Vec<u8>) -> Result<String, Self::Error>;
}

/// The addon-level operations, each scoped by group and addon name.
pub trait AddonsDriverExt {
    type Error;

    /// The addon groups an edition offers, in script-declared order.
    fn get_list(&self, edition: &str) -> Result<Vec<AddonsGroup>, Self::Error>;

    /// Whether the addon is installed under `addon_path`.
    fn is_installed(
        &self,
        group_name: &str,
        addon_name: &str,
        addon_path: &str,
        edition: &str,
    ) -> Result<bool, Self::Error>;

    /// The installed addon version, or `None` when it cannot be determined.
    fn get_version(
        &self,
        group_name: &str,
        addon_name: &str,
        addon_path: &str,
        edition: &str,
    ) -> Result<Option<String>, Self::Error>;

    /// The payload that installs the addon.
    fn get_download(&self, group_name: &str, addon_name: &str, edition: &str) -> Result<
        Download,
        Self::Error,
    >;

    /// The delta from the installed addon state, or `None` when not
    /// installed.
    fn get_diff(
        &self,
        group_name: &str,
        addon_name: &str,
        addon_path: &str,
        edition: &str,
    ) -> Result<Option<Diff>, Self::Error>;

    /// The files and directories the addon owns.
    fn get_paths(
        &self,
        group_name: &str,
        addon_name: &str,
        addon_path: &str,
        edition: &str,
    ) -> Result<Vec<String>, Self::Error>;

    /// The file-integrity expectations for an installed addon.
    fn get_integrity(
        &self,
        group_name: &str,
        addon_name: &str,
        addon_path: &str,
        edition: &str,
    ) -> Result<Vec<IntegrityInfo>, Self::Error>;

    /// Capability probe: does the script define the addon transition hook?
    fn has_diff_transition(&self) -> Result<bool, Self::Error>;

    /// Run the addon diff transition hook.
    fn run_diff_transition(
        &self,
        group_name: &str,
        addon_name: &str,
        transition_path: &str,
        edition: &str,
    ) -> Result<(), Self::Error>;

    /// Capability probe: does the script define the addon post-transition
    /// hook?
    fn has_diff_post_transition(&self) -> Result<bool, Self::Error>;

    /// Run the addon post-transition hook.
    fn run_diff_post_transition(
        &self,
        group_name: &str,
        addon_name: &str,
        addon_path: &str,
        edition: &str,
    ) -> Result<(), Self::Error>;
}

/// The whole driver contract: both capability groups over one error type.
pub trait GeneralDriver<E>: GameDriverExt<Error = E> + AddonsDriverExt<Error = E> {

}

} // verus!
