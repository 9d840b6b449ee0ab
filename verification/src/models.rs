//! The resolver ports: the interface a per-provider client exposes to the
//! engine. Given a desired-item specification, a resolver returns a
//! download link, an expected hash descriptor and a build identifier, or a
//! failure. The clients themselves — their network and API logic — live
//! outside the library and implement these traits.

use vstd::prelude::*;

use crate::errors::Failure;
use crate::settings::plugins::Plugin;
use crate::target::ChooseHash;

verus! {

/// A resolver for core runtimes of one provider.
pub trait ModelCore {
    /// Resolves the configured core to `(download link, expected hash,
    /// build identifier)`.
    fn get_link(core: &crate::config::Core) -> Result<(String, ChooseHash, String), Failure>;

    /// Picks the concrete version a selector stands for; `None` selects
    /// the latest.
    fn find_version(version: Option<&str>) -> Result<String, Failure>;
}

/// A resolver for plugins.
pub trait ModelExtensions {
    /// Resolves one named plugin against a game version to `(download
    /// link, expected hash, build identifier)`.
    fn get_link(name: &str, plugin: &Plugin, game_version: Option<&str>) -> Result<
        (String, ChooseHash, String),
        Failure,
    >;
}

} // verus!
