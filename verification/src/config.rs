//! The raw configuration shape of the desired core, as an operator writes
//! it: a provider tag, a version selector and the freeze / force-update
//! flags.

use vstd::prelude::*;

verus! {

/// A version selector: the latest available version, or one named exactly.
#[derive(Clone, Debug, PartialEq)]
pub enum Versions {
    Latest,
    Version(String),
}

impl Default for Versions {
    fn default() -> (r: Versions)
        ensures
            r == Versions::Latest,
    {
        Versions::Latest
    }
}

/// The provider tags the configuration accepts.
#[derive(Clone, Copy, Debug, PartialEq, Eq, Structural)]
pub enum Provider {
    Vanilla,
    Bucket,
    Spigot,
    Paper,
    Purpur,
    Fabric,
    Forge,
    NeoForge,
}

impl Default for Provider {
    fn default() -> (r: Provider)
        ensures
            r == Provider::Vanilla,
    {
        Provider::Vanilla
    }
}

/// The desired core as configured.
#[derive(Clone, Debug, PartialEq)]
pub struct Core {
    pub provider: Provider,
    pub version: Versions,
    pub freeze: bool,
    pub force_update: bool,
}

impl Default for Core {
    fn default() -> (r: Core)
        ensures
            r.provider == Provider::Vanilla,
            r.version == Versions::Latest,
            !r.freeze,
            !r.force_update,
    {
        Core {
            provider: Provider::Vanilla,
            version: Versions::Latest,
            freeze: false,
            force_update: false,
        }
    }
}

} // verus!
