//! The desired-state specification for one run: which core runtime to
//! install, which plugins, and the per-item freeze / force-update flags.

pub mod additions;
pub mod plugins;

use vstd::prelude::*;
use vstd::string::StringExecFns;

use crate::lock::CoreMeta;

verus! {

/// The version selector a core defaults to when none is configured.
pub fn version() -> (r: String)
    ensures
        r@ == "Latest"@,
{
    String::from_str("Latest")
}

/// The closed set of core providers the engine can provision from.
#[derive(Clone, Copy, Debug, PartialEq, Eq, Structural)]
pub enum Provider {
    Vanilla,
    Paper,
    Folia,
    Purpur,
    Fabric,
    Forge,
    NeoForge,
    Waterfall,
    Velocity,
}

impl Provider {
    pub open spec fn spec_as_str(&self) -> Seq<char> {
        match self {
            Provider::Vanilla => "vanilla"@,
            Provider::Paper => "paper"@,
            Provider::Folia => "folia"@,
            Provider::Purpur => "purpur"@,
            Provider::Fabric => "fabric"@,
            Provider::Forge => "forge"@,
            Provider::NeoForge => "neoforge"@,
            Provider::Waterfall => "waterfall"@,
            Provider::Velocity => "velocity"@,
        }
    }

    /// The provider's stable lower-case tag.
    pub fn as_str(&self) -> (r: &'static str)
        ensures
            r@ == self.spec_as_str(),
    {
        match self {
            Provider::Vanilla => "vanilla",
            Provider::Paper => "paper",
            Provider::Folia => "folia",
            Provider::Purpur => "purpur",
            Provider::Fabric => "fabric",
            Provider::Forge => "forge",
            Provider::NeoForge => "neoforge",
            Provider::Waterfall => "waterfall",
            Provider::Velocity => "velocity",
        }
    }

    /// The canonical path the core artifact of this provider is saved
    /// under: the provider tag with a `.jar` suffix in the working
    /// directory.
    pub open spec fn spec_jar_path(&self) -> Seq<char> {
        match self {
            Provider::Vanilla => "./vanilla.jar"@,
            Provider::Paper => "./paper.jar"@,
            Provider::Folia => "./folia.jar"@,
            Provider::Purpur => "./purpur.jar"@,
            Provider::Fabric => "./fabric.jar"@,
            Provider::Forge => "./forge.jar"@,
            Provider::NeoForge => "./neoforge.jar"@,
            Provider::Waterfall => "./waterfall.jar"@,
            Provider::Velocity => "./velocity.jar"@,
        }
    }

    pub fn jar_path(&self) -> (r: &'static str)
        ensures
            r@ == self.spec_jar_path(),
    {
        match self {
            Provider::Vanilla => "./vanilla.jar",
            Provider::Paper => "./paper.jar",
            Provider::Folia => "./folia.jar",
            Provider::Purpur => "./purpur.jar",
            Provider::Fabric => "./fabric.jar",
            Provider::Forge => "./forge.jar",
            Provider::NeoForge => "./neoforge.jar",
            Provider::Waterfall => "./waterfall.jar",
            Provider::Velocity => "./velocity.jar",
        }
    }
}

/// The desired core runtime, immutable during a reconciliation pass.
#[derive(Clone, Debug, PartialEq)]
pub struct Core {
    pub provider: Provider,
    pub version: String,
    pub build: Option<String>,
    pub freeze: bool,
    pub force_update: bool,
}

impl Core {
    pub fn new(
        provider: Provider,
        version: String,
        build: Option<String>,
        freeze: bool,
        force_update: bool,
    ) -> (r: Core)
        ensures
            r.provider == provider,
            r.version == version,
            r.build == build,
            r.freeze == freeze,
            r.force_update == force_update,
    {
        Core { provider, version, build, freeze, force_update }
    }

    /// The lock entry that installing this core with the given resolved
    /// build identifier produces: same provider and version, the new build,
    /// and the provider's canonical artifact path.
    pub fn to_meta(self, build: String) -> (r: CoreMeta)
        ensures
            r.provider == self.provider,
            r.version == self.version,
            r.build == Some(build),
            r.path@ == self.provider.spec_jar_path(),
    {
        let path = self.provider.jar_path();
        CoreMeta::new(self.provider, self.version, Some(build), String::from_str(path))
    }

    pub fn provider(&self) -> (r: &Provider)
        ensures
            *r == self.provider,
    {
        &self.provider
    }

    pub fn version(&self) -> (r: &str)
        ensures
            r@ == self.version@,
    {
        self.version.as_str()
    }

    pub fn build(&self) -> (r: Option<&String>)
        ensures
            r is Some <==> self.build is Some,
            r is Some ==> *r->0 == self.build->0,
    {
        self.build.as_ref()
    }

    pub fn freeze(&self) -> (r: bool)
        ensures
            r == self.freeze,
    {
        self.freeze
    }

    pub fn force_update(&self) -> (r: bool)
        ensures
            r == self.force_update,
    {
        self.force_update
    }

    pub fn set_provider(&mut self, provider: Provider)
        ensures
            *final(self) == (Core { provider, ..*old(self) }),
    {
        self.provider = provider;
    }

    pub fn set_version(&mut self, version: String)
        ensures
            *final(self) == (Core { version, ..*old(self) }),
    {
        self.version = version;
    }

    pub fn set_build(&mut self, build: Option<String>)
        ensures
            *final(self) == (Core { build, ..*old(self) }),
    {
        self.build = build;
    }

    pub fn set_freeze(&mut self, freeze: bool)
        ensures
            *final(self) == (Core { freeze, ..*old(self) }),
    {
        self.freeze = freeze;
    }

    pub fn set_force_update(&mut self, force_update: bool)
        ensures
            *final(self) == (Core { force_update, ..*old(self) }),
    {
        self.force_update = force_update;
    }
}

} // verus!
