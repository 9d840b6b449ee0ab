//! The desired plugin set: a collection of named plugin specifications,
//! each with its source coordinates and freeze / force-update flags. Names
//! are unique keys; the order of the collection carries no meaning.

use vstd::prelude::*;

verus! {

/// One desired plugin: where to resolve it from and how to treat updates.
#[derive(Clone, Debug, PartialEq)]
pub struct Plugin {
    /// Provider-specific source coordinates of the plugin.
    pub source: String,
    /// The version selector handed to the resolver.
    pub version: String,
    /// Never update this plugin, even on a build mismatch or force request.
    pub freeze: bool,
    /// Re-fetch this plugin even when the installed build matches.
    pub force_update: bool,
}

impl Plugin {
    pub fn new(source: String, version: String, freeze: bool, force_update: bool) -> (r: Plugin)
        ensures
            r.source == source,
            r.version == version,
            r.freeze == freeze,
            r.force_update == force_update,
    {
        Plugin { source, version, freeze, force_update }
    }

    pub fn freeze(&self) -> (r: bool)
        ensures
            r == self.freeze,
    {
        self.freeze
    }

    pub fn force_update(&self) -> (r: bool)
        ensures
            r == self.force_update,
    {
        self.force_update
    }
}

/// No two desired plugins share a name.
pub open spec fn distinct_plugin_names(s: Seq<(String, Plugin)>) -> bool {
    forall|a: int, b: int| 0 <= a < b < s.len() ==> (#[trigger] s[a]).0@ != (#[trigger] s[b]).0@
}

/// The desired plugin set, keyed by unique plugin name.
#[derive(Clone, Debug, PartialEq)]
pub struct Plugins(pub Vec<(String, Plugin)>);

impl Plugins {
    /// Well-formed: plugin names are unique keys.
    pub open spec fn wf(&self) -> bool {
        distinct_plugin_names(self.0@)
    }

    pub fn new(items: Vec<(String, Plugin)>) -> (r: Plugins)
        requires
            distinct_plugin_names(items@),
        ensures
            r.0 == items,
            r.wf(),
    {
        Plugins(items)
    }

    pub fn items(&self) -> (r: &Vec<(String, Plugin)>)
        ensures
            r == self.0,
    {
        &self.0
    }
}

} // verus!
