//! Optional extras of the desired-state specification: where to pull
//! plugin configuration files from, and the key that grants access.

use vstd::prelude::*;

verus! {

/// Optional sources of extra configuration.
#[derive(Clone, Debug, PartialEq)]
pub struct Additions {
    /// Link of the repository that plugin configuration is pulled from.
    pub config_plugins_from: Option<String>,
    /// Access key for that repository.
    pub key: Option<String>,
}

impl Additions {
    pub fn new(config_plugins_from: Option<String>, key: Option<String>) -> (r: Additions)
        ensures
            r.config_plugins_from == config_plugins_from,
            r.key == key,
    {
        Additions { config_plugins_from, key }
    }
}

} // verus!
