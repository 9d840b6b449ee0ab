//! The ephemeral result of resolving a desired item against its provider:
//! a download link, an expected hash descriptor and a build identifier.
//! Produced by a resolver, consumed by the fetch pipeline, never persisted.

use vstd::prelude::*;

verus! {

/// The hash descriptor a provider publishes for an artifact, used by the
/// transport to verify the fetched bytes. Held as plain data; the engine
/// never computes a digest itself.
#[derive(Clone, Debug, PartialEq)]
pub enum ChooseHash {
    Sha1(String),
    Sha256(String),
    Md5(String),
}

/// What a provider resolver returns for one desired item.
#[derive(Clone, Debug, PartialEq)]
pub struct ResolvedTarget {
    /// Where the artifact can be downloaded.
    pub link: String,
    /// The expected hash of the artifact bytes.
    pub hash: ChooseHash,
    /// The opaque identifier of the exact build, the change-detection key.
    pub build: String,
}

impl ResolvedTarget {
    pub fn new(link: String, hash: ChooseHash, build: String) -> (r: ResolvedTarget)
        ensures
            r.link == link,
            r.hash == hash,
            r.build == build,
    {
        ResolvedTarget { link, hash, build }
    }
}

} // verus!
