//! The on-disk artifact cache: where artifacts live and when one may be used.

use vstd::prelude::*;

verus! {

/// Whether to load a cached artifact or compile the source.
#[derive(Debug, Clone, Copy, PartialEq, Eq, Structural)]
pub enum CacheDecision {
    LoadCached,
    Compile,
}

/// An artifact is fresh when it was modified strictly after its source.
pub open spec fn is_fresh(source_mtime: u128, artifact_mtime: Option<u128>) -> bool {
    artifact_mtime matches Some(a) && a > source_mtime
}

/// The cache directory of a registry: its path with `.cache` appended.
pub fn cache_dir_for(registry_path: &str) -> (r: String)
    ensures
        r@ == registry_path@ + ".cache"@,
{
    let base: String = registry_path.to_owned();
    base.concat(".cache")
}

/// The artifact's file name inside the cache directory: `<stem>.bin`.
pub fn artifact_file_name(stem: &str) -> (r: String)
    ensures
        r@ == stem@ + ".bin"@,
{
    let base: String = stem.to_owned();
    base.concat(".bin")
}

/// Loads the cached artifact only when it is fresh (times are nanoseconds
/// since the epoch; `None` when there is no artifact). A cached artifact that
/// then fails to load is recompiled from source.
pub fn cache_decision(source_mtime: u128, artifact_mtime: Option<u128>) -> (r: CacheDecision)
    ensures
        r == CacheDecision::LoadCached <==> is_fresh(source_mtime, artifact_mtime),
{
    match artifact_mtime {
        Some(a) => if a > source_mtime {
            CacheDecision::LoadCached
        } else {
            CacheDecision::Compile
        },
        None => CacheDecision::Compile,
    }
}

} // verus!
