//! The directory layout that a context works with.

use std::sync::Arc;
use vstd::prelude::*;

verus! {

/// Where the tool keeps its files, and where it looks for executables.
#[derive(Debug, PartialEq, Eq)]
pub struct AppDirs {
    /// The directory of the package cache.
    pub cache_dir: String,
    /// The directory of the configuration.
    pub config_dir: String,
    /// The list of directories searched for executables, in the form of the
    /// `PATH` variable.
    pub path_env: String,
}

/// Calls `Arc::clone`.
///
/// Trusted: the new handle shares the layout of the given one.
#[verifier::external_body]
pub(crate) fn share(dirs: &Arc<AppDirs>) -> (shared: Arc<AppDirs>)
    ensures
        shared == *dirs,
{
    Arc::clone(dirs)
}

} // verus!
