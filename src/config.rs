//! The repositories that are registered, as the caller hands them over.

use vstd::prelude::*;

verus! {

/// The registered repositories, in order.
pub struct Config {
    pub repositories: Vec<RepoConfig>,
}

/// One registered repository.
pub struct RepoConfig {
    /// Path of the repository's working directory.
    pub path: String,
}

} // verus!
