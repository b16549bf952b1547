//! Linked working trees ("worktrees") of locally registered repositories:
//! where a worktree lives, and how it is listed, created and deleted.

pub mod config;
pub mod git;
pub mod naming;
pub mod registry;
pub mod store;
pub mod worktree;

pub use config::{Config, RepoConfig};
pub use git::RepositoryHandle;
pub use naming::derive_path;
pub use registry::get_repos;
pub use store::WorktreeStore;
pub use worktree::{RepositoryDto, RepositoryError, WorktreeDto, WorktreeError};
