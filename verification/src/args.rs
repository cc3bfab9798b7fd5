//! The options of the `os` subcommands, as plain values.
use vstd::prelude::*;

verus! {

/// Options of `os`: which action to take.
pub struct OsArgs {
    pub action: OsAction,
}

/// The actions of `os`.
pub enum OsAction {
    /// Build and activate the system configuration.
    Rebuild(RebuildArgs),
    /// Roll back to a previous generation.
    Rollback(RollbackArgs),
    /// Show information about current and past generations.
    Info,
    /// Delete specific generations by number.
    Delete(DeleteArgs),
}

/// Options of `os rebuild`.
pub struct RebuildArgs {
    /// Update flake inputs before rebuilding.
    pub update: bool,
    /// Specific inputs to update.
    pub update_input: Option<Vec<String>>,
    /// Don't commit dotfiles after rebuild.
    pub no_commit: bool,
    /// Show what would be built without building.
    pub dry: bool,
    /// Path to the flake directory.
    pub flake: Option<String>,
}

/// Options of `os rollback`.
pub struct RollbackArgs {
    /// Roll back to a specific generation (default: previous).
    pub to: Option<u64>,
}

/// Options of `os delete`.
pub struct DeleteArgs {
    /// Generation numbers to delete (interactive if omitted).
    pub ids: Option<Vec<u64>>,
    /// Show what would be deleted without deleting.
    pub dry: bool,
    /// Skip garbage collection after deletion.
    pub no_gc: bool,
    /// Keep generations newer than this duration (e.g. "4d", "1w").
    pub keep_since: Option<String>,
    /// Number of generations to keep (minimum).
    pub keep: Option<u64>,
}

} // verus!
