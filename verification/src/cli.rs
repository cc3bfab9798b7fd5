//! The top-level commands.
use vstd::prelude::*;
use crate::args::OsArgs;
use crate::clean::CleanArgs;
use crate::search::SearchArgs;

verus! {

/// The subcommands.
pub enum Commands {
    /// System operations (rebuild, rollback, info, delete).
    Os(OsArgs),
    /// Garbage collect old generations and optimise the store.
    Clean(CleanArgs),
    /// Search for packages in nixpkgs.
    Search(SearchArgs),
}

} // verus!
