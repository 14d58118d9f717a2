//! The arguments of the query command.

use vstd::prelude::*;

verus! {

/// The arguments of the query command.
pub struct Args {
    pub command: Command,
}

/// What to query.
pub enum Command {
    /// Index modules to build the dependency graph.
    Index,
    /// The imports of modules.
    Imports(QueryArgs),
}

/// The modules whose imports are asked for.
pub struct QueryArgs {
    /// Module names or paths.
    pub modules: Vec<String>,
    /// Query the code that the input stream holds.
    pub stdin: bool,
}

} // verus!
