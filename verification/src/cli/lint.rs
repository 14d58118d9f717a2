//! The arguments of the lint command.

use vstd::prelude::*;

verus! {

/// The arguments of the lint command.
pub struct Args {
    /// The one language to lint; every language where none is given.
    pub command: Option<Command>,
}

/// The language to lint.
pub enum Command {
    /// Lint Haskell code.
    Haskell(HaskellArgs),
}

/// What to lint of Haskell code.
pub struct HaskellArgs {
    /// The files to lint; the changed files where none is given.
    pub paths: Vec<String>,
    /// Lint what the input stream holds.
    pub stdin: bool,
}

} // verus!
