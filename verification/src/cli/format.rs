//! The arguments of the format command.

use vstd::prelude::*;

verus! {

/// The arguments of the format command.
pub struct Args {
    /// The one language to format; every language where none is given.
    pub command: Option<Command>,
}

/// The language to format.
pub enum Command {
    /// Format Haskell code.
    Haskell(HaskellArgs),
    /// Format Nix code.
    Nix(NixArgs),
}

/// What to format of Haskell code.
pub struct HaskellArgs {
    /// The files to format; the changed files where none is given.
    pub paths: Vec<String>,
    /// Format what the input stream holds.
    pub stdin: bool,
}

/// What to format of Nix code.
pub struct NixArgs {
    /// The files to format; the changed files where none is given.
    pub paths: Vec<String>,
    /// Format what the input stream holds.
    pub stdin: bool,
}

} // verus!
