//! The command-line surface: the two positional arguments the program
//! takes. Capturing them from the process belongs to the binary around the
//! library; here stands the validated shape they arrive in.

use vstd::prelude::*;

verus! {

/// The two positional command-line arguments.
pub struct CommandLineArguments {
    /// The source folder.
    pub source: String,
    /// The target folder.
    pub target: String,
}

} // verus!
