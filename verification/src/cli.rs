//! The parsed command line, as plain values.

use vstd::prelude::*;

verus! {

/// The command-line arguments the tool accepts: an optional working
/// directory holding the store files.
#[derive(Debug)]
pub struct CLIArgs {
    pub work_dir: Option<String>,
}

} // verus!
