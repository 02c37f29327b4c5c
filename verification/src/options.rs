//! What the caller supplies for one run of the tool.

use vstd::prelude::*;

verus! {

/// Options for the Tailwind CLI
#[derive(Debug)]
pub struct TailwindOptions {
    /// The path to the input CSS file
    pub in_file: String,
    /// The path to the CSS file that the CLI writes. A directory that the
    /// build watches is a poor place for it: every run would start another.
    pub out_file: String,
}

} // verus!
