use vstd::prelude::*;

verus! {

/// The selection index that stands for "not yet supplied": the user is
/// prompted for one.
pub const DEFAULT_SEL: usize = 0;

/// The retry budget used when none is given on the command line.
pub const DEFAULT_RETRIES: usize = 20;

/// The command-line surface: the free-text query, a 1-based selection
/// index (0 meaning "prompt for one"), and the retry budget.
pub struct Args {
    pub query: String,
    pub sel: usize,
    pub retries: usize,
}

} // verus!
