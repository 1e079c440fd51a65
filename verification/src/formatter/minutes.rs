//! The minutes formatter collaborator. It consumes a transcription result
//! and produces formatted text; that string post-processing is deterministic
//! presentation work done outside this library, which only fixes the
//! formatter's identity here.

use vstd::prelude::*;

verus! {

/// The minutes formatter. It carries no configuration.
#[derive(Clone)]
pub struct MinutesFormatter {}

impl MinutesFormatter {
    /// A formatter with the default (empty) configuration.
    pub fn new() -> (r: MinutesFormatter)
        ensures
            r == (MinutesFormatter {  }),
    {
        MinutesFormatter {  }
    }
}

impl Default for MinutesFormatter {
    fn default() -> (r: MinutesFormatter)
        ensures
            r == (MinutesFormatter {  }),
    {
        MinutesFormatter::new()
    }
}

} // verus!
