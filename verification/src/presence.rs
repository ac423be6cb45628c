//! Presence probe against the locally running client. The probe itself is
//! an HTTP call outside the library; this is its handle.

use vstd::prelude::*;

verus! {

/// Handle for the local presence probe.
#[derive(Debug, Clone, Default)]
pub struct Presence {}

impl Presence {
    /// A fresh probe handle.
    pub fn new() -> (p: Presence)
        ensures
            p == (Presence {  }),
    {
        Presence {  }
    }
}

} // verus!
