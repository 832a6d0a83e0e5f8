//! Error kinds shared across the library.

use vstd::prelude::*;

verus! {

/// A capability (a compositor-side manager object) has not been bound
/// yet. Recoverable: retry once the registry collaborator signals
/// readiness.
#[derive(Clone, Copy, Debug, PartialEq, Eq, Structural)]
pub enum GlobalError {
    NotReady,
}

impl GlobalError {
    /// A short description of the error.
    pub fn describe(&self) -> (r: &'static str)
        ensures
            r@ =~= "global not ready"@,
    {
        "global not ready"
    }
}

} // verus!
