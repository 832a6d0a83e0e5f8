//! A capability that becomes available asynchronously: a compositor-side
//! global that the registry collaborator binds at most once.

use vstd::prelude::*;

use crate::error::GlobalError;

verus! {

/// The state of a bound-on-demand global: not ready until the registry
/// signals readiness, then bound to a protocol object handle. The only
/// allowed transition is `NotReady` to `Bound`.
#[derive(Clone, Copy, Debug, PartialEq, Eq, Structural)]
pub enum GlobalSlot {
    NotReady,
    Bound(u32),
}

impl GlobalSlot {
    /// Queries the capability: the bound handle, or an explicit error
    /// while the global has not been advertised yet.
    pub fn get(&self) -> (r: Result<u32, GlobalError>)
        ensures
            r == match *self {
                GlobalSlot::NotReady => Err::<u32, GlobalError>(GlobalError::NotReady),
                GlobalSlot::Bound(h) => Ok::<u32, GlobalError>(h),
            },
    {
        match *self {
            GlobalSlot::NotReady => Err(GlobalError::NotReady),
            GlobalSlot::Bound(h) => Ok(h),
        }
    }

    /// Whether the global has been bound.
    pub fn is_bound(&self) -> (r: bool)
        ensures
            r == (*self is Bound),
    {
        match *self {
            GlobalSlot::NotReady => false,
            GlobalSlot::Bound(_) => true,
        }
    }
}

} // verus!
