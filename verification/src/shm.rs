//! Shared-memory global state: the bound capability and the pixel
//! formats the compositor advertises for memory pools.

use vstd::prelude::*;

use crate::error::GlobalError;
use crate::globals::GlobalSlot;

verus! {

/// The mathematical model of the shared-memory state.
#[verifier::ext_equal]
pub ghost struct ShmModel {
    pub wl_shm: GlobalSlot,
    /// Raw format codes, in the order the compositor advertised them.
    pub formats: Seq<u32>,
}

/// The shared-memory global's state.
#[derive(Debug)]
pub struct ShmState {
    wl_shm: GlobalSlot,
    formats: Vec<u32>,
}

impl View for ShmState {
    type V = ShmModel;

    closed spec fn view(&self) -> ShmModel {
        ShmModel { wl_shm: self.wl_shm, formats: self.formats@ }
    }
}

impl ShmState {
    /// A state whose global is not yet bound.
    pub fn new() -> (r: ShmState)
        ensures
            r@ == (ShmModel { wl_shm: GlobalSlot::NotReady, formats: Seq::<u32>::empty() }),
    {
        let r = ShmState { wl_shm: GlobalSlot::NotReady, formats: Vec::new() };
        proof {
            assert(r@ =~= ShmModel { wl_shm: GlobalSlot::NotReady, formats: Seq::<u32>::empty() });
        }
        r
    }

    /// A state built around an already bound global.
    pub fn from_bound(wl_shm: u32) -> (r: ShmState)
        ensures
            r@ == (ShmModel { wl_shm: GlobalSlot::Bound(wl_shm), formats: Seq::<u32>::empty() }),
    {
        let r = ShmState { wl_shm: GlobalSlot::Bound(wl_shm), formats: Vec::new() };
        proof {
            assert(r@ =~= ShmModel {
                wl_shm: GlobalSlot::Bound(wl_shm),
                formats: Seq::<u32>::empty(),
            });
        }
        r
    }

    /// The registry collaborator advertised the global: binds the
    /// capability, the slot's one allowed transition.
    pub fn ready(&mut self, wl_shm: u32)
        requires
            old(self)@.wl_shm == GlobalSlot::NotReady,
        ensures
            final(self)@ == (ShmModel { wl_shm: GlobalSlot::Bound(wl_shm), ..old(self)@ }),
    {
        self.wl_shm = GlobalSlot::Bound(wl_shm);
    }

    /// The bound global, or an error while it has not been advertised.
    pub fn wl_shm(&self) -> (r: Result<u32, GlobalError>)
        ensures
            r == match self@.wl_shm {
                GlobalSlot::NotReady => Err::<u32, GlobalError>(GlobalError::NotReady),
                GlobalSlot::Bound(h) => Ok::<u32, GlobalError>(h),
            },
    {
        self.wl_shm.get()
    }

    /// The bound global, for collaborators that need the handle itself.
    pub fn bound_global(&self) -> (r: Result<u32, GlobalError>)
        ensures
            r == match self@.wl_shm {
                GlobalSlot::NotReady => Err::<u32, GlobalError>(GlobalError::NotReady),
                GlobalSlot::Bound(h) => Ok::<u32, GlobalError>(h),
            },
    {
        self.wl_shm.get()
    }

    /// Records a format the compositor advertised.
    pub fn record_format(&mut self, format: u32)
        ensures
            final(self)@ == (ShmModel { formats: old(self)@.formats.push(format), ..old(self)@ }),
    {
        self.formats.push(format);
    }

    /// The formats supported in memory pools, in the order advertised.
    pub fn formats(&self) -> (r: &Vec<u32>)
        ensures
            r@ == self@.formats,
    {
        &self.formats
    }
}

/// An error that may occur when creating a shared-memory pool.
#[derive(Clone, Copy, Debug, PartialEq, Eq, Structural)]
pub enum CreatePoolError {
    /// The shared-memory global is not bound.
    Global(GlobalError),
    /// The operating system refused to allocate the memory; the payload
    /// is the system error number.
    Create(i32),
}

impl From<GlobalError> for CreatePoolError {
    fn from(e: GlobalError) -> (r: CreatePoolError) {
        CreatePoolError::Global(e)
    }
}

impl vstd::std_specs::convert::FromSpecImpl<GlobalError> for CreatePoolError {
    open spec fn obeys_from_spec() -> bool {
        true
    }

    open spec fn from_spec(e: GlobalError) -> CreatePoolError {
        CreatePoolError::Global(e)
    }
}

impl CreatePoolError {
    /// Wraps a system error number from a failed allocation.
    pub fn from_errno(errno: i32) -> (r: CreatePoolError)
        ensures
            r == CreatePoolError::Create(errno),
    {
        CreatePoolError::Create(errno)
    }
}

} // verus!
