//! The shared-memory global state and its error kinds.

use data_device::CreatePoolError;
use data_device::GlobalError;
use data_device::ShmState;

#[test]
fn shm_capability_fails_until_bound() {
    let mut shm = ShmState::new();
    assert_eq!(shm.wl_shm(), Err(GlobalError::NotReady));
    assert_eq!(shm.bound_global(), Err(GlobalError::NotReady));
    shm.ready(4);
    assert_eq!(shm.wl_shm(), Ok(4));
    assert_eq!(shm.bound_global(), Ok(4));
}

#[test]
fn shm_can_be_built_around_a_bound_global() {
    let shm = ShmState::from_bound(6);
    assert_eq!(shm.wl_shm(), Ok(6));
    assert!(shm.formats().is_empty());
}

#[test]
fn formats_accumulate_in_order() {
    let mut shm = ShmState::new();
    shm.record_format(0);
    shm.record_format(875713089);
    assert_eq!(shm.formats().as_slice(), &[0, 875713089]);
}

#[test]
fn pool_errors_carry_their_cause() {
    let from_global = CreatePoolError::from(GlobalError::NotReady);
    assert_eq!(from_global, CreatePoolError::Global(GlobalError::NotReady));
    let from_errno = CreatePoolError::from_errno(24);
    assert_eq!(from_errno, CreatePoolError::Create(24));
    assert_eq!(GlobalError::NotReady.describe(), "global not ready");
}
