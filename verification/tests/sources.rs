//! The manager facade and the source registry.

use data_device::data_source::SetSelectionRequest;
use data_device::data_source::StartDragRequest;
use data_device::ActionSet;
use data_device::DataDeviceManagerState;
use data_device::DragSource;
use data_device::GlobalError;

#[test]
fn facade_fails_while_the_manager_is_not_bound() {
    let mut manager = DataDeviceManagerState::new();
    assert_eq!(manager.data_device_manager(), Err(GlobalError::NotReady));
    assert_eq!(
        manager.create_copy_paste_source(vec![String::from("text/plain")]),
        Err(GlobalError::NotReady)
    );
    assert_eq!(manager.get_data_device(3), Err(GlobalError::NotReady));
}

#[test]
fn facade_works_once_the_manager_is_bound() {
    let mut manager = DataDeviceManagerState::new();
    manager.ready(12);
    assert_eq!(manager.data_device_manager(), Ok(12));
}

#[test]
fn get_data_device_is_idempotent_per_seat() {
    let mut manager = DataDeviceManagerState::new();
    manager.ready(12);
    let first = manager.get_data_device(3).unwrap();
    let again = manager.get_data_device(3).unwrap();
    assert_eq!(first, again);
    assert_eq!(manager.device_of(3), Some(first));
    let other = manager.get_data_device(4).unwrap();
    assert_ne!(first, other);
    assert_eq!(manager.device_of(5), None);
}

#[test]
fn cancelled_copy_paste_source_is_removed_exactly_once() {
    let mut manager = DataDeviceManagerState::new();
    manager.ready(12);
    let source = manager
        .create_copy_paste_source(vec![String::from("text/plain")])
        .unwrap();
    let id = source.inner();
    assert!(manager.tracks_source(id));
    assert_eq!(manager.sources_len(), 1);
    let mimes = manager.source_mimes(id).unwrap();
    assert_eq!(mimes.len(), 1);
    assert_eq!(mimes[0], "text/plain");
    // the cancellation removes the entry and asks for one destroy
    assert!(manager.source_cancelled(id));
    assert!(!manager.tracks_source(id));
    assert_eq!(manager.sources_len(), 0);
    // a second cancellation destroys nothing
    assert!(!manager.source_cancelled(id));
}

#[test]
fn copy_paste_selection_serial_round_trip() {
    let mut manager = DataDeviceManagerState::new();
    manager.ready(12);
    let mut source = manager
        .create_copy_paste_source(vec![String::from("text/plain")])
        .unwrap();
    // before any set, there is nothing to unset
    assert_eq!(source.unset_selection(), None);
    let request = source.set_selection(41);
    assert_eq!(request, SetSelectionRequest { source: Some(source.inner()), serial: 41 });
    // the unset reuses the recorded serial and names no source
    assert_eq!(
        source.unset_selection(),
        Some(SetSelectionRequest { source: None, serial: 41 })
    );
}

#[test]
fn drag_source_records_an_accepted_copy_action() {
    let mut manager = DataDeviceManagerState::new();
    manager.ready(12);
    let hint = ActionSet { copy: true, mv: true, ask: false };
    let source = manager
        .create_drag_and_drop_source(vec![String::from("text/plain")], hint)
        .unwrap();
    let id = source.inner();
    assert_eq!(manager.source_dnd_actions(id), Some(hint));
    assert_eq!(manager.source_accepted_action(id), Some(false));
    // a negotiated action without copy changes nothing
    assert!(manager.source_action(id, ActionSet { copy: false, mv: true, ask: false }));
    assert_eq!(manager.source_accepted_action(id), Some(false));
    // one containing copy marks the source accepted
    assert!(manager.source_action(id, ActionSet { copy: true, mv: false, ask: false }));
    assert_eq!(manager.source_accepted_action(id), Some(true));
    // reports for unknown sources fail
    assert!(!manager.source_action(id + 1, hint));
}

#[test]
fn finished_drag_source_is_removed_exactly_once() {
    let mut manager = DataDeviceManagerState::new();
    manager.ready(12);
    let hint = ActionSet { copy: true, mv: false, ask: false };
    let source = manager
        .create_drag_and_drop_source(vec![String::from("text/uri-list")], hint)
        .unwrap();
    let id = source.inner();
    assert!(manager.source_dnd_finished(id));
    assert!(!manager.tracks_source(id));
    assert!(!manager.source_dnd_finished(id));
}

#[test]
fn start_drag_requests_name_the_source_and_serial() {
    let mut manager = DataDeviceManagerState::new();
    manager.ready(12);
    let hint = ActionSet { copy: true, mv: false, ask: false };
    let source = manager
        .create_drag_and_drop_source(vec![String::from("text/plain")], hint)
        .unwrap();
    let request = source.start_drag(8, Some(9), 77);
    assert_eq!(
        request,
        StartDragRequest { source: Some(source.inner()), origin: 8, icon: Some(9), serial: 77 }
    );
    let internal = DragSource::start_internal_drag(8, None, 78);
    assert_eq!(internal, StartDragRequest { source: None, origin: 8, icon: None, serial: 78 });
}

#[test]
fn source_handles_are_minted_fresh() {
    let mut manager = DataDeviceManagerState::new();
    manager.ready(12);
    let a = manager
        .create_copy_paste_source(vec![String::from("text/plain")])
        .unwrap();
    let b = manager
        .create_copy_paste_source(vec![String::from("text/html")])
        .unwrap();
    assert_ne!(a.inner(), b.inner());
    assert_eq!(manager.sources_len(), 2);
}
