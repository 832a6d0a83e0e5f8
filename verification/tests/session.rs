//! The data-device session state machine, driven event by event.

use data_device::data_device::DataDeviceInner;
use data_device::data_device::DnDDataOffer;
use data_device::data_device::DropInfo;
use data_device::data_device::MotionInfo;
use data_device::Action;
use data_device::ActionSet;

#[test]
fn data_offer_mints_increasing_serials() {
    let mut session = DataDeviceInner::new();
    assert_eq!(session.handle_data_offer(7), Some(0));
    assert_eq!(session.handle_data_offer(9), Some(1));
    assert_eq!(session.handle_data_offer(11), Some(2));
    assert!(session.tracks_offer(7));
    assert!(session.tracks_offer(9));
    assert!(session.tracks_offer(11));
}

#[test]
fn duplicate_data_offer_is_ignored() {
    let mut session = DataDeviceInner::new();
    assert_eq!(session.handle_data_offer(7), Some(0));
    assert_eq!(session.handle_data_offer(7), None);
    assert_eq!(session.handle_data_offer(8), Some(1));
}

#[test]
fn enter_surfaces_accumulated_mimes_in_order() {
    let mut session = DataDeviceInner::new();
    session.handle_data_offer(7);
    assert!(session.record_mime(7, String::from("text/plain")));
    assert!(session.record_mime(7, String::from("text/html")));
    let destroyed = session.handle_enter(1, 5, 2560, 5120, Some(7));
    assert_eq!(destroyed, None);
    let drag = session.drag_state().unwrap();
    assert_eq!(drag.data_offer, Some(7));
    let mimes = session.offer_mimes(7).unwrap();
    assert_eq!(mimes.len(), 2);
    assert_eq!(mimes[0], "text/plain");
    assert_eq!(mimes[1], "text/html");
}

#[test]
fn recording_a_duplicate_mime_keeps_one_copy() {
    let mut session = DataDeviceInner::new();
    session.handle_data_offer(7);
    assert!(session.record_mime(7, String::from("text/plain")));
    assert!(session.record_mime(7, String::from("text/plain")));
    let mimes = session.offer_mimes(7).unwrap();
    assert_eq!(mimes.len(), 1);
    assert_eq!(mimes[0], "text/plain");
}

#[test]
fn recording_for_an_unknown_offer_fails_and_changes_nothing() {
    let mut session = DataDeviceInner::new();
    assert!(!session.record_mime(7, String::from("text/plain")));
    assert_eq!(session.offer_mimes(7), None);
}

#[test]
fn drop_after_enter_reports_full_context() {
    let mut session = DataDeviceInner::new();
    assert_eq!(session.handle_data_offer(7), Some(0));
    assert!(session.record_mime(7, String::from("text/plain")));
    assert_eq!(session.handle_enter(1, 5, 2560, 5120, Some(7)), None);
    let mimes = session.offer_mimes(7).unwrap();
    assert_eq!(mimes.len(), 1);
    assert_eq!(mimes[0], "text/plain");
    let drop = session.handle_drop().unwrap();
    assert_eq!(
        drop,
        DropInfo { offer: 7, serial: 1, surface: 5, x: 2560, y: 5120, time: None }
    );
}

#[test]
fn motion_updates_position_and_time() {
    let mut session = DataDeviceInner::new();
    session.handle_data_offer(7);
    session.handle_enter(1, 5, 2560, 5120, Some(7));
    let report = session.handle_motion(42, 2816, 5376);
    assert_eq!(report, Some(MotionInfo { offer: 7, time: 42, x: 2816, y: 5376 }));
    assert_eq!(
        session.drag_state(),
        Some(DnDDataOffer {
            data_offer: Some(7),
            serial: 1,
            surface: 5,
            x: 2816,
            y: 5376,
            time: Some(42),
        })
    );
    let drop = session.handle_drop().unwrap();
    assert_eq!(drop.time, Some(42));
    assert_eq!(drop.x, 2816);
}

#[test]
fn motion_without_a_drag_is_ignored() {
    let mut session = DataDeviceInner::new();
    assert_eq!(session.handle_motion(42, 1, 2), None);
    assert_eq!(session.drag_state(), None);
}

#[test]
fn motion_on_a_bare_enter_is_ignored() {
    let mut session = DataDeviceInner::new();
    session.handle_enter(1, 5, 2560, 5120, None);
    assert_eq!(session.handle_motion(42, 2816, 5376), None);
    // the bare drag state keeps the position it was entered with
    let drag = session.drag_state().unwrap();
    assert_eq!(drag.data_offer, None);
    assert_eq!(drag.x, 2560);
    assert_eq!(drag.time, None);
}

#[test]
fn enter_with_an_unknown_offer_is_tracked_bare() {
    let mut session = DataDeviceInner::new();
    session.handle_enter(9, 6, 0, 0, Some(33));
    let drag = session.drag_state().unwrap();
    assert_eq!(drag.data_offer, None);
    assert_eq!(drag.serial, 9);
    assert_eq!(drag.surface, 6);
    assert_eq!(session.handle_drop(), None);
}

#[test]
fn leave_destroys_the_drag_offer_and_quiesces() {
    let mut session = DataDeviceInner::new();
    session.handle_data_offer(7);
    session.handle_enter(1, 5, 0, 0, Some(7));
    assert_eq!(session.handle_leave(), Some(7));
    assert!(!session.tracks_offer(7));
    assert_eq!(session.drag_state(), None);
    // a stale motion or drop afterwards is a no-op with no report
    assert_eq!(session.handle_motion(42, 1, 2), None);
    assert_eq!(session.handle_drop(), None);
    // and a second leave destroys nothing
    assert_eq!(session.handle_leave(), None);
}

#[test]
fn enter_replaces_and_destroys_the_previous_drag_offer() {
    let mut session = DataDeviceInner::new();
    session.handle_data_offer(7);
    session.handle_data_offer(8);
    session.handle_enter(1, 5, 0, 0, Some(7));
    let destroyed = session.handle_enter(2, 5, 0, 0, Some(8));
    assert_eq!(destroyed, Some(7));
    assert!(!session.tracks_offer(7));
    assert_eq!(session.drag_state().unwrap().data_offer, Some(8));
}

#[test]
fn selection_replaces_then_clears() {
    let mut session = DataDeviceInner::new();
    session.handle_data_offer(1);
    session.handle_data_offer(2);
    assert_eq!(session.handle_selection(Some(1)), None);
    assert_eq!(session.selection(), Some(1));
    // installing the second offer destroys the first
    assert_eq!(session.handle_selection(Some(2)), Some(1));
    assert!(!session.tracks_offer(1));
    assert_eq!(session.selection(), Some(2));
    // clearing destroys the second and leaves the selection empty
    assert_eq!(session.handle_selection(None), Some(2));
    assert!(!session.tracks_offer(2));
    assert_eq!(session.selection(), None);
}

#[test]
fn clearing_the_selection_twice_is_safe() {
    let mut session = DataDeviceInner::new();
    session.handle_data_offer(1);
    session.handle_selection(Some(1));
    assert_eq!(session.handle_selection(None), Some(1));
    // the second clear destroys nothing and changes nothing
    assert_eq!(session.handle_selection(None), None);
    assert_eq!(session.selection(), None);
}

#[test]
fn selection_of_an_unknown_offer_leaves_the_selection_empty() {
    let mut session = DataDeviceInner::new();
    session.handle_data_offer(1);
    session.handle_selection(Some(1));
    let destroyed = session.handle_selection(Some(99));
    assert_eq!(destroyed, Some(1));
    assert_eq!(session.selection(), None);
}

#[test]
fn release_offer_destroys_exactly_once_and_clears_the_slot() {
    let mut session = DataDeviceInner::new();
    session.handle_data_offer(7);
    session.handle_enter(1, 5, 0, 0, Some(7));
    session.handle_drop().unwrap();
    // the application finished with the offer and releases it
    assert!(session.release_offer(7));
    assert_eq!(session.drag_state(), None);
    assert!(!session.tracks_offer(7));
    // a second release finds nothing to destroy
    assert!(!session.release_offer(7));
}

#[test]
fn offer_actions_are_recorded() {
    let mut session = DataDeviceInner::new();
    session.handle_data_offer(7);
    assert_eq!(session.offer_source_actions(7), None);
    let advertised = ActionSet { copy: true, mv: true, ask: false };
    assert!(session.record_source_actions(7, advertised));
    assert_eq!(session.offer_source_actions(7), Some(advertised));
    assert_eq!(session.offer_negotiated_action(7), None);
    assert!(session.record_negotiated_action(7, Action::Copy));
    assert_eq!(session.offer_negotiated_action(7), Some(Action::Copy));
    // recording for an unknown offer fails
    assert!(!session.record_source_actions(8, advertised));
    assert!(!session.record_negotiated_action(8, Action::Copy));
}
