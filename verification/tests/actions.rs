//! Action sets and negotiation.

use data_device::negotiate_action;
use data_device::Action;
use data_device::ActionSet;

#[test]
fn copy_and_move_restricted_to_copy_negotiates_copy() {
    let source = ActionSet { copy: true, mv: true, ask: false };
    let dest = ActionSet { copy: true, mv: false, ask: false };
    assert_eq!(negotiate_action(&source, &dest), Some(Action::Copy));
}

#[test]
fn empty_intersection_negotiates_nothing() {
    let source = ActionSet { copy: true, mv: false, ask: false };
    let dest = ActionSet { copy: false, mv: true, ask: true };
    assert_eq!(negotiate_action(&source, &dest), None);
    assert!(source.intersect(&dest).is_empty());
}

#[test]
fn copy_is_preferred_over_move_over_ask() {
    let all = ActionSet { copy: true, mv: true, ask: true };
    assert_eq!(negotiate_action(&all, &all), Some(Action::Copy));
    let no_copy = ActionSet { copy: false, mv: true, ask: true };
    assert_eq!(negotiate_action(&all, &no_copy), Some(Action::Move));
    let ask_only = ActionSet { copy: false, mv: false, ask: true };
    assert_eq!(negotiate_action(&all, &ask_only), Some(Action::Ask));
}

#[test]
fn intersect_and_contains_are_pointwise() {
    let a = ActionSet { copy: true, mv: true, ask: false };
    let b = ActionSet { copy: false, mv: true, ask: true };
    let both = a.intersect(&b);
    assert_eq!(both, ActionSet { copy: false, mv: true, ask: false });
    assert!(!both.contains(Action::Copy));
    assert!(both.contains(Action::Move));
    assert!(!both.contains(Action::Ask));
    assert!(!both.is_empty());
    assert!(ActionSet::none().is_empty());
}
