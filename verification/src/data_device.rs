//! The per-seat data-device session: the central state machine.
//!
//! Two sub-machines share one offer arena and one local serial counter.
//! The selection sub-machine holds at most one offer and replaces it
//! atomically, destroying the previous holder. The drag-destination
//! sub-machine is created by `enter`, loops on `motion`, is read by
//! `drop`, and is torn down by `leave`. Every "destroy the remote offer"
//! decision is returned as the id to destroy; the transport layer maps
//! ids back to protocol objects and emits the requests.
//!
//! Positions are signed 24.8 fixed-point values, the protocol's own wire
//! unit for pointer coordinates.

use vstd::prelude::*;

use crate::action::Action;
use crate::action::ActionSet;
use crate::offer::with_mime;
use crate::offer::with_negotiated_action;
use crate::offer::with_source_actions;
use crate::offer::OfferModel;
use crate::offer::OfferRegistry;

verus! {

/// The drag-destination state between `enter` and `leave`/`drop`.
#[derive(Clone, Copy, Debug, PartialEq, Eq, Structural)]
pub struct DnDDataOffer {
    /// The concrete offer being dragged, when one is tracked.
    pub data_offer: Option<u32>,
    /// The interaction serial supplied at `enter` time.
    pub serial: u32,
    /// The destination surface under the pointer.
    pub surface: u32,
    /// Last known pointer position (24.8 fixed-point).
    pub x: i32,
    pub y: i32,
    /// Timestamp of the last motion; absent until the first motion.
    pub time: Option<u32>,
}

/// What `motion` reports to the application when a concrete offer is
/// being dragged.
#[derive(Clone, Copy, Debug, PartialEq, Eq, Structural)]
pub struct MotionInfo {
    pub offer: u32,
    pub time: u32,
    pub x: i32,
    pub y: i32,
}

/// The full drop context handed to the application on `drop`.
#[derive(Clone, Copy, Debug, PartialEq, Eq, Structural)]
pub struct DropInfo {
    pub offer: u32,
    pub serial: u32,
    pub surface: u32,
    pub x: i32,
    pub y: i32,
    /// Absent when no motion occurred since `enter`.
    pub time: Option<u32>,
}

/// The mathematical model of a session.
#[verifier::ext_equal]
pub ghost struct SessionModel {
    /// Live offers, keyed by protocol object id.
    pub offers: Map<u32, OfferModel>,
    /// The drag-destination sub-machine, when entered.
    pub dnd: Option<DnDDataOffer>,
    /// The offer currently held as the selection.
    pub selection: Option<u32>,
    /// The next local serial to mint for an announced offer.
    pub serial: u32,
}

/// The id of the offer the drag sub-machine holds, if a concrete one.
pub open spec fn drag_offer(s: SessionModel) -> Option<u32> {
    match s.dnd {
        Some(d) => d.data_offer,
        None => None,
    }
}

/// Session well-formedness: each slot holds a live offer, and the two
/// slots never hold the same one — so releasing a slot's offer always
/// removes a live arena entry, and no offer is ever destroyed twice.
pub open spec fn session_inv(s: SessionModel) -> bool {
    &&& match s.selection {
        Some(id) => s.offers.contains_key(id),
        None => true,
    }
    &&& match drag_offer(s) {
        Some(id) => s.offers.contains_key(id) && s.selection != Some(id),
        None => true,
    }
}

/// The model after a `data_offer` announcement: a fresh entry and a
/// freshly minted local serial, unless the id is already live (then the
/// announcement is ignored defensively).
pub open spec fn offer_announced(s: SessionModel, id: u32) -> SessionModel {
    if s.offers.contains_key(id) {
        s
    } else {
        SessionModel {
            offers: s.offers.insert(id, OfferModel::fresh()),
            serial: (s.serial + 1) as u32,
            ..s
        }
    }
}

/// The local serial minted for the announcement, or none when ignored.
pub open spec fn offer_announced_serial(s: SessionModel, id: u32) -> Option<u32> {
    if s.offers.contains_key(id) {
        None
    } else {
        Some(s.serial)
    }
}

/// The arena after the drag slot's offer (if any) has been released.
pub open spec fn offers_after_drag_release(s: SessionModel) -> Map<u32, OfferModel> {
    match drag_offer(s) {
        Some(o) => s.offers.remove(o),
        None => s.offers,
    }
}

/// The concrete offer an `enter` installs: the announced id when it is
/// live (and not the selection's), otherwise none — a bare enter.
pub open spec fn enter_concrete(s: SessionModel, id: Option<u32>) -> Option<u32> {
    match id {
        Some(i) => if offers_after_drag_release(s).contains_key(i) && s.selection != Some(i) {
            Some(i)
        } else {
            None
        },
        None => None,
    }
}

/// The model after an `enter` event: the previous drag offer is
/// released, and a fresh drag state installed.
pub open spec fn entered(
    s: SessionModel,
    serial: u32,
    surface: u32,
    x: i32,
    y: i32,
    id: Option<u32>,
) -> SessionModel {
    SessionModel {
        offers: offers_after_drag_release(s),
        dnd: Some(
            DnDDataOffer {
                data_offer: enter_concrete(s, id),
                serial,
                surface,
                x,
                y,
                time: None,
            },
        ),
        ..s
    }
}

/// The model after a `leave` event: drag state torn down, its offer
/// released.
pub open spec fn left(s: SessionModel) -> SessionModel {
    SessionModel { offers: offers_after_drag_release(s), dnd: None, ..s }
}

/// The model after a `motion` event: position and time updated when the
/// event applies, unchanged otherwise.
pub open spec fn moved(s: SessionModel, time: u32, x: i32, y: i32) -> SessionModel {
    match s.dnd {
        Some(d) => if d.data_offer is Some {
            SessionModel { dnd: Some(DnDDataOffer { x, y, time: Some(time), ..d }), ..s }
        } else {
            s
        },
        None => s,
    }
}

/// What a `motion` event reports: the update, only when it applies.
pub open spec fn motion_report(s: SessionModel, time: u32, x: i32, y: i32) -> Option<MotionInfo> {
    match s.dnd {
        Some(d) => match d.data_offer {
            Some(o) => Some(MotionInfo { offer: o, time, x, y }),
            None => None,
        },
        None => None,
    }
}

/// What a `drop` event reports: the full drop context, only when a
/// concrete offer is being dragged.
pub open spec fn drop_report(s: SessionModel) -> Option<DropInfo> {
    match s.dnd {
        Some(d) => match d.data_offer {
            Some(o) => Some(
                DropInfo {
                    offer: o,
                    serial: d.serial,
                    surface: d.surface,
                    x: d.x,
                    y: d.y,
                    time: d.time,
                },
            ),
            None => None,
        },
        None => None,
    }
}

/// The arena after the selection's offer (if any) has been released.
pub open spec fn offers_after_selection_release(s: SessionModel) -> Map<u32, OfferModel> {
    match s.selection {
        Some(o) => s.offers.remove(o),
        None => s.offers,
    }
}

/// The offer a `selection` event installs: the announced id when it is
/// live (and not the drag slot's), otherwise none.
pub open spec fn selection_installed(s: SessionModel, id: Option<u32>) -> Option<u32> {
    match id {
        Some(i) => if offers_after_selection_release(s).contains_key(i) && drag_offer(s)
            != Some(i) {
            Some(i)
        } else {
            None
        },
        None => None,
    }
}

/// The model after a `selection` event: the previous holder is released,
/// then the announced offer (if any) installed.
pub open spec fn selection_set(s: SessionModel, id: Option<u32>) -> SessionModel {
    SessionModel {
        offers: offers_after_selection_release(s),
        selection: selection_installed(s, id),
        ..s
    }
}

/// The model after an explicit release of offer `id` by its owner: the
/// arena entry is removed and whichever slot held it is cleared.
pub open spec fn offer_released(s: SessionModel, id: u32) -> SessionModel {
    SessionModel {
        offers: s.offers.remove(id),
        dnd: if drag_offer(s) == Some(id) {
            None
        } else {
            s.dnd
        },
        selection: if s.selection == Some(id) {
            None
        } else {
            s.selection
        },
        ..s
    }
}

/// The model after a mime type is recorded for offer `id`.
pub open spec fn mime_recorded(s: SessionModel, id: u32, m: Seq<char>) -> SessionModel {
    if s.offers.contains_key(id) {
        SessionModel { offers: s.offers.insert(id, with_mime(s.offers[id], m)), ..s }
    } else {
        s
    }
}

/// The model after the source's advertised actions are recorded for
/// offer `id`.
pub open spec fn source_actions_recorded(s: SessionModel, id: u32, a: ActionSet) -> SessionModel {
    if s.offers.contains_key(id) {
        SessionModel { offers: s.offers.insert(id, with_source_actions(s.offers[id], a)), ..s }
    } else {
        s
    }
}

/// The model after the negotiated action is recorded for offer `id`.
pub open spec fn action_recorded(s: SessionModel, id: u32, a: Action) -> SessionModel {
    if s.offers.contains_key(id) {
        SessionModel {
            offers: s.offers.insert(id, with_negotiated_action(s.offers[id], a)),
            ..s
        }
    } else {
        s
    }
}

/// The per-seat session state: the offer arena, the two sub-machines'
/// slots, and the local serial counter.
#[derive(Debug)]
pub struct DataDeviceInner {
    offers: OfferRegistry,
    dnd_data_offer: Option<DnDDataOffer>,
    selection: Option<u32>,
    serial: u32,
}

impl View for DataDeviceInner {
    type V = SessionModel;

    closed spec fn view(&self) -> SessionModel {
        SessionModel {
            offers: self.offers@,
            dnd: self.dnd_data_offer,
            selection: self.selection,
            serial: self.serial,
        }
    }
}

impl DataDeviceInner {
    /// A fresh session: no offers, both slots empty, serials start at 0.
    pub fn new() -> (r: DataDeviceInner)
        ensures
            r@ == (SessionModel {
                offers: Map::<u32, OfferModel>::empty(),
                dnd: None,
                selection: None,
                serial: 0,
            }),
            session_inv(r@),
    {
        DataDeviceInner {
            offers: OfferRegistry::new(),
            dnd_data_offer: None,
            selection: None,
            serial: 0,
        }
    }

    /// Handles a `data_offer` announcement: starts tracking the offer and
    /// mints its local serial, which the application is notified with
    /// before any mime types are known. An id that is already live is
    /// ignored defensively and reported as `None`.
    pub fn handle_data_offer(&mut self, id: u32) -> (r: Option<u32>)
        requires
            session_inv(old(self)@),
            old(self)@.serial < u32::MAX,
        ensures
            final(self)@ == offer_announced(old(self)@, id),
            r == offer_announced_serial(old(self)@, id),
            session_inv(final(self)@),
    {
        if self.offers.register(id) {
            let minted = self.serial;
            self.serial = self.serial + 1;
            proof {
                assert(self@ =~= offer_announced(old(self)@, id));
            }
            Some(minted)
        } else {
            proof {
                assert(self@ =~= old(self)@);
            }
            None
        }
    }

    /// Handles an `enter` event: the previously held drag offer (if any)
    /// is released — its id is returned so the caller destroys the remote
    /// object — and a fresh drag state is installed. When the announced
    /// id is not live the enter is tracked bare, with no concrete offer.
    pub fn handle_enter(
        &mut self,
        serial: u32,
        surface: u32,
        x: i32,
        y: i32,
        id: Option<u32>,
    ) -> (destroyed: Option<u32>)
        requires
            session_inv(old(self)@),
        ensures
            final(self)@ == entered(old(self)@, serial, surface, x, y, id),
            destroyed == drag_offer(old(self)@),
            destroyed matches Some(o) ==> old(self)@.offers.contains_key(o),
            session_inv(final(self)@),
    {
        let destroyed = match self.dnd_data_offer {
            Some(d) => d.data_offer,
            None => None,
        };
        if let Some(o) = destroyed {
            self.offers.release(o);
        }
        let concrete = match id {
            Some(i) => {
                if self.offers.contains(i) && self.selection != Some(i) {
                    Some(i)
                } else {
                    None
                }
            },
            None => None,
        };
        self.dnd_data_offer = Some(
            DnDDataOffer { data_offer: concrete, serial, surface, x, y, time: None },
        );
        proof {
            assert(self@ =~= entered(old(self)@, serial, surface, x, y, id));
        }
        destroyed
    }

    /// Handles a `leave` event: tears the drag state down unconditionally
    /// and releases the held offer, whose id is returned so the caller
    /// destroys the remote object.
    pub fn handle_leave(&mut self) -> (destroyed: Option<u32>)
        requires
            session_inv(old(self)@),
        ensures
            final(self)@ == left(old(self)@),
            destroyed == drag_offer(old(self)@),
            destroyed matches Some(o) ==> old(self)@.offers.contains_key(o),
            session_inv(final(self)@),
    {
        let destroyed = match self.dnd_data_offer {
            Some(d) => d.data_offer,
            None => None,
        };
        if let Some(o) = destroyed {
            self.offers.release(o);
        }
        self.dnd_data_offer = None;
        proof {
            assert(self@ =~= left(old(self)@));
        }
        destroyed
    }

    /// Handles a `motion` event: updates position and time only when a
    /// drag state exists and holds a concrete offer; otherwise the event
    /// is ignored defensively and nothing is reported.
    pub fn handle_motion(&mut self, time: u32, x: i32, y: i32) -> (r: Option<MotionInfo>)
        requires
            session_inv(old(self)@),
        ensures
            final(self)@ == moved(old(self)@, time, x, y),
            r == motion_report(old(self)@, time, x, y),
            session_inv(final(self)@),
    {
        match self.dnd_data_offer {
            Some(d) => match d.data_offer {
                Some(o) => {
                    self.dnd_data_offer = Some(
                        DnDDataOffer { x, y, time: Some(time), ..d },
                    );
                    proof {
                        assert(self@ =~= moved(old(self)@, time, x, y));
                    }
                    Some(MotionInfo { offer: o, time, x, y })
                },
                None => None,
            },
            None => None,
        }
    }

    /// Handles a `drop` event: reads the session without mutating it and
    /// hands back the full drop context, or nothing when no concrete
    /// offer is being dragged (the event is then ignored defensively).
    pub fn handle_drop(&self) -> (r: Option<DropInfo>)
        ensures
            r == drop_report(self@),
    {
        match self.dnd_data_offer {
            Some(d) => match d.data_offer {
                Some(o) => Some(
                    DropInfo {
                        offer: o,
                        serial: d.serial,
                        surface: d.surface,
                        x: d.x,
                        y: d.y,
                        time: d.time,
                    },
                ),
                None => None,
            },
            None => None,
        }
    }

    /// Handles a `selection` event: atomically replaces or clears the
    /// held selection. The previous holder (if any) is released first and
    /// its id returned so the caller destroys the remote object; an
    /// announced id that is not live leaves the selection empty.
    pub fn handle_selection(&mut self, id: Option<u32>) -> (destroyed: Option<u32>)
        requires
            session_inv(old(self)@),
        ensures
            final(self)@ == selection_set(old(self)@, id),
            destroyed == old(self)@.selection,
            destroyed matches Some(o) ==> old(self)@.offers.contains_key(o),
            session_inv(final(self)@),
    {
        let destroyed = self.selection;
        if let Some(o) = destroyed {
            self.offers.release(o);
        }
        let drag = match self.dnd_data_offer {
            Some(d) => d.data_offer,
            None => None,
        };
        self.selection = match id {
            Some(i) => {
                if self.offers.contains(i) && drag != Some(i) {
                    Some(i)
                } else {
                    None
                }
            },
            None => None,
        };
        proof {
            assert(self@ =~= selection_set(old(self)@, id));
        }
        destroyed
    }

    /// Explicitly releases offer `id` — the owner is done with it (for
    /// example after finishing a drop). The arena entry is removed, the
    /// slot that held it is cleared, and `true` reports that the caller
    /// must destroy the remote object; `false` means the id was not live
    /// and nothing changed, so nothing is destroyed twice.
    pub fn release_offer(&mut self, id: u32) -> (was: bool)
        requires
            session_inv(old(self)@),
        ensures
            final(self)@ == offer_released(old(self)@, id),
            was == old(self)@.offers.contains_key(id),
            session_inv(final(self)@),
    {
        let was = self.offers.release(id);
        let drag = match self.dnd_data_offer {
            Some(d) => d.data_offer,
            None => None,
        };
        if drag == Some(id) {
            self.dnd_data_offer = None;
        }
        if self.selection == Some(id) {
            self.selection = None;
        }
        proof {
            assert(self@ =~= offer_released(old(self)@, id));
        }
        was
    }

    /// Records a mime type announced for offer `id`; reports whether the
    /// offer is live. Mime types accumulate in insertion order.
    pub fn record_mime(&mut self, id: u32, mime: String) -> (ok: bool)
        requires
            session_inv(old(self)@),
        ensures
            final(self)@ == mime_recorded(old(self)@, id, mime@),
            ok == old(self)@.offers.contains_key(id),
            session_inv(final(self)@),
    {
        let ok = self.offers.record_mime(id, mime);
        proof {
            assert(self@ =~= mime_recorded(old(self)@, id, mime@));
        }
        ok
    }

    /// Records the action set the remote source advertised for offer
    /// `id`; reports whether the offer is live.
    pub fn record_source_actions(&mut self, id: u32, actions: ActionSet) -> (ok: bool)
        requires
            session_inv(old(self)@),
        ensures
            final(self)@ == source_actions_recorded(old(self)@, id, actions),
            ok == old(self)@.offers.contains_key(id),
            session_inv(final(self)@),
    {
        let ok = self.offers.record_source_actions(id, actions);
        proof {
            assert(self@ =~= source_actions_recorded(old(self)@, id, actions));
        }
        ok
    }

    /// Records the action negotiation settled on for offer `id`; reports
    /// whether the offer is live.
    pub fn record_negotiated_action(&mut self, id: u32, action: Action) -> (ok: bool)
        requires
            session_inv(old(self)@),
        ensures
            final(self)@ == action_recorded(old(self)@, id, action),
            ok == old(self)@.offers.contains_key(id),
            session_inv(final(self)@),
    {
        let ok = self.offers.record_negotiated_action(id, action);
        proof {
            assert(self@ =~= action_recorded(old(self)@, id, action));
        }
        ok
    }

    /// The next local serial that `handle_data_offer` would mint.
    pub fn next_serial(&self) -> (r: u32)
        ensures
            r == self@.serial,
    {
        self.serial
    }

    /// The offer currently held as the selection.
    pub fn selection(&self) -> (r: Option<u32>)
        ensures
            r == self@.selection,
    {
        self.selection
    }

    /// The drag-destination state, when entered.
    pub fn drag_state(&self) -> (r: Option<DnDDataOffer>)
        ensures
            r == self@.dnd,
    {
        self.dnd_data_offer
    }

    /// Whether offer `id` is live.
    pub fn tracks_offer(&self, id: u32) -> (r: bool)
        ensures
            r == self@.offers.contains_key(id),
    {
        self.offers.contains(id)
    }

    /// The mime types recorded so far for offer `id`, in insertion order.
    pub fn offer_mimes(&self, id: u32) -> (r: Option<&Vec<String>>)
        ensures
            r is Some <==> self@.offers.contains_key(id),
            r matches Some(v) ==> v.deep_view() == self@.offers[id].mimes,
    {
        self.offers.mimes_of(id)
    }

    /// The action set the source advertised for offer `id`, once known.
    pub fn offer_source_actions(&self, id: u32) -> (r: Option<ActionSet>)
        ensures
            self@.offers.contains_key(id) ==> r == self@.offers[id].source_actions,
            !self@.offers.contains_key(id) ==> r is None,
    {
        self.offers.source_actions_of(id)
    }

    /// The negotiated action for offer `id`, once negotiation completed.
    pub fn offer_negotiated_action(&self, id: u32) -> (r: Option<Action>)
        ensures
            self@.offers.contains_key(id) ==> r == self@.offers[id].negotiated_action,
            !self@.offers.contains_key(id) ==> r is None,
    {
        self.offers.negotiated_action_of(id)
    }
}

} // verus!
