//! Session-wide laws: proved once, over the session's model transitions.

use vstd::prelude::*;

use crate::data_device::drag_offer;
use crate::data_device::entered;
use crate::data_device::left;
use crate::data_device::mime_recorded;
use crate::data_device::motion_report;
use crate::data_device::moved;
use crate::data_device::offer_announced;
use crate::data_device::drop_report;
use crate::data_device::selection_set;
use crate::data_device::session_inv;
use crate::data_device::SessionModel;

verus! {

/// After an offer is announced and two distinct mime types recorded, an
/// `enter` that names it installs it as the concrete drag offer, and the
/// session reports exactly those mime types, in insertion order.
pub proof fn lemma_enter_surfaces_recorded_mimes(
    s: SessionModel,
    id: u32,
    m1: Seq<char>,
    m2: Seq<char>,
    serial: u32,
    surface: u32,
    x: i32,
    y: i32,
)
    requires
        session_inv(s),
        !s.offers.contains_key(id),
        s.serial < u32::MAX,
        m1 != m2,
    ensures
        ({
            let s1 = offer_announced(s, id);
            let s2 = mime_recorded(s1, id, m1);
            let s3 = mime_recorded(s2, id, m2);
            let s4 = entered(s3, serial, surface, x, y, Some(id));
            &&& drag_offer(s4) == Some(id)
            &&& s4.offers.contains_key(id)
            &&& s4.offers[id].mimes == seq![m1, m2]
        }),
{
    let s1 = offer_announced(s, id);
    let s2 = mime_recorded(s1, id, m1);
    let s3 = mime_recorded(s2, id, m2);
    let s4 = entered(s3, serial, surface, x, y, Some(id));
    assert(s3.offers[id].mimes =~= seq![m1, m2]);
    assert(s4.offers[id].mimes =~= seq![m1, m2]);
}

/// `leave` always releases the previously held drag offer — it was live,
/// and is live no longer — and afterwards `motion` and `drop` are no-ops
/// that report nothing.
pub proof fn lemma_leave_destroys_and_quiesces(s: SessionModel, time: u32, x: i32, y: i32)
    requires
        session_inv(s),
    ensures
        ({
            let s1 = left(s);
            &&& s1.dnd is None
            &&& (drag_offer(s) matches Some(o) ==> s.offers.contains_key(o)
                && !s1.offers.contains_key(o))
            &&& moved(s1, time, x, y) == s1
            &&& motion_report(s1, time, x, y) is None
            &&& drop_report(s1) is None
        }),
{
}

/// Replacing the selection destroys the previous holder as part of
/// installing the new one, and clearing it afterwards destroys that one
/// and leaves the selection empty. Each offer is released exactly once:
/// it is live before its release and gone after it.
pub proof fn lemma_selection_replace_then_clear(s: SessionModel, a: u32, b: u32)
    requires
        session_inv(s),
        s.offers.contains_key(a),
        s.offers.contains_key(b),
        a != b,
        drag_offer(s) != Some(a),
        drag_offer(s) != Some(b),
        s.selection != Some(a),
        s.selection != Some(b),
    ensures
        ({
            let s1 = selection_set(s, Some(a));
            let s2 = selection_set(s1, Some(b));
            let s3 = selection_set(s2, None);
            &&& s1.selection == Some(a)
            &&& s1.offers.contains_key(a)
            &&& s2.selection == Some(b)
            &&& !s2.offers.contains_key(a)
            &&& s3.selection is None
            &&& !s3.offers.contains_key(b)
        }),
{
}

/// Clearing the selection twice in a row is safe: the first clear
/// releases the held offer (if any), and the second changes nothing and
/// releases nothing — no offer is ever destroyed twice.
pub proof fn lemma_selection_clear_idempotent(s: SessionModel)
    requires
        session_inv(s),
    ensures
        ({
            let s1 = selection_set(s, None);
            &&& s1.selection is None
            &&& (s.selection matches Some(o) ==> s.offers.contains_key(o)
                && !s1.offers.contains_key(o))
            &&& selection_set(s1, None) == s1
        }),
{
}

} // verus!
