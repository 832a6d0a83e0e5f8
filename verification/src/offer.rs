//! The offer registry: bookkeeping for inbound data offers.
//!
//! Each offer the compositor announces is tracked under its protocol
//! object id. Mime types accumulate in insertion order (without
//! duplicates), the source's advertised action set is recorded when it
//! arrives, and the negotiated action once negotiation completes. All
//! mutation is monotonic until `release`, which removes the entry; an
//! operation on a released (or never registered) id reports failure and
//! changes nothing.

use std::collections::HashMap;
use vstd::prelude::*;

use crate::action::Action;
use crate::action::ActionSet;

verus! {

broadcast use vstd::std_specs::hash::group_hash_axioms;

/// Per-offer user data. The transport layer attaches one to every
/// protocol offer object it creates.
#[derive(Debug, Default)]
pub struct DataOfferData {}

/// Access to the [`DataOfferData`] inside a larger user-data type.
pub trait DataOfferDataExt: Send + Sync {
    fn data_offer_data(&self) -> &DataOfferData;
}

impl DataOfferDataExt for DataOfferData {
    fn data_offer_data(&self) -> &DataOfferData {
        self
    }
}

/// The mathematical model of one tracked offer.
#[verifier::ext_equal]
pub ghost struct OfferModel {
    /// Advertised mime types, in the order the remote side offered them.
    pub mimes: Seq<Seq<char>>,
    /// The action set the remote source advertised, once it arrived.
    pub source_actions: Option<ActionSet>,
    /// The single action chosen by negotiation, once it completed.
    pub negotiated_action: Option<Action>,
}

impl OfferModel {
    /// A freshly announced offer: nothing recorded yet.
    pub open spec fn fresh() -> OfferModel {
        OfferModel { mimes: Seq::empty(), source_actions: None, negotiated_action: None }
    }
}

/// Whether `mimes` already holds the mime type `m`.
pub open spec fn has_mime(mimes: Seq<Seq<char>>, m: Seq<char>) -> bool {
    exists|i: int| 0 <= i < mimes.len() && mimes[i] == m
}

/// The model after recording mime type `m`: appended unless present.
pub open spec fn with_mime(o: OfferModel, m: Seq<char>) -> OfferModel {
    if has_mime(o.mimes, m) {
        o
    } else {
        OfferModel { mimes: o.mimes.push(m), ..o }
    }
}

/// The model after recording the source's advertised action set.
pub open spec fn with_source_actions(o: OfferModel, a: ActionSet) -> OfferModel {
    OfferModel { source_actions: Some(a), ..o }
}

/// The model after recording the negotiated action.
pub open spec fn with_negotiated_action(o: OfferModel, a: Action) -> OfferModel {
    OfferModel { negotiated_action: Some(a), ..o }
}

/// One tracked inbound offer.
#[derive(Debug)]
pub struct Offer {
    mime_types: Vec<String>,
    source_actions: Option<ActionSet>,
    negotiated_action: Option<Action>,
}

impl View for Offer {
    type V = OfferModel;

    closed spec fn view(&self) -> OfferModel {
        OfferModel {
            mimes: self.mime_types.deep_view(),
            source_actions: self.source_actions,
            negotiated_action: self.negotiated_action,
        }
    }
}

impl Offer {
    fn fresh() -> (r: Offer)
        ensures
            r@ == OfferModel::fresh(),
    {
        let r = Offer { mime_types: Vec::new(), source_actions: None, negotiated_action: None };
        proof {
            assert(r@.mimes =~= OfferModel::fresh().mimes);
            assert(r@ =~= OfferModel::fresh());
        }
        r
    }

    /// Whether `mime` is already among the recorded mime types.
    fn holds_mime(&self, mime: &String) -> (r: bool)
        ensures
            r == has_mime(self@.mimes, mime@),
    {
        let mut i: usize = 0;
        while i < self.mime_types.len()
            invariant
                0 <= i <= self.mime_types.len(),
                forall|j: int| 0 <= j < i ==> self@.mimes[j] != mime@,
            decreases self.mime_types.len() - i,
        {
            if self.mime_types[i] == *mime {
                assert(self@.mimes[i as int] == mime@);
                return true;
            }
            i += 1;
        }
        false
    }
}

/// Arena of live offers, keyed by the compositor-issued object id.
#[derive(Debug)]
pub struct OfferRegistry {
    offers: HashMap<u32, Offer>,
}

impl View for OfferRegistry {
    type V = Map<u32, OfferModel>;

    closed spec fn view(&self) -> Map<u32, OfferModel> {
        self.offers@.map_values(|o: Offer| o@)
    }
}

impl OfferRegistry {
    /// An empty registry.
    pub fn new() -> (r: OfferRegistry)
        ensures
            r@ == Map::<u32, OfferModel>::empty(),
    {
        let r = OfferRegistry { offers: HashMap::new() };
        proof {
            assert(r@ =~= Map::<u32, OfferModel>::empty());
        }
        r
    }

    /// Whether an offer with this id is tracked.
    pub fn contains(&self, id: u32) -> (r: bool)
        ensures
            r == self@.contains_key(id),
    {
        let r = self.offers.contains_key(&id);
        proof {
            assert(self@.contains_key(id) == self.offers@.contains_key(id));
        }
        r
    }

    /// Starts tracking a newly announced offer. Reports `false`, changing
    /// nothing, if the id is already tracked (a compositor would not
    /// reuse a live id; the event is ignored defensively).
    pub fn register(&mut self, id: u32) -> (fresh: bool)
        ensures
            fresh == !old(self)@.contains_key(id),
            fresh ==> final(self)@ == old(self)@.insert(id, OfferModel::fresh()),
            !fresh ==> final(self)@ == old(self)@,
    {
        if self.contains(id) {
            return false;
        }
        let ghost pre = self.offers@;
        self.offers.insert(id, Offer::fresh());
        proof {
            assert(self@ =~= pre.map_values(|o: Offer| o@).insert(id, OfferModel::fresh()));
        }
        true
    }

    /// Records a mime type for a tracked offer, keeping insertion order
    /// and skipping a duplicate. Reports `false`, changing nothing, when
    /// the id is not tracked.
    pub fn record_mime(&mut self, id: u32, mime: String) -> (ok: bool)
        ensures
            ok == old(self)@.contains_key(id),
            ok ==> final(self)@ == old(self)@.insert(id, with_mime(old(self)@[id], mime@)),
            !ok ==> final(self)@ == old(self)@,
    {
        let ghost pre = self.offers@;
        match self.offers.remove(&id) {
            Some(mut offer) => {
                let ghost model = offer@;
                if !offer.holds_mime(&mime) {
                    offer.mime_types.push(mime);
                    proof {
                        assert(offer@.mimes =~= model.mimes.push(mime@));
                    }
                }
                assert(offer@ == with_mime(model, mime@));
                self.offers.insert(id, offer);
                proof {
                    assert(self@ =~= pre.map_values(|o: Offer| o@).insert(
                        id,
                        with_mime(pre.map_values(|o: Offer| o@)[id], mime@),
                    ));
                }
                true
            },
            None => {
                proof {
                    assert(self@ =~= pre.map_values(|o: Offer| o@));
                }
                false
            },
        }
    }

    /// Records the action set the remote source advertised. Reports
    /// `false`, changing nothing, when the id is not tracked.
    pub fn record_source_actions(&mut self, id: u32, actions: ActionSet) -> (ok: bool)
        ensures
            ok == old(self)@.contains_key(id),
            ok ==> final(self)@ == old(self)@.insert(
                id,
                with_source_actions(old(self)@[id], actions),
            ),
            !ok ==> final(self)@ == old(self)@,
    {
        let ghost pre = self.offers@;
        match self.offers.remove(&id) {
            Some(mut offer) => {
                offer.source_actions = Some(actions);
                self.offers.insert(id, offer);
                proof {
                    assert(self@ =~= pre.map_values(|o: Offer| o@).insert(
                        id,
                        with_source_actions(pre.map_values(|o: Offer| o@)[id], actions),
                    ));
                }
                true
            },
            None => {
                proof {
                    assert(self@ =~= pre.map_values(|o: Offer| o@));
                }
                false
            },
        }
    }

    /// Records the action negotiation settled on. Reports `false`,
    /// changing nothing, when the id is not tracked.
    pub fn record_negotiated_action(&mut self, id: u32, action: Action) -> (ok: bool)
        ensures
            ok == old(self)@.contains_key(id),
            ok ==> final(self)@ == old(self)@.insert(
                id,
                with_negotiated_action(old(self)@[id], action),
            ),
            !ok ==> final(self)@ == old(self)@,
    {
        let ghost pre = self.offers@;
        match self.offers.remove(&id) {
            Some(mut offer) => {
                offer.negotiated_action = Some(action);
                self.offers.insert(id, offer);
                proof {
                    assert(self@ =~= pre.map_values(|o: Offer| o@).insert(
                        id,
                        with_negotiated_action(pre.map_values(|o: Offer| o@)[id], action),
                    ));
                }
                true
            },
            None => {
                proof {
                    assert(self@ =~= pre.map_values(|o: Offer| o@));
                }
                false
            },
        }
    }

    /// Stops tracking an offer. The caller is responsible for emitting
    /// the destroy request for the remote object when this reports
    /// `true`; a released or unknown id reports `false` and changes
    /// nothing, so the remote object is never destroyed twice.
    pub fn release(&mut self, id: u32) -> (was: bool)
        ensures
            was == old(self)@.contains_key(id),
            final(self)@ == old(self)@.remove(id),
    {
        let ghost pre = self.offers@;
        let r = self.offers.remove(&id);
        proof {
            assert(self@ =~= pre.map_values(|o: Offer| o@).remove(id));
        }
        r.is_some()
    }

    /// The mime types recorded so far for a tracked offer, in insertion
    /// order.
    pub fn mimes_of(&self, id: u32) -> (r: Option<&Vec<String>>)
        ensures
            r is Some <==> self@.contains_key(id),
            r matches Some(v) ==> v.deep_view() == self@[id].mimes,
    {
        proof {
            assert(self@.contains_key(id) == self.offers@.contains_key(id));
        }
        match self.offers.get(&id) {
            Some(offer) => Some(&offer.mime_types),
            None => None,
        }
    }

    /// The action set the source advertised for a tracked offer, if it
    /// arrived yet.
    pub fn source_actions_of(&self, id: u32) -> (r: Option<ActionSet>)
        ensures
            self@.contains_key(id) ==> r == self@[id].source_actions,
            !self@.contains_key(id) ==> r is None,
    {
        proof {
            assert(self@.contains_key(id) == self.offers@.contains_key(id));
        }
        match self.offers.get(&id) {
            Some(offer) => offer.source_actions,
            None => None,
        }
    }

    /// The negotiated action for a tracked offer, if negotiation
    /// completed.
    pub fn negotiated_action_of(&self, id: u32) -> (r: Option<Action>)
        ensures
            self@.contains_key(id) ==> r == self@[id].negotiated_action,
            !self@.contains_key(id) ==> r is None,
    {
        proof {
            assert(self@.contains_key(id) == self.offers@.contains_key(id));
        }
        match self.offers.get(&id) {
            Some(offer) => offer.negotiated_action,
            None => None,
        }
    }

    /// How many offers are tracked.
    pub fn len(&self) -> (r: usize)
        ensures
            r == self@.len(),
    {
        proof {
            assert(self@.dom() =~= self.offers@.dom());
        }
        self.offers.len()
    }
}

} // verus!
