//! The source registry: bookkeeping for outbound data sources created by
//! this client, and the thin per-source handles the application keeps.
//!
//! A source is registered at creation and removed exactly once — on the
//! compositor's cancellation event or when a drag finishes — whereupon
//! the caller destroys the remote object. Removal-before-destroy keeps a
//! double destroy structurally impossible.

use std::collections::HashMap;
use vstd::prelude::*;

use crate::action::ActionSet;

verus! {

broadcast use vstd::std_specs::hash::group_hash_axioms;

/// Per-source user data. The transport layer attaches one to every
/// protocol source object it creates.
#[derive(Debug, Default)]
pub struct DataSourceData {}

/// Access to the [`DataSourceData`] inside a larger user-data type.
pub trait DataSourceDataExt: Send + Sync {
    fn data_source_data(&self) -> &DataSourceData;
}

impl DataSourceDataExt for DataSourceData {
    fn data_source_data(&self) -> &DataSourceData {
        self
    }
}

/// What a source was created for.
#[derive(Clone, Copy, Debug, PartialEq, Eq, Structural)]
pub enum SourceRole {
    CopyPaste,
    Drag,
}

/// The mathematical model of one registered source.
#[verifier::ext_equal]
pub ghost struct SourceModel {
    /// Mime types advertised at creation, immutable afterwards.
    pub mimes: Seq<Seq<char>>,
    pub role: SourceRole,
    /// The action hint a drag source was created with.
    pub dnd_actions: Option<ActionSet>,
    /// Whether the compositor reported a negotiated action containing
    /// copy (drag sources only).
    pub accepted_action: bool,
}

/// One registered outbound source.
#[derive(Debug)]
pub struct SourceEntry {
    mime_types: Vec<String>,
    role: SourceRole,
    dnd_actions: Option<ActionSet>,
    accepted_action: bool,
}

impl View for SourceEntry {
    type V = SourceModel;

    closed spec fn view(&self) -> SourceModel {
        SourceModel {
            mimes: self.mime_types.deep_view(),
            role: self.role,
            dnd_actions: self.dnd_actions,
            accepted_action: self.accepted_action,
        }
    }
}

/// The mathematical model of the source registry.
#[verifier::ext_equal]
pub ghost struct SourceRegistryModel {
    pub entries: Map<u64, SourceModel>,
    pub next_id: u64,
}

/// Registry well-formedness: every live handle is below the next one to
/// mint, so a minted handle is always fresh.
pub open spec fn source_registry_inv(m: SourceRegistryModel) -> bool {
    forall|k: u64| #[trigger] m.entries.contains_key(k) ==> k < m.next_id
}

/// The model of a source created with the given data.
pub open spec fn created_source(
    mimes: Seq<Seq<char>>,
    role: SourceRole,
    dnd_actions: Option<ActionSet>,
) -> SourceModel {
    SourceModel { mimes, role, dnd_actions, accepted_action: false }
}

/// The model after the compositor reported negotiated actions `a` for
/// source `id`: a drag source records whether copy was accepted.
pub open spec fn action_reported(m: SourceRegistryModel, id: u64, a: ActionSet) -> SourceRegistryModel {
    if m.entries.contains_key(id) && m.entries[id].role == SourceRole::Drag && a.copy {
        SourceRegistryModel {
            entries: m.entries.insert(id, SourceModel { accepted_action: true, ..m.entries[id] }),
            ..m
        }
    } else {
        m
    }
}

/// Arena of live outbound sources, keyed by locally minted handles.
#[derive(Debug)]
pub struct SourceRegistry {
    entries: HashMap<u64, SourceEntry>,
    next_id: u64,
}

impl View for SourceRegistry {
    type V = SourceRegistryModel;

    closed spec fn view(&self) -> SourceRegistryModel {
        SourceRegistryModel {
            entries: self.entries@.map_values(|e: SourceEntry| e@),
            next_id: self.next_id,
        }
    }
}

impl SourceRegistry {
    /// An empty registry; handles are minted from 0.
    pub fn new() -> (r: SourceRegistry)
        ensures
            r@ == (SourceRegistryModel { entries: Map::<u64, SourceModel>::empty(), next_id: 0 }),
            source_registry_inv(r@),
    {
        let r = SourceRegistry { entries: HashMap::new(), next_id: 0 };
        proof {
            assert(r@.entries =~= Map::<u64, SourceModel>::empty());
            assert(r@ =~= SourceRegistryModel {
                entries: Map::<u64, SourceModel>::empty(),
                next_id: 0,
            });
        }
        r
    }

    /// Registers a new source and mints its handle.
    pub fn create(
        &mut self,
        mime_types: Vec<String>,
        role: SourceRole,
        dnd_actions: Option<ActionSet>,
    ) -> (id: u64)
        requires
            source_registry_inv(old(self)@),
            old(self)@.next_id < u64::MAX,
        ensures
            id == old(self)@.next_id,
            !old(self)@.entries.contains_key(id),
            final(self)@ == (SourceRegistryModel {
                entries: old(self)@.entries.insert(
                    id,
                    created_source(mime_types.deep_view(), role, dnd_actions),
                ),
                next_id: (old(self)@.next_id + 1) as u64,
            }),
            source_registry_inv(final(self)@),
    {
        let id = self.next_id;
        let ghost pre = self.entries@;
        self.entries.insert(
            id,
            SourceEntry { mime_types, role, dnd_actions, accepted_action: false },
        );
        self.next_id = self.next_id + 1;
        proof {
            assert(self@.entries =~= pre.map_values(|e: SourceEntry| e@).insert(
                id,
                created_source(self.entries@[id].mime_types.deep_view(), role, dnd_actions),
            ));
        }
        id
    }

    /// Removes a source from the registry. Reports `true` exactly when
    /// the handle was live: the caller then destroys the remote object —
    /// once, since a second removal reports `false`.
    pub fn remove(&mut self, id: u64) -> (was: bool)
        requires
            source_registry_inv(old(self)@),
        ensures
            was == old(self)@.entries.contains_key(id),
            final(self)@ == (SourceRegistryModel {
                entries: old(self)@.entries.remove(id),
                ..old(self)@
            }),
            source_registry_inv(final(self)@),
    {
        let ghost pre = self.entries@;
        let r = self.entries.remove(&id);
        proof {
            assert(self@.entries =~= pre.map_values(|e: SourceEntry| e@).remove(id));
        }
        r.is_some()
    }

    /// Handles the compositor's cancellation event for source `id`: the
    /// entry is removed before any destroy request is issued. Reports
    /// `true` exactly when the caller must destroy the remote object.
    pub fn handle_cancelled(&mut self, id: u64) -> (destroy: bool)
        requires
            source_registry_inv(old(self)@),
        ensures
            destroy == old(self)@.entries.contains_key(id),
            final(self)@ == (SourceRegistryModel {
                entries: old(self)@.entries.remove(id),
                ..old(self)@
            }),
            source_registry_inv(final(self)@),
    {
        self.remove(id)
    }

    /// Handles the end of a drag for source `id`: the source has served
    /// its purpose and is removed. Reports `true` exactly when the caller
    /// must destroy the remote object.
    pub fn handle_dnd_finished(&mut self, id: u64) -> (destroy: bool)
        requires
            source_registry_inv(old(self)@),
        ensures
            destroy == old(self)@.entries.contains_key(id),
            final(self)@ == (SourceRegistryModel {
                entries: old(self)@.entries.remove(id),
                ..old(self)@
            }),
            source_registry_inv(final(self)@),
    {
        self.remove(id)
    }

    /// Handles the compositor reporting negotiated actions for source
    /// `id`: a live drag source records an accepted copy action. Reports
    /// whether the handle was live.
    pub fn handle_action(&mut self, id: u64, actions: ActionSet) -> (ok: bool)
        requires
            source_registry_inv(old(self)@),
        ensures
            ok == old(self)@.entries.contains_key(id),
            final(self)@ == action_reported(old(self)@, id, actions),
            source_registry_inv(final(self)@),
    {
        let ghost pre = self.entries@;
        match self.entries.remove(&id) {
            Some(mut entry) => {
                let is_drag = match entry.role {
                    SourceRole::Drag => true,
                    SourceRole::CopyPaste => false,
                };
                if is_drag && actions.copy {
                    entry.accepted_action = true;
                }
                self.entries.insert(id, entry);
                proof {
                    let f = |e: SourceEntry| e@;
                    assert(self@.entries =~= if pre.map_values(f)[id].role == SourceRole::Drag
                        && actions.copy {
                        pre.map_values(f).insert(
                            id,
                            SourceModel { accepted_action: true, ..pre.map_values(f)[id] },
                        )
                    } else {
                        pre.map_values(f)
                    });
                }
                true
            },
            None => {
                proof {
                    assert(self@.entries =~= pre.map_values(|e: SourceEntry| e@));
                }
                false
            },
        }
    }

    /// Whether a source with this handle is live.
    pub fn contains(&self, id: u64) -> (r: bool)
        ensures
            r == self@.entries.contains_key(id),
    {
        let r = self.entries.contains_key(&id);
        proof {
            assert(self@.entries.contains_key(id) == self.entries@.contains_key(id));
        }
        r
    }

    /// The mime types a live source advertises, in creation order.
    pub fn mimes_of(&self, id: u64) -> (r: Option<&Vec<String>>)
        ensures
            r is Some <==> self@.entries.contains_key(id),
            r matches Some(v) ==> v.deep_view() == self@.entries[id].mimes,
    {
        proof {
            assert(self@.entries.contains_key(id) == self.entries@.contains_key(id));
        }
        match self.entries.get(&id) {
            Some(entry) => Some(&entry.mime_types),
            None => None,
        }
    }

    /// A live source's role.
    pub fn role_of(&self, id: u64) -> (r: Option<SourceRole>)
        ensures
            self@.entries.contains_key(id) ==> r == Some(self@.entries[id].role),
            !self@.entries.contains_key(id) ==> r is None,
    {
        proof {
            assert(self@.entries.contains_key(id) == self.entries@.contains_key(id));
        }
        match self.entries.get(&id) {
            Some(entry) => Some(entry.role),
            None => None,
        }
    }

    /// The action hint a live drag source was created with.
    pub fn dnd_actions_of(&self, id: u64) -> (r: Option<ActionSet>)
        ensures
            self@.entries.contains_key(id) ==> r == self@.entries[id].dnd_actions,
            !self@.entries.contains_key(id) ==> r is None,
    {
        proof {
            assert(self@.entries.contains_key(id) == self.entries@.contains_key(id));
        }
        match self.entries.get(&id) {
            Some(entry) => entry.dnd_actions,
            None => None,
        }
    }

    /// Whether a live drag source saw a negotiated action containing
    /// copy.
    pub fn accepted_action_of(&self, id: u64) -> (r: Option<bool>)
        ensures
            self@.entries.contains_key(id) ==> r == Some(self@.entries[id].accepted_action),
            !self@.entries.contains_key(id) ==> r is None,
    {
        proof {
            assert(self@.entries.contains_key(id) == self.entries@.contains_key(id));
        }
        match self.entries.get(&id) {
            Some(entry) => Some(entry.accepted_action),
            None => None,
        }
    }

    /// How many sources are live.
    pub fn len(&self) -> (r: usize)
        ensures
            r == self@.entries.len(),
    {
        proof {
            assert(self@.entries.dom() =~= self.entries@.dom());
        }
        self.entries.len()
    }
}

/// A request to set or clear the selection, to be forwarded to the
/// transport layer: `source` names the outbound source (none clears),
/// `serial` the interaction serial that licenses the request.
#[derive(Clone, Copy, Debug, PartialEq, Eq, Structural)]
pub struct SetSelectionRequest {
    pub source: Option<u64>,
    pub serial: u32,
}

/// A request to start a drag, to be forwarded to the transport layer. A
/// request without a source starts an internal drag, whose data never
/// leaves the client.
#[derive(Clone, Copy, Debug, PartialEq, Eq, Structural)]
pub struct StartDragRequest {
    pub source: Option<u64>,
    pub origin: u32,
    pub icon: Option<u32>,
    pub serial: u32,
}

/// The application's handle on a copy-paste source.
#[derive(Clone, Copy, Debug, PartialEq, Eq, Structural)]
pub struct CopyPasteSource {
    /// The registry handle of the underlying source.
    pub inner: u64,
    /// The serial used to set the selection, recorded so the selection
    /// can later be unset with the same serial.
    pub serial: Option<u32>,
}

impl CopyPasteSource {
    /// Sets the selection to this source, recording the serial for a
    /// later unset.
    pub fn set_selection(&mut self, serial: u32) -> (r: SetSelectionRequest)
        ensures
            r == (SetSelectionRequest { source: Some(old(self).inner), serial }),
            *final(self) == (CopyPasteSource { serial: Some(serial), ..*old(self) }),
    {
        self.serial = Some(serial);
        SetSelectionRequest { source: Some(self.inner), serial }
    }

    /// Unsets the selection, using the serial recorded when it was set;
    /// nothing to request when the selection was never set.
    pub fn unset_selection(&self) -> (r: Option<SetSelectionRequest>)
        ensures
            r == match self.serial {
                Some(s) => Some(SetSelectionRequest { source: None, serial: s }),
                None => None::<SetSelectionRequest>,
            },
    {
        match self.serial {
            Some(s) => Some(SetSelectionRequest { source: None, serial: s }),
            None => None,
        }
    }

    /// The registry handle of the underlying source.
    pub fn inner(&self) -> (r: u64)
        ensures
            r == self.inner,
    {
        self.inner
    }
}

/// The application's handle on a drag source.
#[derive(Clone, Copy, Debug, PartialEq, Eq, Structural)]
pub struct DragSource {
    /// The registry handle of the underlying source.
    pub inner: u64,
}

impl DragSource {
    /// Starts a drag-and-drop operation from `origin`, licensed by
    /// `serial`, optionally with a drag icon surface.
    pub fn start_drag(&self, origin: u32, icon: Option<u32>, serial: u32) -> (r: StartDragRequest)
        ensures
            r == (StartDragRequest { source: Some(self.inner), origin, icon, serial }),
    {
        StartDragRequest { source: Some(self.inner), origin, icon, serial }
    }

    /// Starts an internal drag: no source is named, so only enter, leave
    /// and motion will be delivered, and the client passes data itself.
    pub fn start_internal_drag(origin: u32, icon: Option<u32>, serial: u32) -> (r: StartDragRequest)
        ensures
            r == (StartDragRequest { source: None, origin, icon, serial }),
    {
        StartDragRequest { source: None, origin, icon, serial }
    }

    /// The registry handle of the underlying source.
    pub fn inner(&self) -> (r: u64)
        ensures
            r == self.inner,
    {
        self.inner
    }
}

} // verus!
