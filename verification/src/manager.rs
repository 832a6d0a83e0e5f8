//! The manager facade: the capability entry point that creates outbound
//! sources and hands out per-seat data devices.

use std::collections::HashMap;
use vstd::prelude::*;

use crate::action::ActionSet;
use crate::data_source::created_source;
use crate::data_source::source_registry_inv;
use crate::data_source::CopyPasteSource;
use crate::data_source::DragSource;
use crate::data_source::SourceRegistry;
use crate::data_source::SourceRegistryModel;
use crate::data_source::SourceModel;
use crate::data_source::SourceRole;
use crate::error::GlobalError;
use crate::globals::GlobalSlot;

verus! {

broadcast use vstd::std_specs::hash::group_hash_axioms;

/// The mathematical model of the manager facade.
#[verifier::ext_equal]
pub ghost struct ManagerModel {
    /// The manager capability.
    pub manager: GlobalSlot,
    /// The registry of outbound sources this facade created.
    pub sources: SourceRegistryModel,
    /// The data device bound for each seat.
    pub devices: Map<u32, u32>,
    /// The next device handle to mint.
    pub next_device: u32,
}

/// Facade well-formedness.
pub open spec fn manager_inv(m: ManagerModel) -> bool {
    source_registry_inv(m.sources)
}

/// The manager facade state.
#[derive(Debug)]
pub struct DataDeviceManagerState {
    manager: GlobalSlot,
    sources: SourceRegistry,
    devices: HashMap<u32, u32>,
    next_device: u32,
}

impl View for DataDeviceManagerState {
    type V = ManagerModel;

    closed spec fn view(&self) -> ManagerModel {
        ManagerModel {
            manager: self.manager,
            sources: self.sources@,
            devices: self.devices@,
            next_device: self.next_device,
        }
    }
}

impl DataDeviceManagerState {
    /// A facade whose manager capability is not yet bound.
    pub fn new() -> (r: DataDeviceManagerState)
        ensures
            r@.manager == GlobalSlot::NotReady,
            r@.sources == (SourceRegistryModel {
                entries: Map::<u64, SourceModel>::empty(),
                next_id: 0,
            }),
            r@.devices == Map::<u32, u32>::empty(),
            r@.next_device == 0,
            manager_inv(r@),
    {
        DataDeviceManagerState {
            manager: GlobalSlot::NotReady,
            sources: SourceRegistry::new(),
            devices: HashMap::new(),
            next_device: 0,
        }
    }

    /// The registry collaborator advertised the manager global: binds the
    /// capability, the slot's one allowed transition.
    pub fn ready(&mut self, manager: u32)
        requires
            old(self)@.manager == GlobalSlot::NotReady,
        ensures
            final(self)@ == (ManagerModel { manager: GlobalSlot::Bound(manager), ..old(self)@ }),
    {
        self.manager = GlobalSlot::Bound(manager);
    }

    /// The bound manager handle, or an error while the capability has not
    /// been advertised.
    pub fn data_device_manager(&self) -> (r: Result<u32, GlobalError>)
        ensures
            r == match self@.manager {
                GlobalSlot::NotReady => Err::<u32, GlobalError>(GlobalError::NotReady),
                GlobalSlot::Bound(h) => Ok::<u32, GlobalError>(h),
            },
    {
        self.manager.get()
    }

    /// Creates a copy-paste source advertising the given mime types.
    /// Fails, changing nothing, while the manager is not bound.
    pub fn create_copy_paste_source(&mut self, mime_types: Vec<String>) -> (r: Result<
        CopyPasteSource,
        GlobalError,
    >)
        requires
            manager_inv(old(self)@),
            old(self)@.sources.next_id < u64::MAX,
        ensures
            manager_inv(final(self)@),
            old(self)@.manager is NotReady ==> r == Err::<CopyPasteSource, GlobalError>(
                GlobalError::NotReady,
            ) && final(self)@ == old(self)@,
            old(self)@.manager is Bound ==> {
                &&& r == Ok::<CopyPasteSource, GlobalError>(
                    CopyPasteSource { inner: old(self)@.sources.next_id, serial: None },
                )
                &&& final(self)@ == (ManagerModel {
                    sources: SourceRegistryModel {
                        entries: old(self)@.sources.entries.insert(
                            old(self)@.sources.next_id,
                            created_source(mime_types.deep_view(), SourceRole::CopyPaste, None),
                        ),
                        next_id: (old(self)@.sources.next_id + 1) as u64,
                    },
                    ..old(self)@
                })
            },
    {
        if !self.manager.is_bound() {
            return Err(GlobalError::NotReady);
        }
        let id = self.sources.create(mime_types, SourceRole::CopyPaste, None);
        Ok(CopyPasteSource { inner: id, serial: None })
    }

    /// Creates a drag source advertising the given mime types and action
    /// hint. Fails, changing nothing, while the manager is not bound.
    pub fn create_drag_and_drop_source(
        &mut self,
        mime_types: Vec<String>,
        dnd_actions: ActionSet,
    ) -> (r: Result<DragSource, GlobalError>)
        requires
            manager_inv(old(self)@),
            old(self)@.sources.next_id < u64::MAX,
        ensures
            manager_inv(final(self)@),
            old(self)@.manager is NotReady ==> r == Err::<DragSource, GlobalError>(
                GlobalError::NotReady,
            ) && final(self)@ == old(self)@,
            old(self)@.manager is Bound ==> {
                &&& r == Ok::<DragSource, GlobalError>(
                    DragSource { inner: old(self)@.sources.next_id },
                )
                &&& final(self)@ == (ManagerModel {
                    sources: SourceRegistryModel {
                        entries: old(self)@.sources.entries.insert(
                            old(self)@.sources.next_id,
                            created_source(
                                mime_types.deep_view(),
                                SourceRole::Drag,
                                Some(dnd_actions),
                            ),
                        ),
                        next_id: (old(self)@.sources.next_id + 1) as u64,
                    },
                    ..old(self)@
                })
            },
    {
        if !self.manager.is_bound() {
            return Err(GlobalError::NotReady);
        }
        let id = self.sources.create(mime_types, SourceRole::Drag, Some(dnd_actions));
        Ok(DragSource { inner: id })
    }

    /// The data device for a seat: hands back the existing device when
    /// the seat already has one — a seat sensibly has at most one — and
    /// mints one otherwise. Fails, changing nothing, while the manager is
    /// not bound.
    pub fn get_data_device(&mut self, seat: u32) -> (r: Result<u32, GlobalError>)
        requires
            manager_inv(old(self)@),
            old(self)@.next_device < u32::MAX,
        ensures
            manager_inv(final(self)@),
            old(self)@.manager is NotReady ==> r == Err::<u32, GlobalError>(GlobalError::NotReady)
                && final(self)@ == old(self)@,
            old(self)@.manager is Bound && old(self)@.devices.contains_key(seat) ==> r == Ok::<
                u32,
                GlobalError,
            >(old(self)@.devices[seat]) && final(self)@ == old(self)@,
            old(self)@.manager is Bound && !old(self)@.devices.contains_key(seat) ==> {
                &&& r == Ok::<u32, GlobalError>(old(self)@.next_device)
                &&& final(self)@ == (ManagerModel {
                    devices: old(self)@.devices.insert(seat, old(self)@.next_device),
                    next_device: (old(self)@.next_device + 1) as u32,
                    ..old(self)@
                })
            },
    {
        if !self.manager.is_bound() {
            return Err(GlobalError::NotReady);
        }
        match self.devices.get(&seat) {
            Some(device) => Ok(*device),
            None => {
                let device = self.next_device;
                self.devices.insert(seat, device);
                self.next_device = self.next_device + 1;
                Ok(device)
            },
        }
    }

    /// The device already bound for a seat, if any.
    pub fn device_of(&self, seat: u32) -> (r: Option<u32>)
        ensures
            self@.devices.contains_key(seat) ==> r == Some(self@.devices[seat]),
            !self@.devices.contains_key(seat) ==> r is None,
    {
        match self.devices.get(&seat) {
            Some(device) => Some(*device),
            None => None,
        }
    }

    /// Routes a source cancellation event: removes the source and reports
    /// whether the caller must destroy the remote object.
    pub fn source_cancelled(&mut self, id: u64) -> (destroy: bool)
        requires
            manager_inv(old(self)@),
        ensures
            destroy == old(self)@.sources.entries.contains_key(id),
            final(self)@ == (ManagerModel {
                sources: SourceRegistryModel {
                    entries: old(self)@.sources.entries.remove(id),
                    ..old(self)@.sources
                },
                ..old(self)@
            }),
            manager_inv(final(self)@),
    {
        self.sources.handle_cancelled(id)
    }

    /// Routes the end of a drag for a source: removes it and reports
    /// whether the caller must destroy the remote object.
    pub fn source_dnd_finished(&mut self, id: u64) -> (destroy: bool)
        requires
            manager_inv(old(self)@),
        ensures
            destroy == old(self)@.sources.entries.contains_key(id),
            final(self)@ == (ManagerModel {
                sources: SourceRegistryModel {
                    entries: old(self)@.sources.entries.remove(id),
                    ..old(self)@.sources
                },
                ..old(self)@
            }),
            manager_inv(final(self)@),
    {
        self.sources.handle_dnd_finished(id)
    }

    /// Routes a negotiated-action report for a source.
    pub fn source_action(&mut self, id: u64, actions: ActionSet) -> (ok: bool)
        requires
            manager_inv(old(self)@),
        ensures
            ok == old(self)@.sources.entries.contains_key(id),
            final(self)@ == (ManagerModel {
                sources: crate::data_source::action_reported(old(self)@.sources, id, actions),
                ..old(self)@
            }),
            manager_inv(final(self)@),
    {
        self.sources.handle_action(id, actions)
    }

    /// Whether a source with this handle is live.
    pub fn tracks_source(&self, id: u64) -> (r: bool)
        ensures
            r == self@.sources.entries.contains_key(id),
    {
        self.sources.contains(id)
    }

    /// The mime types a live source advertises, in creation order.
    pub fn source_mimes(&self, id: u64) -> (r: Option<&Vec<String>>)
        ensures
            r is Some <==> self@.sources.entries.contains_key(id),
            r matches Some(v) ==> v.deep_view() == self@.sources.entries[id].mimes,
    {
        self.sources.mimes_of(id)
    }

    /// The action hint a live drag source was created with.
    pub fn source_dnd_actions(&self, id: u64) -> (r: Option<ActionSet>)
        ensures
            self@.sources.entries.contains_key(id) ==> r == self@.sources.entries[id].dnd_actions,
            !self@.sources.entries.contains_key(id) ==> r is None,
    {
        self.sources.dnd_actions_of(id)
    }

    /// Whether a live drag source saw a negotiated action containing
    /// copy.
    pub fn source_accepted_action(&self, id: u64) -> (r: Option<bool>)
        ensures
            self@.sources.entries.contains_key(id) ==> r == Some(
                self@.sources.entries[id].accepted_action,
            ),
            !self@.sources.entries.contains_key(id) ==> r is None,
    {
        self.sources.accepted_action_of(id)
    }

    /// How many sources are live.
    pub fn sources_len(&self) -> (r: usize)
        ensures
            r == self@.sources.entries.len(),
    {
        self.sources.len()
    }
}

} // verus!
