//! Session engine for clipboard ("selection") and drag-and-drop data
//! transfer between a client application and a display-server compositor.
//!
//! The library models offers, sources, and the per-seat data-device
//! session as plain values: offers and sources are tracked in arena-style
//! registries keyed by opaque integer handles, and every "destroy the
//! remote object" decision is surfaced as an explicit value the caller
//! forwards to the transport layer. The transport itself (message
//! delivery, proxy objects) stays outside; byte-stream handoff goes
//! through thin trusted wrappers around pipe system calls.

pub mod action;
pub mod data_device;
pub mod data_source;
pub mod error;
pub mod globals;
pub mod laws;
pub mod manager;
pub mod offer;
pub mod shm;
pub mod transfer;

pub use action::negotiate_action;
pub use action::Action;
pub use action::ActionSet;
pub use data_device::DataDeviceInner;
pub use data_device::DnDDataOffer;
pub use data_source::CopyPasteSource;
pub use data_source::DragSource;
pub use error::GlobalError;
pub use manager::DataDeviceManagerState;
pub use shm::CreatePoolError;
pub use shm::ShmState;
pub use transfer::receive;
pub use transfer::ReadPipe;
