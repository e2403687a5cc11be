//! Control layer for a dynamically loaded WebSocket transport backend.
//!
//! The backend owns the wire protocol; this library owns the decisions around
//! it: which entry points must be present, the settings descriptor and its
//! release, the endpoint lifecycle, the frame-send protocol, and how inbound
//! events are rendered for the application.
pub mod trace;
pub mod settings;
pub mod report;
pub mod frame;
pub mod events;
pub mod lifecycle;
pub mod backend;
