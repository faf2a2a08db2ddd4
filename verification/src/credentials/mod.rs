//! What a device can do, and how it says so.
pub mod capability_protocol;
pub mod capability_registry;
pub mod device_capability;
