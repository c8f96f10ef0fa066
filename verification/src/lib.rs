//! Verified core of an audio-routing daemon built on PipeWire: the shared
//! value types, the default-device tracker, the parsers for registry
//! properties, the bookkeeping store that decides what to announce
//! upstream when objects come and go, and the profile's routing and
//! hardware-attachment rules.

pub mod shared;
pub mod text;
pub mod default_device;
pub mod id_map;
pub mod media;
pub mod events;
pub mod registry;
pub mod json;
pub mod store;
pub mod profile;
pub mod routing;
pub mod daemon;
pub mod layout;
