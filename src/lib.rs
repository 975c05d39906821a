//! Client-side state machine for the tablet input protocol: a registry of
//! tablets, tools and pads, per-frame coalescing of stylus samples, and the
//! events handed to the event sink.

use vstd::prelude::*;

pub mod cursor;
pub mod event;
pub mod pad;
pub mod table;
pub mod tablet;
pub mod tool;

verus! {

/// Identity of an input device. The protocol gives no per-device identity to
/// the rest of the library, so every tablet event carries this one value.
#[derive(Debug, Copy, Clone, PartialEq, Eq, PartialOrd, Ord, Hash, Structural)]
pub struct DeviceId;

impl DeviceId {
    /// The one device identity.
    pub fn dummy() -> (r: DeviceId)
        ensures
            r == DeviceId,
    {
        DeviceId
    }
}

} // verus!
