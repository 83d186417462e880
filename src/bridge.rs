//! The public vocabulary handed to and returned from the managed runtime.

use vstd::prelude::*;

verus! {

/// State of a network interface with respect to sharing.
#[derive(Clone, Copy, Debug, PartialEq, Eq, Structural)]
pub enum SharingIfaceState {
    SharingNicServing,
    SharingNicCanServer,
    SharingNicError,
}

/// Kind of interface over which connectivity is shared.
#[derive(Clone, Copy, Debug, PartialEq, Eq, Structural)]
pub enum SharingIfaceType {
    SharingWifi,
    SharingUsb,
    SharingBluetooth,
}

/// Payload of an interface-sharing-state-change event.
#[derive(Clone, Debug)]
pub struct InterfaceSharingStateInfo {
    pub share_type: SharingIfaceType,
    pub iface: String,
    pub state: SharingIfaceState,
}

/// Payload of an upstream-change event: the handle of the upstream network.
#[derive(Clone, Copy, Debug, PartialEq, Eq, Structural)]
pub struct NetHandle {
    pub net_id: i32,
}

} // verus!
