//! The native sharing service's vocabulary, and the conversions between it and
//! the public one. Native enumerations are carried as their `i32`
//! representation, so a value unknown to this binding can still be received
//! and reported.

use vstd::prelude::*;
use crate::bridge;

verus! {

/// Native representation of "no interface type"; it has no public counterpart.
pub const SHARING_NONE: i32 = -1;
pub const SHARING_WIFI: i32 = 0;
pub const SHARING_USB: i32 = 1;
pub const SHARING_BLUETOOTH: i32 = 2;

pub const SHARING_NIC_SERVING: i32 = 1;
pub const SHARING_NIC_CAN_SERVER: i32 = 2;
pub const SHARING_NIC_ERROR: i32 = 3;

/// Native interface type.
#[derive(Clone, Copy, Debug, PartialEq, Eq, Structural)]
pub struct SharingIfaceType {
    pub repr: i32,
}

/// Native interface state.
#[derive(Clone, Copy, Debug, PartialEq, Eq, Structural)]
pub struct SharingIfaceState {
    pub repr: i32,
}

/// Native payload of an interface-sharing-state-change event.
#[derive(Clone, Debug)]
pub struct InterfaceSharingStateInfo {
    pub share_type: SharingIfaceType,
    pub iface: String,
    pub state: SharingIfaceState,
}

/// Native payload of an upstream-change event.
#[derive(Clone, Copy, Debug, PartialEq, Eq, Structural)]
pub struct NetHandle {
    pub net_id: i32,
}

/// A native enumeration value that has no public counterpart: the native
/// service and this binding disagree on the set of values.
#[derive(Clone, Copy, Debug, PartialEq, Eq, Structural)]
pub struct UnmappedValue {
    pub repr: i32,
}

/// Native code of a public interface type.
pub open spec fn iface_type_code(t: bridge::SharingIfaceType) -> i32 {
    match t {
        bridge::SharingIfaceType::SharingWifi => SHARING_WIFI,
        bridge::SharingIfaceType::SharingUsb => SHARING_USB,
        bridge::SharingIfaceType::SharingBluetooth => SHARING_BLUETOOTH,
    }
}

/// Public interface type of a native code, if it has one.
pub open spec fn iface_type_of_code(code: i32) -> Option<bridge::SharingIfaceType> {
    if code == SHARING_WIFI {
        Some(bridge::SharingIfaceType::SharingWifi)
    } else if code == SHARING_USB {
        Some(bridge::SharingIfaceType::SharingUsb)
    } else if code == SHARING_BLUETOOTH {
        Some(bridge::SharingIfaceType::SharingBluetooth)
    } else {
        None
    }
}

/// Native code of a public interface state.
pub open spec fn iface_state_code(s: bridge::SharingIfaceState) -> i32 {
    match s {
        bridge::SharingIfaceState::SharingNicServing => SHARING_NIC_SERVING,
        bridge::SharingIfaceState::SharingNicCanServer => SHARING_NIC_CAN_SERVER,
        bridge::SharingIfaceState::SharingNicError => SHARING_NIC_ERROR,
    }
}

/// Public interface state of a native code, if it has one.
pub open spec fn iface_state_of_code(code: i32) -> Option<bridge::SharingIfaceState> {
    if code == SHARING_NIC_SERVING {
        Some(bridge::SharingIfaceState::SharingNicServing)
    } else if code == SHARING_NIC_CAN_SERVER {
        Some(bridge::SharingIfaceState::SharingNicCanServer)
    } else if code == SHARING_NIC_ERROR {
        Some(bridge::SharingIfaceState::SharingNicError)
    } else {
        None
    }
}

impl From<bridge::SharingIfaceType> for SharingIfaceType {
    fn from(share_type: bridge::SharingIfaceType) -> Self {
        match share_type {
            bridge::SharingIfaceType::SharingWifi => SharingIfaceType { repr: SHARING_WIFI },
            bridge::SharingIfaceType::SharingUsb => SharingIfaceType { repr: SHARING_USB },
            bridge::SharingIfaceType::SharingBluetooth => SharingIfaceType {
                repr: SHARING_BLUETOOTH,
            },
        }
    }
}

impl vstd::std_specs::convert::FromSpecImpl<bridge::SharingIfaceType> for SharingIfaceType {
    open spec fn obeys_from_spec() -> bool {
        true
    }

    open spec fn from_spec(share_type: bridge::SharingIfaceType) -> Self {
        SharingIfaceType { repr: iface_type_code(share_type) }
    }
}

impl From<bridge::SharingIfaceState> for SharingIfaceState {
    fn from(state: bridge::SharingIfaceState) -> Self {
        match state {
            bridge::SharingIfaceState::SharingNicServing => SharingIfaceState {
                repr: SHARING_NIC_SERVING,
            },
            bridge::SharingIfaceState::SharingNicCanServer => SharingIfaceState {
                repr: SHARING_NIC_CAN_SERVER,
            },
            bridge::SharingIfaceState::SharingNicError => SharingIfaceState {
                repr: SHARING_NIC_ERROR,
            },
        }
    }
}

impl vstd::std_specs::convert::FromSpecImpl<bridge::SharingIfaceState> for SharingIfaceState {
    open spec fn obeys_from_spec() -> bool {
        true
    }

    open spec fn from_spec(state: bridge::SharingIfaceState) -> Self {
        SharingIfaceState { repr: iface_state_code(state) }
    }
}

impl From<NetHandle> for bridge::NetHandle {
    fn from(handle: NetHandle) -> Self {
        bridge::NetHandle { net_id: handle.net_id }
    }
}

impl vstd::std_specs::convert::FromSpecImpl<NetHandle> for bridge::NetHandle {
    open spec fn obeys_from_spec() -> bool {
        true
    }

    open spec fn from_spec(handle: NetHandle) -> Self {
        bridge::NetHandle { net_id: handle.net_id }
    }
}

impl SharingIfaceType {
    /// Whether the value has a public counterpart.
    pub open spec fn is_mapped(self) -> bool {
        iface_type_of_code(self.repr) is Some
    }

    /// The public interface type, or the unmapped value.
    pub fn to_public(self) -> (r: Result<bridge::SharingIfaceType, UnmappedValue>)
        ensures
            r == (match iface_type_of_code(self.repr) {
                Some(t) => Ok(t),
                None => Err(UnmappedValue { repr: self.repr }),
            }),
    {
        if self.repr == SHARING_WIFI {
            Ok(bridge::SharingIfaceType::SharingWifi)
        } else if self.repr == SHARING_USB {
            Ok(bridge::SharingIfaceType::SharingUsb)
        } else if self.repr == SHARING_BLUETOOTH {
            Ok(bridge::SharingIfaceType::SharingBluetooth)
        } else {
            Err(UnmappedValue { repr: self.repr })
        }
    }
}

impl SharingIfaceState {
    /// Whether the value has a public counterpart.
    pub open spec fn is_mapped(self) -> bool {
        iface_state_of_code(self.repr) is Some
    }

    /// The public interface state, or the unmapped value.
    pub fn to_public(self) -> (r: Result<bridge::SharingIfaceState, UnmappedValue>)
        ensures
            r == (match iface_state_of_code(self.repr) {
                Some(s) => Ok(s),
                None => Err(UnmappedValue { repr: self.repr }),
            }),
    {
        if self.repr == SHARING_NIC_SERVING {
            Ok(bridge::SharingIfaceState::SharingNicServing)
        } else if self.repr == SHARING_NIC_CAN_SERVER {
            Ok(bridge::SharingIfaceState::SharingNicCanServer)
        } else if self.repr == SHARING_NIC_ERROR {
            Ok(bridge::SharingIfaceState::SharingNicError)
        } else {
            Err(UnmappedValue { repr: self.repr })
        }
    }
}

impl InterfaceSharingStateInfo {
    /// Whether both enumerations of the record have public counterparts.
    pub open spec fn is_mapped(&self) -> bool {
        self.share_type.is_mapped() && self.state.is_mapped()
    }

    /// Exec form of `is_mapped`.
    pub fn mapped(&self) -> (r: bool)
        ensures
            r == self.is_mapped(),
    {
        self.share_type.to_public().is_ok() && self.state.to_public().is_ok()
    }

    /// The field-wise public record, or the first unmapped enumeration value
    /// (the interface type is looked at before the state).
    pub fn to_public(self) -> (r: Result<bridge::InterfaceSharingStateInfo, UnmappedValue>)
        ensures
            r is Ok <==> self.is_mapped(),
            r matches Ok(p) ==> p.matches_native(&self),
            r matches Err(u) ==> u.repr == (if !self.share_type.is_mapped() {
                self.share_type.repr
            } else {
                self.state.repr
            }),
    {
        let share_type = match self.share_type.to_public() {
            Ok(t) => t,
            Err(u) => {
                return Err(u);
            },
        };
        let state = match self.state.to_public() {
            Ok(s) => s,
            Err(u) => {
                return Err(u);
            },
        };
        Ok(bridge::InterfaceSharingStateInfo { share_type, iface: self.iface, state })
    }
}

impl bridge::InterfaceSharingStateInfo {
    /// The record is the field-wise transcription of `info`.
    pub open spec fn matches_native(&self, info: &InterfaceSharingStateInfo) -> bool {
        &&& iface_type_of_code(info.share_type.repr) == Some(self.share_type)
        &&& self.iface@ == info.iface@
        &&& iface_state_of_code(info.state.repr) == Some(self.state)
    }
}

/// Every public enumeration value survives the trip to its native encoding and
/// back, and distinct public values have distinct native encodings.
pub proof fn lemma_enum_round_trip(t: bridge::SharingIfaceType, s: bridge::SharingIfaceState)
    ensures
        iface_type_of_code(iface_type_code(t)) == Some(t),
        iface_state_of_code(iface_state_code(s)) == Some(s),
        forall|t2: bridge::SharingIfaceType|
            iface_type_code(t2) == iface_type_code(t) ==> t2 == t,
        forall|s2: bridge::SharingIfaceState|
            iface_state_code(s2) == iface_state_code(s) ==> s2 == s,
{
}

} // verus!
