//! Interpretation of the native sharing service's replies.
//!
//! Every native query or command reports an `i32` status, zero meaning
//! success, and hands its result back through out-parameters. The calls
//! themselves are made by the embedding layer; the functions here take what a
//! call reported and turn it into a `Result` whose error is the non-zero
//! status, so that no success is ever reported as an error.

use vstd::prelude::*;
use crate::bridge;
use crate::native;

verus! {

/// What a native call that reported `status` and produced `value` means.
pub open spec fn status_result<T>(status: i32, value: T) -> Result<T, i32> {
    if status != 0 {
        Err(status)
    } else {
        Ok(value)
    }
}

/// The error handed to the managed runtime: a native status code, possibly
/// rewritten by the native service, and the message it gave for it.
#[derive(Clone, Debug)]
pub struct BusinessError {
    pub code: i32,
    pub message: String,
}

/// Packages a code and the native service's message for it.
pub fn convert_to_business_error(code: i32, message: String) -> (r: BusinessError)
    ensures
        r.code == code,
        r.message@ == message@,
{
    BusinessError { code, message }
}

/// Client of the native sharing service.
pub struct SharingClient;

impl SharingClient {
    /// Whether sharing is supported, as the native service answered it.
    pub fn is_sharing_supported(status: i32, is_share: bool) -> (r: Result<bool, i32>)
        ensures
            r == status_result(status, is_share),
    {
        if status != 0 {
            return Err(status);
        }
        Ok(is_share)
    }

    /// Whether any interface is currently shared.
    pub fn is_sharing(status: i32, is_share: bool) -> (r: Result<bool, i32>)
        ensures
            r == status_result(status, is_share),
    {
        if status != 0 {
            return Err(status);
        }
        Ok(is_share)
    }

    /// Outcome of starting to share over an interface type.
    pub fn start_sharing(status: i32) -> (r: Result<i32, i32>)
        ensures
            r == status_result(status, 0i32),
    {
        if status != 0 {
            return Err(status);
        }
        Ok(status)
    }

    /// Outcome of stopping sharing over an interface type.
    pub fn stop_sharing(status: i32) -> (r: Result<i32, i32>)
        ensures
            r == status_result(status, 0i32),
    {
        if status != 0 {
            return Err(status);
        }
        Ok(status)
    }

    /// Bytes received over shared interfaces.
    pub fn get_stats_rx_bytes(status: i32, bytes: i32) -> (r: Result<i32, i32>)
        ensures
            r == status_result(status, bytes),
    {
        if status != 0 {
            return Err(status);
        }
        Ok(bytes)
    }

    /// Bytes sent over shared interfaces.
    pub fn get_stats_tx_bytes(status: i32, bytes: i32) -> (r: Result<i32, i32>)
        ensures
            r == status_result(status, bytes),
    {
        if status != 0 {
            return Err(status);
        }
        Ok(bytes)
    }

    /// Bytes sent and received over shared interfaces.
    pub fn get_stats_total_bytes(status: i32, bytes: i32) -> (r: Result<i32, i32>)
        ensures
            r == status_result(status, bytes),
    {
        if status != 0 {
            return Err(status);
        }
        Ok(bytes)
    }

    /// Names of the interfaces in the state that was asked about.
    pub fn get_sharing_ifaces(status: i32, ifaces: Vec<String>) -> (r: Result<Vec<String>, i32>)
        ensures
            r == status_result(status, ifaces),
    {
        if status != 0 {
            return Err(status);
        }
        Ok(ifaces)
    }

    /// Sharing state of an interface type. A native state without public
    /// counterpart means that the binding and the native service are out of
    /// step; it is not a recoverable error, so it is excluded here.
    pub fn get_sharing_state(status: i32, state: native::SharingIfaceState) -> (r: Result<
        bridge::SharingIfaceState,
        i32,
    >)
        requires
            status != 0 || state.is_mapped(),
        ensures
            status != 0 ==> r == Err::<bridge::SharingIfaceState, i32>(status),
            status == 0 ==> (r matches Ok(s) && native::iface_state_of_code(state.repr) == Some(s)),
    {
        if status != 0 {
            return Err(status);
        }
        Ok(state.to_public().unwrap())
    }

    /// Patterns of the interface names that may be shared over a type.
    pub fn get_sharable_regexs(status: i32, iface_regexs: Vec<String>) -> (r: Result<
        Vec<String>,
        i32,
    >)
        ensures
            r == status_result(status, iface_regexs),
    {
        if status != 0 {
            return Err(status);
        }
        Ok(iface_regexs)
    }

    /// Outcome of subscribing to the native notification source.
    pub fn register_sharing_observer(status: i32) -> (r: Result<(), i32>)
        ensures
            r == status_result(status, ()),
    {
        if status != 0 {
            return Err(status);
        }
        Ok(())
    }

    /// Outcome of unsubscribing from the native notification source.
    pub fn unregister_sharing_observer(status: i32) -> (r: Result<(), i32>)
        ensures
            r == status_result(status, ()),
    {
        if status != 0 {
            return Err(status);
        }
        Ok(())
    }
}

} // verus!
