use sharing::bridge;
use sharing::native;
use sharing::register::{
    execute_interface_sharing_state_change, execute_sharing_state_changed,
    execute_sharing_upstream_change, CallbackFlavor, CallbackHandle, Register, SharingEventType,
};

fn h(id: u64) -> CallbackHandle {
    CallbackHandle { id }
}

/// Registers the way the embedding layer does: subscribing first when due.
fn register_with(reg: &mut Register, c: CallbackFlavor, status: i32) -> Result<(), i32> {
    let s = if reg.needs_subscription() { Some(status) } else { None };
    reg.register(c, s)
}

fn unregister_with(
    reg: &mut Register,
    c: Option<CallbackFlavor>,
    ev: SharingEventType,
    status: i32,
) -> (bool, Result<(), i32>) {
    let due = reg.needs_unsubscription(c, ev);
    let s = if due { Some(status) } else { None };
    (due, reg.unregister(c, ev, s))
}

#[test]
fn upstream_change_reaches_observer_until_unregistered() {
    let mut reg = Register::new();
    let c1 = CallbackFlavor::SharingUpstreamChange(h(1));
    assert!(reg.needs_subscription());
    assert_eq!(reg.register(c1, Some(0)), Ok(()));
    let d = execute_sharing_upstream_change(&reg, native::NetHandle { net_id: 7 });
    assert_eq!(d.payload, bridge::NetHandle { net_id: 7 });
    assert_eq!(d.targets, vec![h(1)]);
    let (due, r) = unregister_with(&mut reg, Some(c1), SharingEventType::EventSharingUpstreamChange, 0);
    assert!(due);
    assert_eq!(r, Ok(()));
    let d = execute_sharing_upstream_change(&reg, native::NetHandle { net_id: 7 });
    assert!(d.targets.is_empty());
    assert!(reg.needs_subscription());
}

#[test]
fn registering_same_callback_twice_keeps_one() {
    let mut reg = Register::new();
    let c = CallbackFlavor::SharingStateChange(h(3));
    assert_eq!(register_with(&mut reg, c, 0), Ok(()));
    assert!(!reg.needs_subscription());
    assert_eq!(register_with(&mut reg, c, 0), Ok(()));
    let d = execute_sharing_state_changed(&reg, true);
    assert!(d.payload);
    assert_eq!(d.targets, vec![h(3)]);
}

#[test]
fn new_callback_replaces_same_kind_only() {
    let mut reg = Register::new();
    assert_eq!(register_with(&mut reg, CallbackFlavor::SharingStateChange(h(1)), 0), Ok(()));
    assert_eq!(register_with(&mut reg, CallbackFlavor::SharingUpstreamChange(h(2)), 0), Ok(()));
    assert_eq!(register_with(&mut reg, CallbackFlavor::SharingStateChange(h(5)), 0), Ok(()));
    assert_eq!(reg.on_sharing_state_change(false).targets, vec![h(5)]);
    assert_eq!(reg.on_sharing_upstream_change(native::NetHandle { net_id: 1 }).targets, vec![h(2)]);
}

#[test]
fn unregistering_unknown_callback_is_noop() {
    let mut reg = Register::new();
    assert_eq!(register_with(&mut reg, CallbackFlavor::SharingStateChange(h(1)), 0), Ok(()));
    let stranger = CallbackFlavor::SharingStateChange(h(99));
    let (due, r) = unregister_with(&mut reg, Some(stranger), SharingEventType::EventSharingStateChange, -1);
    assert!(!due);
    assert_eq!(r, Ok(()));
    assert_eq!(reg.on_sharing_state_change(true).targets, vec![h(1)]);
    assert!(!reg.needs_subscription());
}

#[test]
fn unregistering_on_empty_registry_is_noop() {
    let mut reg = Register::new();
    let (due, r) = unregister_with(&mut reg, None, SharingEventType::EventSharingStateChange, -1);
    assert!(!due);
    assert_eq!(r, Ok(()));
    assert!(reg.needs_subscription());
}

#[test]
fn unregistering_without_callback_removes_the_kind() {
    let mut reg = Register::new();
    assert_eq!(register_with(&mut reg, CallbackFlavor::SharingStateChange(h(1)), 0), Ok(()));
    assert_eq!(register_with(&mut reg, CallbackFlavor::SharingUpstreamChange(h(2)), 0), Ok(()));
    let (due, r) = unregister_with(&mut reg, None, SharingEventType::EventSharingStateChange, 0);
    assert!(!due);
    assert_eq!(r, Ok(()));
    assert!(reg.on_sharing_state_change(true).targets.is_empty());
    assert_eq!(reg.on_sharing_upstream_change(native::NetHandle { net_id: 4 }).targets, vec![h(2)]);
    let (due, r) = unregister_with(&mut reg, None, SharingEventType::EventSharingUpstreamChange, 0);
    assert!(due);
    assert_eq!(r, Ok(()));
    assert!(reg.needs_subscription());
}

#[test]
fn teardown_happens_once() {
    let mut reg = Register::new();
    let c = CallbackFlavor::InterfaceSharingStateChange(h(8));
    assert_eq!(register_with(&mut reg, c, 0), Ok(()));
    let (due, _) = unregister_with(&mut reg, Some(c), SharingEventType::EventInterfaceSharingStateChange, 0);
    assert!(due);
    let (due, r) = unregister_with(&mut reg, Some(c), SharingEventType::EventInterfaceSharingStateChange, 0);
    assert!(!due);
    assert_eq!(r, Ok(()));
    let (due, _) = unregister_with(&mut reg, None, SharingEventType::EventInterfaceSharingStateChange, 0);
    assert!(!due);
}

#[test]
fn failed_subscription_leaves_registry_unchanged() {
    let mut reg = Register::new();
    let c = CallbackFlavor::SharingStateChange(h(4));
    assert_eq!(reg.register(c, Some(-1)), Err(-1));
    assert!(reg.needs_subscription());
    assert!(reg.on_sharing_state_change(true).targets.is_empty());
    assert_eq!(reg.register(c, Some(0)), Ok(()));
    assert_eq!(reg.on_sharing_state_change(true).targets, vec![h(4)]);
}

#[test]
fn failed_unsubscription_removes_entry_but_keeps_subscription() {
    let mut reg = Register::new();
    let c = CallbackFlavor::SharingStateChange(h(4));
    assert_eq!(register_with(&mut reg, c, 0), Ok(()));
    assert_eq!(reg.unregister(Some(c), SharingEventType::EventSharingStateChange, Some(-5)), Err(-5));
    assert!(reg.on_sharing_state_change(true).targets.is_empty());
    assert!(!reg.needs_subscription());
    assert_eq!(register_with(&mut reg, c, 0), Ok(()));
    let (due, r) = unregister_with(&mut reg, Some(c), SharingEventType::EventSharingStateChange, 0);
    assert!(due);
    assert_eq!(r, Ok(()));
    assert!(reg.needs_subscription());
}

#[test]
fn dispatch_goes_to_matching_kind_only() {
    let mut reg = Register::new();
    assert_eq!(register_with(&mut reg, CallbackFlavor::SharingStateChange(h(1)), 0), Ok(()));
    assert_eq!(register_with(&mut reg, CallbackFlavor::InterfaceSharingStateChange(h(2)), 0), Ok(()));
    assert_eq!(register_with(&mut reg, CallbackFlavor::SharingUpstreamChange(h(3)), 0), Ok(()));
    let info = native::InterfaceSharingStateInfo {
        share_type: native::SharingIfaceType { repr: native::SHARING_BLUETOOTH },
        iface: String::from("bt-pan"),
        state: native::SharingIfaceState { repr: native::SHARING_NIC_CAN_SERVER },
    };
    let d = execute_interface_sharing_state_change(&reg, info);
    assert_eq!(d.targets, vec![h(2)]);
    assert_eq!(d.payload.share_type, bridge::SharingIfaceType::SharingBluetooth);
    assert_eq!(d.payload.iface, "bt-pan");
    assert_eq!(d.payload.state, bridge::SharingIfaceState::SharingNicCanServer);
    assert_eq!(execute_sharing_state_changed(&reg, false).targets, vec![h(1)]);
    assert_eq!(reg.on_sharing_upstream_change(native::NetHandle { net_id: 0 }).targets, vec![h(3)]);
}

#[test]
fn callback_flavor_accessors() {
    let c = CallbackFlavor::InterfaceSharingStateChange(h(11));
    assert_eq!(c.event_type(), SharingEventType::EventInterfaceSharingStateChange);
    assert_eq!(c.callback(), h(11));
}

#[test]
fn registration_membership() {
    let mut reg = Register::new();
    let a = CallbackFlavor::SharingStateChange(h(1));
    let b = CallbackFlavor::SharingStateChange(h(2));
    assert!(!reg.is_registered(a));
    assert_eq!(register_with(&mut reg, a, 0), Ok(()));
    assert!(reg.is_registered(a));
    assert_eq!(register_with(&mut reg, b, 0), Ok(()));
    assert!(!reg.is_registered(a));
    assert!(reg.is_registered(b));
    assert!(!reg.is_registered(CallbackFlavor::SharingUpstreamChange(h(2))));
}
