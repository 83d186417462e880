use sharing::bridge;
use sharing::client::{convert_to_business_error, SharingClient};
use sharing::native;

#[test]
fn start_sharing_success_and_failure() {
    assert_eq!(SharingClient::start_sharing(0), Ok(0));
    let err = SharingClient::start_sharing(-1).unwrap_err();
    assert_eq!(err, -1);
    let e = convert_to_business_error(err, String::from("busy"));
    assert_eq!(e.code, -1);
    assert_eq!(e.message, "busy");
}

#[test]
fn stop_sharing_statuses() {
    assert_eq!(SharingClient::stop_sharing(0), Ok(0));
    assert_eq!(SharingClient::stop_sharing(2200002), Err(2200002));
}

#[test]
fn boolean_queries() {
    assert_eq!(SharingClient::is_sharing_supported(0, true), Ok(true));
    assert_eq!(SharingClient::is_sharing_supported(0, false), Ok(false));
    assert_eq!(SharingClient::is_sharing_supported(201, true), Err(201));
    assert_eq!(SharingClient::is_sharing(0, true), Ok(true));
    assert_eq!(SharingClient::is_sharing(-3, false), Err(-3));
}

#[test]
fn byte_counters() {
    assert_eq!(SharingClient::get_stats_rx_bytes(0, 1500), Ok(1500));
    assert_eq!(SharingClient::get_stats_rx_bytes(5, 1500), Err(5));
    assert_eq!(SharingClient::get_stats_tx_bytes(0, 42), Ok(42));
    assert_eq!(SharingClient::get_stats_tx_bytes(-1, 42), Err(-1));
    assert_eq!(SharingClient::get_stats_total_bytes(0, 1542), Ok(1542));
    assert_eq!(SharingClient::get_stats_total_bytes(7, 0), Err(7));
}

#[test]
fn name_lists() {
    let names = vec![String::from("wlan0"), String::from("usb0")];
    assert_eq!(SharingClient::get_sharing_ifaces(0, names.clone()), Ok(names.clone()));
    assert_eq!(SharingClient::get_sharing_ifaces(3, names.clone()), Err(3));
    let regexes = vec![String::from("wlan\\d"), String::from("rndis\\d")];
    assert_eq!(SharingClient::get_sharable_regexs(0, regexes.clone()), Ok(regexes.clone()));
    assert_eq!(SharingClient::get_sharable_regexs(-9, regexes), Err(-9));
    assert_eq!(SharingClient::get_sharing_ifaces(0, Vec::new()), Ok(Vec::new()));
}

#[test]
fn sharing_state_query() {
    let serving = native::SharingIfaceState { repr: native::SHARING_NIC_SERVING };
    assert_eq!(
        SharingClient::get_sharing_state(0, serving),
        Ok(bridge::SharingIfaceState::SharingNicServing)
    );
    let error = native::SharingIfaceState { repr: native::SHARING_NIC_ERROR };
    assert_eq!(
        SharingClient::get_sharing_state(0, error),
        Ok(bridge::SharingIfaceState::SharingNicError)
    );
    let unknown = native::SharingIfaceState { repr: 77 };
    assert_eq!(SharingClient::get_sharing_state(4, unknown), Err(4));
}

#[test]
fn observer_subscription_statuses() {
    assert_eq!(SharingClient::register_sharing_observer(0), Ok(()));
    assert_eq!(SharingClient::register_sharing_observer(-1), Err(-1));
    assert_eq!(SharingClient::unregister_sharing_observer(0), Ok(()));
    assert_eq!(SharingClient::unregister_sharing_observer(12), Err(12));
}
