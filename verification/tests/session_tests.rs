use door_sync::session::classify_address;
use door_sync::session::ConnectivityState;

#[test]
fn the_sentinel_address_means_disconnected() {
    let state = classify_address("0.0.0.0");
    assert!(matches!(state, ConnectivityState::Disconnected));
    assert!(!state.is_connected());
}

#[test]
fn an_assigned_address_means_connected() {
    let state = classify_address("192.168.1.23");
    match &state {
        ConnectivityState::Connected(addr) => assert_eq!(addr, "192.168.1.23"),
        other => panic!("expected Connected, got {:?}", other),
    }
    assert!(state.is_connected());
}

#[test]
fn connecting_is_not_yet_connected() {
    assert!(!ConnectivityState::Connecting.is_connected());
    assert!(!ConnectivityState::Disconnected.is_connected());
}
