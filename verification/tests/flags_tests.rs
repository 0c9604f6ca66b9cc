use netawait::flags::WaitConditionFlag;
use netawait::wait_for_default_route;

#[test]
fn parses_default_route() {
    assert!(matches!(
        WaitConditionFlag::from_str("default-route"),
        Ok(WaitConditionFlag::DefaultRouteExists)
    ));
}

#[test]
fn parses_interface_address_condition() {
    match WaitConditionFlag::from_str("if-gets-address=en0") {
        Ok(WaitConditionFlag::InterfaceHasAddress(name)) => assert_eq!(name, "en0"),
        other => panic!("expected the address condition for en0, got {other:?}"),
    }
}

#[test]
fn parses_interface_route_condition_with_colon() {
    match WaitConditionFlag::from_str("if-gets-route:en1") {
        Ok(WaitConditionFlag::InterfaceHasRoute(name)) => assert_eq!(name, "en1"),
        other => panic!("expected the route condition for en1, got {other:?}"),
    }
}

#[test]
fn parses_interface_condition_with_space() {
    match WaitConditionFlag::from_str("if-gets-address utun3") {
        Ok(WaitConditionFlag::InterfaceHasAddress(name)) => assert_eq!(name, "utun3"),
        other => panic!("expected the address condition for utun3, got {other:?}"),
    }
}

#[test]
fn value_stops_at_the_next_separator() {
    match WaitConditionFlag::from_str("if-gets-address=en0:extra") {
        Ok(WaitConditionFlag::InterfaceHasAddress(name)) => assert_eq!(name, "en0"),
        other => panic!("expected the address condition for en0, got {other:?}"),
    }
}

#[test]
fn missing_interface_value_is_rejected() {
    assert_eq!(
        WaitConditionFlag::from_str("if-gets-address").unwrap_err(),
        "missing interface value for wait condition"
    );
    assert_eq!(
        WaitConditionFlag::from_str("if-gets-address=").unwrap_err(),
        "missing interface value for wait condition"
    );
}

#[test]
fn unknown_keys_are_rejected_by_name() {
    assert_eq!(
        WaitConditionFlag::from_str("bogus").unwrap_err(),
        "invalid value for wait condition: bogus"
    );
}

#[test]
fn empty_input_is_rejected() {
    assert_eq!(
        WaitConditionFlag::from_str("").unwrap_err(),
        "missing value for wait condition"
    );
}

#[test]
fn default_condition_is_default_route() {
    assert!(matches!(
        WaitConditionFlag::default(),
        WaitConditionFlag::DefaultRouteExists
    ));
}

#[test]
fn simple_wait_entry_point_succeeds() {
    assert!(wait_for_default_route().is_ok());
}
