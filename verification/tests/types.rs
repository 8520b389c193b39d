use max44009::{SlaveAddr, DEVICE_BASE_ADDRESS};

#[test]
fn can_get_default_address() {
    let addr = SlaveAddr::default();
    assert_eq!(DEVICE_BASE_ADDRESS, addr.addr(DEVICE_BASE_ADDRESS));
}

#[test]
fn can_generate_alternative_addresses() {
    assert_eq!(0b100_1010, SlaveAddr::Alternative(false).addr(DEVICE_BASE_ADDRESS));
    assert_eq!(0b100_1011, SlaveAddr::Alternative(true).addr(DEVICE_BASE_ADDRESS));
}
