use max44009::{
    BusRecord, ConfigurationMode, CurrentDivisionRatio, Error, IntegrationTime, Max44009,
    MeasurementMode, MockBus, SlaveAddr, CONFIGURATION_REGISTER, DEVICE_BASE_ADDRESS,
    INT_ENABLE_REGISTER,
};

fn new_dev() -> Max44009<MockBus> {
    Max44009::new(MockBus::new(), SlaveAddr::default())
}

fn assert_operation_not_available_error<T, E>(result: Result<T, Error<E>>) {
    match result {
        Err(Error::OperationNotAvailable) => (),
        _ => panic!("Did not return Error::OperationNotAvailable."),
    }
}

fn config_write(value: u8) -> BusRecord {
    BusRecord::Write { addr: DEVICE_BASE_ADDRESS, data: vec![CONFIGURATION_REGISTER, value] }
}

#[test]
fn configuration_can_enable_interrupt() {
    let mut dev = new_dev();
    dev.enable_interrupt().unwrap();
    let bus = dev.destroy();
    assert_eq!(
        bus.transactions(),
        &vec![BusRecord::Write { addr: DEVICE_BASE_ADDRESS, data: vec![INT_ENABLE_REGISTER, 1] }]
    );
}

#[test]
fn configuration_can_disable_interrupt() {
    let mut dev = new_dev();
    dev.disable_interrupt().unwrap();
    let bus = dev.destroy();
    assert_eq!(
        bus.transactions(),
        &vec![BusRecord::Write { addr: DEVICE_BASE_ADDRESS, data: vec![INT_ENABLE_REGISTER, 0] }]
    );
}

#[test]
fn can_set_measurement_mode_once_every_800ms() {
    let mut dev = new_dev();
    dev.set_measurement_mode(MeasurementMode::OnceEvery800ms).unwrap();
    let bus = dev.destroy();
    assert_eq!(bus.transactions(), &vec![config_write(0)]);
}

#[test]
fn can_set_measurement_mode_continuous() {
    let mut dev = new_dev();
    dev.set_measurement_mode(MeasurementMode::Continuous).unwrap();
    let bus = dev.destroy();
    assert_eq!(bus.transactions(), &vec![config_write(0b1000_0000)]);
}

#[test]
fn can_set_automatic_mode() {
    let mut dev = new_dev();
    dev.set_configuration_mode(ConfigurationMode::Automatic).unwrap();
    let bus = dev.destroy();
    assert_eq!(bus.transactions(), &vec![config_write(0b0000_0000)]);
}

#[test]
fn can_set_manual_mode() {
    let mut dev = new_dev();
    dev.set_configuration_mode(ConfigurationMode::Manual).unwrap();
    let bus = dev.destroy();
    assert_eq!(bus.transactions(), &vec![config_write(0b0100_0000)]);
}

#[test]
fn configuration_cannot_set_current_division_ratio_in_automatic_mode() {
    let mut dev = new_dev();
    assert_operation_not_available_error(
        dev.set_current_division_ratio(CurrentDivisionRatio::One),
    );
    let bus = dev.destroy();
    assert!(bus.transactions().is_empty());
}

#[test]
fn configuration_cannot_set_integration_time_in_automatic_mode() {
    let mut dev = new_dev();
    assert_operation_not_available_error(dev.set_integration_time(IntegrationTime::_100ms));
    let bus = dev.destroy();
    assert!(bus.transactions().is_empty());
}

fn check_set_param(done: Result<(), Error<u8>>, dev: Max44009<MockBus>, expected: u8) {
    done.unwrap();
    let bus = dev.destroy();
    assert_eq!(
        bus.transactions(),
        &vec![config_write(0b0100_0000), config_write(0b0100_0000 | expected)]
    );
}

#[test]
fn can_set_cdr_one() {
    let mut dev = new_dev();
    dev.set_configuration_mode(ConfigurationMode::Manual).unwrap();
    let done = dev.set_current_division_ratio(CurrentDivisionRatio::One);
    check_set_param(done, dev, 0);
}

#[test]
fn can_set_cdr_one_eighth() {
    let mut dev = new_dev();
    dev.set_configuration_mode(ConfigurationMode::Manual).unwrap();
    let done = dev.set_current_division_ratio(CurrentDivisionRatio::OneEighth);
    check_set_param(done, dev, 8);
}

#[test]
fn can_set_it_800ms() {
    let mut dev = new_dev();
    dev.set_configuration_mode(ConfigurationMode::Manual).unwrap();
    let done = dev.set_integration_time(IntegrationTime::_800ms);
    check_set_param(done, dev, 0);
}

#[test]
fn can_set_it_400ms() {
    let mut dev = new_dev();
    dev.set_configuration_mode(ConfigurationMode::Manual).unwrap();
    let done = dev.set_integration_time(IntegrationTime::_400ms);
    check_set_param(done, dev, 1);
}

#[test]
fn can_set_it_200ms() {
    let mut dev = new_dev();
    dev.set_configuration_mode(ConfigurationMode::Manual).unwrap();
    let done = dev.set_integration_time(IntegrationTime::_200ms);
    check_set_param(done, dev, 2);
}

#[test]
fn can_set_it_100ms() {
    let mut dev = new_dev();
    dev.set_configuration_mode(ConfigurationMode::Manual).unwrap();
    let done = dev.set_integration_time(IntegrationTime::_100ms);
    check_set_param(done, dev, 3);
}

#[test]
fn can_set_it_50ms() {
    let mut dev = new_dev();
    dev.set_configuration_mode(ConfigurationMode::Manual).unwrap();
    let done = dev.set_integration_time(IntegrationTime::_50ms);
    check_set_param(done, dev, 4);
}

#[test]
fn can_set_it_25ms() {
    let mut dev = new_dev();
    dev.set_configuration_mode(ConfigurationMode::Manual).unwrap();
    let done = dev.set_integration_time(IntegrationTime::_25ms);
    check_set_param(done, dev, 5);
}

#[test]
fn can_set_it_12_5ms() {
    let mut dev = new_dev();
    dev.set_configuration_mode(ConfigurationMode::Manual).unwrap();
    let done = dev.set_integration_time(IntegrationTime::_12_5ms);
    check_set_param(done, dev, 6);
}

#[test]
fn can_set_it_6_25ms() {
    let mut dev = new_dev();
    dev.set_configuration_mode(ConfigurationMode::Manual).unwrap();
    let done = dev.set_integration_time(IntegrationTime::_6_25ms);
    check_set_param(done, dev, 7);
}
