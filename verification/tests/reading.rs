use max44009::{
    convert_to_lux_counts, BusRecord, CurrentDivisionRatio, IntegrationTime, Max44009, MockBus,
    SlaveAddr, CONFIGURATION_REGISTER, DEVICE_BASE_ADDRESS, INT_STATUS_REGISTER,
    LUX_HIGH_REGISTER,
};

fn new_dev(responses: Vec<u8>) -> Max44009<MockBus> {
    Max44009::new(MockBus::with_responses(responses), SlaveAddr::default())
}

fn assert_near(a: f32, b: f32, epsilon: f32) {
    assert!((a - b).abs() < epsilon);
}

fn convert_to_lux(msb: u8, lsb: u8) -> f32 {
    convert_to_lux_counts(msb, lsb) as f32 * 0.045
}

#[test]
fn reading_can_read_interrupt_did_not_happened() {
    let mut dev = new_dev(vec![0]);
    let interrupt_happened = dev.has_interrupt_happened().unwrap();
    assert!(!interrupt_happened);
    let bus = dev.destroy();
    assert_eq!(
        bus.transactions(),
        &vec![BusRecord::WriteRead {
            addr: DEVICE_BASE_ADDRESS,
            data: vec![INT_STATUS_REGISTER],
            response: vec![0],
        }]
    );
}

#[test]
fn reading_can_read_interrupt_happened() {
    let mut dev = new_dev(vec![1]);
    let interrupt_happened = dev.has_interrupt_happened().unwrap();
    assert!(interrupt_happened);
    let bus = dev.destroy();
    assert_eq!(
        bus.transactions(),
        &vec![BusRecord::WriteRead {
            addr: DEVICE_BASE_ADDRESS,
            data: vec![INT_STATUS_REGISTER],
            response: vec![1],
        }]
    );
}

#[test]
fn reading_can_read_lux() {
    let mut dev = new_dev(vec![0, 1]);
    let lux = convert_counts_to_lux(dev.read_lux_counts().unwrap());
    assert!((lux - 0.045).abs() < 0.001);
    let bus = dev.destroy();
    assert_eq!(
        bus.transactions(),
        &vec![BusRecord::WriteRead {
            addr: DEVICE_BASE_ADDRESS,
            data: vec![LUX_HIGH_REGISTER],
            response: vec![0, 1],
        }]
    );
}

fn convert_counts_to_lux(counts: u32) -> f32 {
    counts as f32 * 0.045
}

fn check_read_param(dev: Max44009<MockBus>, input: u8) {
    let bus = dev.destroy();
    assert_eq!(
        bus.transactions(),
        &vec![BusRecord::WriteRead {
            addr: DEVICE_BASE_ADDRESS,
            data: vec![CONFIGURATION_REGISTER],
            response: vec![input],
        }]
    );
}

#[test]
fn can_read_cdr_one() {
    let mut dev = new_dev(vec![0]);
    assert_eq!(CurrentDivisionRatio::One, dev.read_current_division_ratio().unwrap());
    check_read_param(dev, 0);
}

#[test]
fn can_read_cdr_one_eighth() {
    let mut dev = new_dev(vec![8]);
    assert_eq!(CurrentDivisionRatio::OneEighth, dev.read_current_division_ratio().unwrap());
    check_read_param(dev, 8);
}

#[test]
fn can_read_it_800ms() {
    let mut dev = new_dev(vec![0]);
    assert_eq!(IntegrationTime::_800ms, dev.read_integration_time().unwrap());
    check_read_param(dev, 0);
}

#[test]
fn can_read_it_400ms() {
    let mut dev = new_dev(vec![1]);
    assert_eq!(IntegrationTime::_400ms, dev.read_integration_time().unwrap());
    check_read_param(dev, 1);
}

#[test]
fn can_read_it_200ms() {
    let mut dev = new_dev(vec![2]);
    assert_eq!(IntegrationTime::_200ms, dev.read_integration_time().unwrap());
    check_read_param(dev, 2);
}

#[test]
fn can_read_it_100ms() {
    let mut dev = new_dev(vec![3]);
    assert_eq!(IntegrationTime::_100ms, dev.read_integration_time().unwrap());
    check_read_param(dev, 3);
}

#[test]
fn can_read_it_50ms() {
    let mut dev = new_dev(vec![4]);
    assert_eq!(IntegrationTime::_50ms, dev.read_integration_time().unwrap());
    check_read_param(dev, 4);
}

#[test]
fn can_read_it_25ms() {
    let mut dev = new_dev(vec![5]);
    assert_eq!(IntegrationTime::_25ms, dev.read_integration_time().unwrap());
    check_read_param(dev, 5);
}

#[test]
fn can_read_it_12_5ms() {
    let mut dev = new_dev(vec![6]);
    assert_eq!(IntegrationTime::_12_5ms, dev.read_integration_time().unwrap());
    check_read_param(dev, 6);
}

#[test]
fn can_read_it_6_25ms() {
    let mut dev = new_dev(vec![7]);
    assert_eq!(IntegrationTime::_6_25ms, dev.read_integration_time().unwrap());
    check_read_param(dev, 7);
}

#[test]
fn can_convert_to_lux() {
    assert_near(0.045, convert_to_lux(0b0000_0000, 0b0000_0001), 0.001);
    assert_near(0.72, convert_to_lux(0b0000_0001, 0b0000_0000), 0.001);
    assert_near(1.53, convert_to_lux(0b0001_0001, 0b0000_0001), 0.001);
    assert_near(188_006.0, convert_to_lux(0b1110_1111, 0b0000_1111), 0.5);
    assert_near(187_269.0, convert_to_lux(0b1110_1111, 0b0000_1110), 0.5);
    assert_near(176_947.0, convert_to_lux(0b1110_1111, 0b0000_0000), 0.5);
    assert_near(165_151.0, convert_to_lux(0b1110_1110, 0b0000_0000), 0.5);
}

#[test]
fn lux_counts_exact_values() {
    assert_eq!(1, convert_to_lux_counts(0x00, 0x01));
    assert_eq!(16, convert_to_lux_counts(0x01, 0x00));
    assert_eq!(34, convert_to_lux_counts(0x11, 0x01));
    assert_eq!(4_177_920, convert_to_lux_counts(0xEF, 0x0F));
    assert_eq!(4_161_536, convert_to_lux_counts(0xEF, 0x0E));
    assert_eq!(3_932_160, convert_to_lux_counts(0xEF, 0x00));
    assert_eq!(3_670_016, convert_to_lux_counts(0xEE, 0x00));
}
