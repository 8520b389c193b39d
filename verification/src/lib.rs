//! Platform-agnostic driver for the MAX44009 and MAX44007 ambient light
//! sensors.
//!
//! The sensor is a register-level device on a two-wire synchronous serial
//! bus. This crate translates high-level operations — read illuminance,
//! configure the measurement cadence, manage interrupts — into the exact
//! register reads and writes the device understands, and proves that
//! translation correct: every public operation's contract states which bytes
//! go over the bus and how the driver's cached configuration changes.
//!
//! The driver is generic over the [`Bus`] transport. [`MockBus`] is an
//! in-memory transport that records every transaction, for exercising the
//! driver without hardware.

use vstd::prelude::*;

mod bus;
mod codec;
mod configuration;
mod mock_bus;
mod reading;
mod types;

pub use bus::{register_write, single_byte_read, two_byte_read, Bus, Transaction};
pub use codec::{
    configuration_mode_config, convert_to_lux_counts, current_division_ratio_config,
    current_division_ratio_of, decode_integration_time, encode_integration_time,
    integration_time_code, integration_time_config, integration_time_from_code,
    lemma_config_updates_preserve_reserved_bits, lemma_integration_time_round_trip, lux_counts,
    lux_exponent, lux_mantissa, measurement_mode_config, reserved_bits_clear,
};
pub use mock_bus::{records_view, remaining_responses, supplied_response, BusRecord, MockBus};
pub use types::{
    ConfigurationMode, CurrentDivisionRatio, Error, IntegrationTime, MeasurementMode, SlaveAddr,
};

verus! {

/// Base 7-bit device address.
pub const DEVICE_BASE_ADDRESS: u8 = 0b100_1010;

/// Interrupt status register: non-zero while an interrupt is latched.
pub const INT_STATUS_REGISTER: u8 = 0x00;

/// Interrupt enable register: 1 enables interrupt generation, 0 disables it.
pub const INT_ENABLE_REGISTER: u8 = 0x01;

/// Configuration register.
pub const CONFIGURATION_REGISTER: u8 = 0x02;

/// First of the two lux data registers (exponent and mantissa high nibble).
pub const LUX_HIGH_REGISTER: u8 = 0x03;

/// Continuous-measurement flag: bit 7 of the configuration register.
pub const CONTINUOUS_BIT: u8 = 0b1000_0000;

/// Manual-configuration flag: bit 6 of the configuration register.
pub const MANUAL_BIT: u8 = 0b0100_0000;

/// Current-division-ratio flag: bit 3 of the configuration register.
pub const CDR_BIT: u8 = 0b0000_1000;

/// MAX44009 ambient light sensor driver.
///
/// Owns the bus, the resolved device address, and a cached copy of the last
/// configuration byte written, so partial-bit updates need no register read.
pub struct Max44009<B: Bus> {
    /// The concrete bus implementation.
    bus: B,
    /// The resolved 7-bit device address.
    address: u8,
    /// Cached copy of the configuration register.
    config: u8,
}

impl<B: Bus> Max44009<B> {
    /// The cached copy of the configuration register: the last byte
    /// successfully written to it, initially zero (the power-on default).
    pub closed spec fn cached_config(&self) -> u8 {
        self.config
    }

    /// The resolved 7-bit device address the driver talks to.
    pub closed spec fn device_address(&self) -> u8 {
        self.address
    }

    /// The ghost transaction history of the owned bus.
    pub closed spec fn bus_log(&self) -> Seq<Transaction> {
        self.bus.log()
    }

    /// Create a new instance of the Max44009 device.
    ///
    /// No bus transaction occurs: the cached configuration starts at zero,
    /// matching the sensor's power-on default.
    pub fn new(bus: B, address: SlaveAddr) -> (driver: Self)
        ensures
            driver.device_address() == address.resolved_address(DEVICE_BASE_ADDRESS),
            driver.cached_config() == 0,
            driver.bus_log() == bus.log(),
    {
        let resolved = address.addr(DEVICE_BASE_ADDRESS);
        Max44009 { bus, address: resolved, config: 0 }
    }

    /// Destroy driver instance, return the bus instance.
    pub fn destroy(self) -> (bus: B)
        ensures
            bus.log() == self.bus_log(),
    {
        self.bus
    }
}

} // verus!
