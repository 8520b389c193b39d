//! Public value types of the driver.

use vstd::prelude::*;

verus! {

/// All possible errors in this crate.
#[derive(Debug)]
pub enum Error<E> {
    /// I²C bus error.
    I2C(E),
    /// A manual-configuration-mode-only operation was attempted while in
    /// automatic configuration mode.
    OperationNotAvailable,
}

/// Measurement mode
#[derive(Debug, Clone, Copy, PartialEq)]
pub enum MeasurementMode {
    /// Once every 800ms mode (default).
    ///
    /// Measures lux intensity every 800ms regardless of the integration time.
    /// Sensor operates on lowest possible supply current.
    OnceEvery800ms,
    /// Continuous mode.
    ///
    /// Continuously measures lux intensity. As soon as a reading finishes,
    /// the next one begins. The actual cadence depends on the integration
    /// time selected.
    Continuous,
}

/// Configuration mode
#[derive(Debug, Clone, Copy, PartialEq)]
pub enum ConfigurationMode {
    /// Automatic mode (default).
    ///
    /// On-chip algorithm selects the integration time (100ms - 800ms) and
    /// the current division ratio.
    Automatic,
    /// Manual mode.
    ///
    /// The user can select the integration time and the current division
    /// ratio manually.
    Manual,
}

/// Integration time
#[derive(Debug, Clone, Copy, PartialEq)]
pub enum IntegrationTime {
    /// 6.25ms. (Only in manual mode)
    _6_25ms,
    /// 12.5ms. (Only in manual mode)
    _12_5ms,
    /// 25ms. (Only in manual mode)
    _25ms,
    /// 50ms. (Only in manual mode)
    _50ms,
    /// 100ms. (Preferred mode for high-brightness applications)
    _100ms,
    /// 200ms
    _200ms,
    /// 400ms
    _400ms,
    /// 800ms. (Preferred mode for boosting low-light sensitivity)
    _800ms,
}

/// Current division ratio
#[derive(Debug, Clone, Copy, PartialEq)]
pub enum CurrentDivisionRatio {
    /// No current division (default).
    ///
    /// All the photodiode current goes to the ADC.
    One,
    /// 1/8 current division ratio.
    ///
    /// Only 1/8 of the photodiode current goes to the ADC. This mode is used
    /// in high-brightness situations.
    OneEighth,
}

/// Possible slave addresses
#[derive(Debug, Clone, Copy, PartialEq)]
pub enum SlaveAddr {
    /// Default slave address
    Default,
    /// Alternative slave address providing bit value for A0
    Alternative(bool),
}

impl Default for SlaveAddr {
    /// Default slave address
    fn default() -> (address: Self)
        ensures
            address == SlaveAddr::Default,
    {
        SlaveAddr::Default
    }
}

impl SlaveAddr {
    /// The 7-bit device address this selection resolves to, given the
    /// device's base address: the base itself, or the base with its lowest
    /// bit forced to the state of the A0 pin.
    pub open spec fn resolved_address(self, default: u8) -> u8 {
        match self {
            SlaveAddr::Default => default,
            SlaveAddr::Alternative(a0) => if a0 {
                default | 1
            } else {
                default
            },
        }
    }

    /// Resolve the effective device address from the given base address.
    pub fn addr(self, default: u8) -> (address: u8)
        ensures
            address == self.resolved_address(default),
    {
        match self {
            SlaveAddr::Default => default,
            SlaveAddr::Alternative(a0) => if a0 {
                default | 1
            } else {
                default
            },
        }
    }
}

} // verus!
