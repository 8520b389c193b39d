//! Reading operations: interrupt status, lux count, and the parameters the
//! sensor is currently using.
//!
//! Each reader is a single combined write-then-read bus transaction: the
//! register address is sent, then one or two bytes are read back and
//! decoded. The contracts pin the decoded result to the bytes of that
//! transaction.

use vstd::prelude::*;

use crate::bus::{single_byte_read, two_byte_read, Bus};
use crate::codec::{
    convert_to_lux_counts, current_division_ratio_of, decode_integration_time,
    integration_time_from_code, lux_counts,
};
use crate::types::{CurrentDivisionRatio, Error, IntegrationTime};
use crate::{Max44009, CDR_BIT, CONFIGURATION_REGISTER, INT_STATUS_REGISTER, LUX_HIGH_REGISTER};

verus! {

impl<B: Bus> Max44009<B> {
    /// Reads whether an interrupt has happened.
    ///
    /// Reads one byte from the interrupt status register; non-zero means an
    /// interrupt condition latched since the last read. On real hardware
    /// the read also clears the latch.
    pub fn has_interrupt_happened(&mut self) -> (result: Result<bool, Error<B::BusError>>)
        ensures
            final(self).device_address() == old(self).device_address(),
            final(self).cached_config() == old(self).cached_config(),
            match result {
                Ok(happened) => exists|value: u8|
                    final(self).bus_log() == old(self).bus_log().push(
                        #[trigger] single_byte_read(
                            old(self).device_address(),
                            INT_STATUS_REGISTER,
                            value,
                        ),
                    ) && happened == (value != 0),
                Err(e) => e matches Error::I2C(_) && final(self).bus_log() == old(self).bus_log(),
            },
    {
        match self.read_register(INT_STATUS_REGISTER) {
            Ok(value) => Ok(value != 0),
            Err(e) => Err(e),
        }
    }

    /// Read the raw lux count.
    ///
    /// Reads the two lux data registers in one transaction and decodes the
    /// compressed mantissa/exponent format into a count. One count is 0.045
    /// lux; scaling is left to the caller so the driver stays in integers.
    pub fn read_lux_counts(&mut self) -> (result: Result<u32, Error<B::BusError>>)
        ensures
            final(self).device_address() == old(self).device_address(),
            final(self).cached_config() == old(self).cached_config(),
            match result {
                Ok(counts) => exists|msb: u8, lsb: u8|
                    final(self).bus_log() == old(self).bus_log().push(
                        #[trigger] two_byte_read(
                            old(self).device_address(),
                            LUX_HIGH_REGISTER,
                            msb,
                            lsb,
                        ),
                    ) && counts == lux_counts(msb, lsb),
                Err(e) => e matches Error::I2C(_) && final(self).bus_log() == old(self).bus_log(),
            },
    {
        let command: [u8; 1] = [LUX_HIGH_REGISTER];
        match self.bus.write_read(self.address, command.as_slice(), 2) {
            Ok(data) => {
                let msb = data[0];
                let lsb = data[1];
                proof {
                    assert(command@ =~= seq![LUX_HIGH_REGISTER]);
                    assert(data@ =~= seq![msb, lsb]);
                    assert(self.bus.log() == old(self).bus_log().push(
                        two_byte_read(old(self).device_address(), LUX_HIGH_REGISTER, msb, lsb),
                    ));
                }
                Ok(convert_to_lux_counts(msb, lsb))
            },
            Err(e) => Err(Error::I2C(e)),
        }
    }

    /// Read the integration time the sensor is currently using.
    ///
    /// Reads the configuration register and decodes its 3-bit integration
    /// time field.
    pub fn read_integration_time(&mut self) -> (result: Result<
        IntegrationTime,
        Error<B::BusError>,
    >)
        ensures
            final(self).device_address() == old(self).device_address(),
            final(self).cached_config() == old(self).cached_config(),
            match result {
                Ok(it) => exists|value: u8|
                    final(self).bus_log() == old(self).bus_log().push(
                        #[trigger] single_byte_read(
                            old(self).device_address(),
                            CONFIGURATION_REGISTER,
                            value,
                        ),
                    ) && it == integration_time_from_code(value & 0b0000_0111),
                Err(e) => e matches Error::I2C(_) && final(self).bus_log() == old(self).bus_log(),
            },
    {
        match self.read_register(CONFIGURATION_REGISTER) {
            Ok(config) => Ok(decode_integration_time(config & 0b0000_0111)),
            Err(e) => Err(e),
        }
    }

    /// Read the current division ratio the sensor is currently using.
    ///
    /// Reads the configuration register and tests its
    /// current-division-ratio flag.
    pub fn read_current_division_ratio(&mut self) -> (result: Result<
        CurrentDivisionRatio,
        Error<B::BusError>,
    >)
        ensures
            final(self).device_address() == old(self).device_address(),
            final(self).cached_config() == old(self).cached_config(),
            match result {
                Ok(cdr) => exists|value: u8|
                    final(self).bus_log() == old(self).bus_log().push(
                        #[trigger] single_byte_read(
                            old(self).device_address(),
                            CONFIGURATION_REGISTER,
                            value,
                        ),
                    ) && cdr == current_division_ratio_of(value),
                Err(e) => e matches Error::I2C(_) && final(self).bus_log() == old(self).bus_log(),
            },
    {
        match self.read_register(CONFIGURATION_REGISTER) {
            Ok(config) => {
                if (config & CDR_BIT) == 0 {
                    Ok(CurrentDivisionRatio::One)
                } else {
                    Ok(CurrentDivisionRatio::OneEighth)
                }
            },
            Err(e) => Err(e),
        }
    }

    /// Select `register` and read one byte back, as a single transaction.
    fn read_register(&mut self, register: u8) -> (result: Result<u8, Error<B::BusError>>)
        ensures
            final(self).device_address() == old(self).device_address(),
            final(self).cached_config() == old(self).cached_config(),
            match result {
                Ok(value) => final(self).bus_log() == old(self).bus_log().push(
                    single_byte_read(old(self).device_address(), register, value),
                ),
                Err(e) => e matches Error::I2C(_) && final(self).bus_log() == old(self).bus_log(),
            },
    {
        let command: [u8; 1] = [register];
        match self.bus.write_read(self.address, command.as_slice(), 1) {
            Ok(data) => {
                let value = data[0];
                proof {
                    assert(command@ =~= seq![register]);
                    assert(data@ =~= seq![value]);
                }
                Ok(value)
            },
            Err(e) => Err(Error::I2C(e)),
        }
    }
}

} // verus!
