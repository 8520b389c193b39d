//! Configuration operations: interrupt enable, measurement and
//! configuration mode, integration time and current division ratio.
//!
//! Every setter derives the new configuration byte from the cached copy of
//! the register, writes it as a single bus transaction, and updates the
//! cache only after the write succeeded. The integration time and the
//! current division ratio can only be set while the cached configuration
//! has the manual bit set; otherwise the setter fails without touching the
//! bus, since the hardware would silently ignore such a write.

use vstd::prelude::*;

use crate::bus::{register_write, Bus};
use crate::codec::{
    configuration_mode_config, current_division_ratio_config, encode_integration_time,
    integration_time_config, measurement_mode_config,
};
use crate::types::{
    ConfigurationMode, CurrentDivisionRatio, Error, IntegrationTime, MeasurementMode,
};
use crate::{Max44009, CDR_BIT, CONFIGURATION_REGISTER, CONTINUOUS_BIT, INT_ENABLE_REGISTER,
    MANUAL_BIT};

verus! {

impl<B: Bus> Max44009<B> {
    /// Enable interrupt.
    ///
    /// The INT pin will be pulled low if the interrupt condition is
    /// triggered. Writes 1 to the interrupt enable register as a single
    /// transaction; the configuration register is not touched.
    pub fn enable_interrupt(&mut self) -> (result: Result<(), Error<B::BusError>>)
        ensures
            final(self).device_address() == old(self).device_address(),
            final(self).cached_config() == old(self).cached_config(),
            match result {
                Ok(()) => final(self).bus_log() == old(self).bus_log().push(
                    register_write(old(self).device_address(), INT_ENABLE_REGISTER, 1),
                ),
                Err(e) => e matches Error::I2C(_) && final(self).bus_log() == old(self).bus_log(),
            },
    {
        self.write_register(INT_ENABLE_REGISTER, 1)
    }

    /// Disable interrupt.
    ///
    /// Writes 0 to the interrupt enable register as a single transaction;
    /// the configuration register is not touched.
    pub fn disable_interrupt(&mut self) -> (result: Result<(), Error<B::BusError>>)
        ensures
            final(self).device_address() == old(self).device_address(),
            final(self).cached_config() == old(self).cached_config(),
            match result {
                Ok(()) => final(self).bus_log() == old(self).bus_log().push(
                    register_write(old(self).device_address(), INT_ENABLE_REGISTER, 0),
                ),
                Err(e) => e matches Error::I2C(_) && final(self).bus_log() == old(self).bus_log(),
            },
    {
        self.write_register(INT_ENABLE_REGISTER, 0)
    }

    /// Set the measurement mode.
    ///
    /// Sets or clears the continuous-measurement flag of the cached
    /// configuration byte and writes the result to the configuration
    /// register.
    pub fn set_measurement_mode(&mut self, mode: MeasurementMode) -> (result: Result<
        (),
        Error<B::BusError>,
    >)
        ensures
            final(self).device_address() == old(self).device_address(),
            match result {
                Ok(()) => {
                    let config = measurement_mode_config(old(self).cached_config(), mode);
                    final(self).cached_config() == config && final(self).bus_log() == old(
                        self,
                    ).bus_log().push(
                        register_write(old(self).device_address(), CONFIGURATION_REGISTER, config),
                    )
                },
                Err(e) => e matches Error::I2C(_) && final(self).cached_config() == old(
                    self,
                ).cached_config() && final(self).bus_log() == old(self).bus_log(),
            },
    {
        let config = self.config;
        match mode {
            MeasurementMode::OnceEvery800ms => self.write_config(config & !CONTINUOUS_BIT),
            MeasurementMode::Continuous => self.write_config(config | CONTINUOUS_BIT),
        }
    }

    /// Set configuration mode.
    ///
    /// Sets or clears the manual-configuration flag of the cached
    /// configuration byte and writes the result to the configuration
    /// register.
    pub fn set_configuration_mode(&mut self, mode: ConfigurationMode) -> (result: Result<
        (),
        Error<B::BusError>,
    >)
        ensures
            final(self).device_address() == old(self).device_address(),
            match result {
                Ok(()) => {
                    let config = configuration_mode_config(old(self).cached_config(), mode);
                    final(self).cached_config() == config && final(self).bus_log() == old(
                        self,
                    ).bus_log().push(
                        register_write(old(self).device_address(), CONFIGURATION_REGISTER, config),
                    )
                },
                Err(e) => e matches Error::I2C(_) && final(self).cached_config() == old(
                    self,
                ).cached_config() && final(self).bus_log() == old(self).bus_log(),
            },
    {
        let config = self.config;
        match mode {
            ConfigurationMode::Automatic => self.write_config(config & !MANUAL_BIT),
            ConfigurationMode::Manual => self.write_config(config | MANUAL_BIT),
        }
    }

    /// Set integration time. (Only in manual configuration mode.)
    ///
    /// While the cached configuration has the manual bit clear this fails
    /// with [`Error::OperationNotAvailable`] and no bus transaction occurs.
    /// Otherwise bits 2-0 of the cached byte are replaced by the time's
    /// 3-bit code and the result is written to the configuration register.
    pub fn set_integration_time(&mut self, it: IntegrationTime) -> (result: Result<
        (),
        Error<B::BusError>,
    >)
        ensures
            final(self).device_address() == old(self).device_address(),
            old(self).cached_config() & MANUAL_BIT == 0 ==> (result matches Err(
                Error::OperationNotAvailable,
            ) && final(self).cached_config() == old(self).cached_config() && final(self).bus_log()
                == old(self).bus_log()),
            old(self).cached_config() & MANUAL_BIT != 0 ==> match result {
                Ok(()) => {
                    let config = integration_time_config(old(self).cached_config(), it);
                    final(self).cached_config() == config && final(self).bus_log() == old(
                        self,
                    ).bus_log().push(
                        register_write(old(self).device_address(), CONFIGURATION_REGISTER, config),
                    )
                },
                Err(e) => e matches Error::I2C(_) && final(self).cached_config() == old(
                    self,
                ).cached_config() && final(self).bus_log() == old(self).bus_log(),
            },
    {
        if let Err(e) = self.assert_is_in_manual_mode() {
            return Err(e);
        }
        let config = self.config & 0xF8;
        let code = encode_integration_time(it);
        self.write_config(config | code)
    }

    /// Set current division ratio. (Only in manual configuration mode.)
    ///
    /// While the cached configuration has the manual bit clear this fails
    /// with [`Error::OperationNotAvailable`] and no bus transaction occurs.
    /// Otherwise the current-division-ratio flag of the cached byte is set
    /// or cleared and the result is written to the configuration register.
    pub fn set_current_division_ratio(&mut self, cdr: CurrentDivisionRatio) -> (result: Result<
        (),
        Error<B::BusError>,
    >)
        ensures
            final(self).device_address() == old(self).device_address(),
            old(self).cached_config() & MANUAL_BIT == 0 ==> (result matches Err(
                Error::OperationNotAvailable,
            ) && final(self).cached_config() == old(self).cached_config() && final(self).bus_log()
                == old(self).bus_log()),
            old(self).cached_config() & MANUAL_BIT != 0 ==> match result {
                Ok(()) => {
                    let config = current_division_ratio_config(old(self).cached_config(), cdr);
                    final(self).cached_config() == config && final(self).bus_log() == old(
                        self,
                    ).bus_log().push(
                        register_write(old(self).device_address(), CONFIGURATION_REGISTER, config),
                    )
                },
                Err(e) => e matches Error::I2C(_) && final(self).cached_config() == old(
                    self,
                ).cached_config() && final(self).bus_log() == old(self).bus_log(),
            },
    {
        if let Err(e) = self.assert_is_in_manual_mode() {
            return Err(e);
        }
        let config = self.config;
        match cdr {
            CurrentDivisionRatio::One => self.write_config(config & !CDR_BIT),
            CurrentDivisionRatio::OneEighth => self.write_config(config | CDR_BIT),
        }
    }

    /// Write `value` to `register` as a single two-byte bus transaction.
    fn write_register(&mut self, register: u8, value: u8) -> (result: Result<
        (),
        Error<B::BusError>,
    >)
        ensures
            final(self).device_address() == old(self).device_address(),
            final(self).cached_config() == old(self).cached_config(),
            match result {
                Ok(()) => final(self).bus_log() == old(self).bus_log().push(
                    register_write(old(self).device_address(), register, value),
                ),
                Err(e) => e matches Error::I2C(_) && final(self).bus_log() == old(self).bus_log(),
            },
    {
        let payload: [u8; 2] = [register, value];
        match self.bus.write(self.address, payload.as_slice()) {
            Ok(()) => {
                proof {
                    assert(payload@ =~= seq![register, value]);
                }
                Ok(())
            },
            Err(e) => Err(Error::I2C(e)),
        }
    }

    /// Write a new configuration byte; the cache is updated only after the
    /// write succeeded, so it always reflects the last known register state.
    pub(crate) fn write_config(&mut self, config: u8) -> (result: Result<(), Error<B::BusError>>)
        ensures
            final(self).device_address() == old(self).device_address(),
            match result {
                Ok(()) => final(self).cached_config() == config && final(self).bus_log() == old(
                    self,
                ).bus_log().push(
                    register_write(old(self).device_address(), CONFIGURATION_REGISTER, config),
                ),
                Err(e) => e matches Error::I2C(_) && final(self).cached_config() == old(
                    self,
                ).cached_config() && final(self).bus_log() == old(self).bus_log(),
            },
    {
        match self.write_register(CONFIGURATION_REGISTER, config) {
            Ok(()) => {
                self.config = config;
                Ok(())
            },
            Err(e) => Err(e),
        }
    }

    /// Check the manual-mode guard: fails with
    /// [`Error::OperationNotAvailable`] while the cached configuration has
    /// the manual bit clear.
    pub(crate) fn assert_is_in_manual_mode(&self) -> (result: Result<(), Error<B::BusError>>)
        ensures
            result is Ok <==> self.cached_config() & MANUAL_BIT != 0,
            result is Err ==> result matches Err(Error::OperationNotAvailable),
    {
        if (self.config & MANUAL_BIT) == 0 {
            return Err(Error::OperationNotAvailable);
        }
        Ok(())
    }
}

} // verus!
