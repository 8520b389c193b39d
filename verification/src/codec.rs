//! The bit-level protocol translation layer: the mapping between semantic
//! configuration values and the sensor's configuration register, and the
//! decoding of the compressed two-byte lux reading.

use vstd::prelude::*;

use crate::types::{ConfigurationMode, CurrentDivisionRatio, IntegrationTime, MeasurementMode};
use crate::{CDR_BIT, CONTINUOUS_BIT, MANUAL_BIT};

verus! {

/// The 3-bit code the sensor uses for an integration time: the ordinal of
/// the time in the falling sequence 800ms, 400ms, ..., 6.25ms.
pub open spec fn integration_time_code(it: IntegrationTime) -> u8 {
    match it {
        IntegrationTime::_800ms => 0,
        IntegrationTime::_400ms => 1,
        IntegrationTime::_200ms => 2,
        IntegrationTime::_100ms => 3,
        IntegrationTime::_50ms => 4,
        IntegrationTime::_25ms => 5,
        IntegrationTime::_12_5ms => 6,
        IntegrationTime::_6_25ms => 7,
    }
}

/// The integration time a 3-bit code stands for. Total over `u8`: every
/// value from 7 up maps to the shortest time, but only codes 0 through 7 can
/// come out of the register's 3-bit field.
pub open spec fn integration_time_from_code(code: u8) -> IntegrationTime {
    if code == 0 {
        IntegrationTime::_800ms
    } else if code == 1 {
        IntegrationTime::_400ms
    } else if code == 2 {
        IntegrationTime::_200ms
    } else if code == 3 {
        IntegrationTime::_100ms
    } else if code == 4 {
        IntegrationTime::_50ms
    } else if code == 5 {
        IntegrationTime::_25ms
    } else if code == 6 {
        IntegrationTime::_12_5ms
    } else {
        IntegrationTime::_6_25ms
    }
}

/// Law: decoding inverts encoding — every integration time comes back
/// unchanged from a round trip through its 3-bit code.
pub proof fn lemma_integration_time_round_trip(it: IntegrationTime)
    ensures
        integration_time_from_code(integration_time_code(it)) == it,
{
}

/// Encode an integration time as its 3-bit register code.
pub fn encode_integration_time(it: IntegrationTime) -> (code: u8)
    ensures
        code == integration_time_code(it),
        code < 8,
{
    match it {
        IntegrationTime::_800ms => 0,
        IntegrationTime::_400ms => 1,
        IntegrationTime::_200ms => 2,
        IntegrationTime::_100ms => 3,
        IntegrationTime::_50ms => 4,
        IntegrationTime::_25ms => 5,
        IntegrationTime::_12_5ms => 6,
        IntegrationTime::_6_25ms => 7,
    }
}

/// Decode a 3-bit register code into its integration time.
pub fn decode_integration_time(code: u8) -> (it: IntegrationTime)
    ensures
        it == integration_time_from_code(code),
{
    match code {
        0 => IntegrationTime::_800ms,
        1 => IntegrationTime::_400ms,
        2 => IntegrationTime::_200ms,
        3 => IntegrationTime::_100ms,
        4 => IntegrationTime::_50ms,
        5 => IntegrationTime::_25ms,
        6 => IntegrationTime::_12_5ms,
        _ => IntegrationTime::_6_25ms,
    }
}

/// The configuration byte after selecting a measurement mode: bit 7 set for
/// continuous measurement, cleared for the once-every-800ms default.
pub open spec fn measurement_mode_config(config: u8, mode: MeasurementMode) -> u8 {
    match mode {
        MeasurementMode::OnceEvery800ms => config & !CONTINUOUS_BIT,
        MeasurementMode::Continuous => config | CONTINUOUS_BIT,
    }
}

/// The configuration byte after selecting a configuration mode: bit 6 set
/// for manual, cleared for automatic.
pub open spec fn configuration_mode_config(config: u8, mode: ConfigurationMode) -> u8 {
    match mode {
        ConfigurationMode::Automatic => config & !MANUAL_BIT,
        ConfigurationMode::Manual => config | MANUAL_BIT,
    }
}

/// The configuration byte after selecting a current division ratio: bit 3
/// set for the 1/8 ratio, cleared for no division.
pub open spec fn current_division_ratio_config(config: u8, cdr: CurrentDivisionRatio) -> u8 {
    match cdr {
        CurrentDivisionRatio::One => config & !CDR_BIT,
        CurrentDivisionRatio::OneEighth => config | CDR_BIT,
    }
}

/// The configuration byte after selecting an integration time: bits 2-0
/// replaced by the time's 3-bit code.
pub open spec fn integration_time_config(config: u8, it: IntegrationTime) -> u8 {
    (config & 0xF8) | integration_time_code(it)
}

/// Whether the reserved bits 5 and 4 of a configuration byte are clear.
/// The sensor defines no meaning for them and the driver never sets them.
pub open spec fn reserved_bits_clear(config: u8) -> bool {
    config & 0b0011_0000 == 0
}

/// Law: every configuration update preserves the reserved bits. Since the
/// cached configuration starts at the all-zero power-on default, a driver
/// only ever writes bytes whose reserved bits are clear.
pub proof fn lemma_config_updates_preserve_reserved_bits(
    config: u8,
    mode: MeasurementMode,
    cmode: ConfigurationMode,
    cdr: CurrentDivisionRatio,
    it: IntegrationTime,
)
    requires
        reserved_bits_clear(config),
    ensures
        reserved_bits_clear(measurement_mode_config(config, mode)),
        reserved_bits_clear(configuration_mode_config(config, cmode)),
        reserved_bits_clear(current_division_ratio_config(config, cdr)),
        reserved_bits_clear(integration_time_config(config, it)),
{
    let code = integration_time_code(it);
    assert(code < 8);
    assert(config & 0b0011_0000 == 0 ==> {
        &&& (config | 0b1000_0000) & 0b0011_0000 == 0
        &&& (config & !0b1000_0000) & 0b0011_0000 == 0
        &&& (config | 0b0100_0000) & 0b0011_0000 == 0
        &&& (config & !0b0100_0000) & 0b0011_0000 == 0
        &&& (config | 0b0000_1000) & 0b0011_0000 == 0
        &&& (config & !0b0000_1000) & 0b0011_0000 == 0
    }) by (bit_vector);
    assert(config & 0b0011_0000 == 0 && code < 8 ==> ((config & 0xF8) | code) & 0b0011_0000 == 0)
        by (bit_vector);
}

/// The current division ratio a configuration register byte selects.
pub open spec fn current_division_ratio_of(config: u8) -> CurrentDivisionRatio {
    if config & CDR_BIT == 0 {
        CurrentDivisionRatio::One
    } else {
        CurrentDivisionRatio::OneEighth
    }
}

/// The 8-bit mantissa assembled from the two lux data registers: the low
/// nibble of each, high nibble first.
pub open spec fn lux_mantissa(msb: u8, lsb: u8) -> u8 {
    (msb & 0x0F) << 4 | (lsb & 0x0F)
}

/// The 4-bit exponent held in the high nibble of the first lux data register.
pub open spec fn lux_exponent(msb: u8) -> u8 {
    (msb & 0xF0) >> 4
}

/// The raw lux count encoded by the two lux data registers: the mantissa
/// scaled by two to the exponent. One count is 0.045 lux.
pub open spec fn lux_counts(msb: u8, lsb: u8) -> int {
    (1u32 << (lux_exponent(msb) as u32)) * (lux_mantissa(msb, lsb) as u32)
}

/// Decode the two lux data registers into the raw lux count. The count is
/// at most 2^15 * 255, well within `u32`; multiplying it by the sensor's
/// 0.045 lux-per-count resolution gives the illuminance.
pub fn convert_to_lux_counts(msb: u8, lsb: u8) -> (counts: u32)
    ensures
        counts == lux_counts(msb, lsb),
{
    let mantissa: u8 = (msb & 0x0F) << 4 | (lsb & 0x0F);
    let exponent: u8 = (msb & 0xF0) >> 4;
    proof {
        assert((msb & 0xF0) >> 4 < 16) by (bit_vector);
        assert(1u32 << ((((msb & 0xF0) >> 4)) as u32) <= 0x8000u32) by (bit_vector);
    }
    let shifted: u32 = 1u32 << (exponent as u32);
    proof {
        assert(shifted * (mantissa as u32) <= 0x8000 * 255) by (nonlinear_arith)
            requires
                shifted <= 0x8000u32,
                mantissa as u32 <= 255,
        ;
    }
    shifted * (mantissa as u32)
}

} // verus!
