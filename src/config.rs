//! Register map, configuration word and transfer framing.
//!
//! The configuration register (`ALS_CONF`) packs, from the lowest bit up: the
//! shutdown flag (bit 0), the interrupt enable (bit 1), the fault count
//! (bits 4-5), the integration time (bits 6-9) and the gain (bits 11-12).
use vstd::prelude::*;

use crate::types::{FaultCount, Gain, IntegrationTime, InterruptStatus, PowerSavingMode};

verus! {

/// Configuration register.
pub const ALS_CONF: u8 = 0x00;

/// High threshold window register.
pub const ALS_WH: u8 = 0x01;

/// Low threshold window register.
pub const ALS_WL: u8 = 0x02;

/// Power-saving mode register.
pub const PSM: u8 = 0x03;

/// Ambient light output register.
pub const ALS: u8 = 0x04;

/// White channel output register.
pub const WHITE: u8 = 0x05;

/// Interrupt status register.
pub const ALS_INT: u8 = 0x06;

/// Shutdown flag of the configuration word.
pub const ALS_SD: u16 = 0x01;

/// Interrupt enable flag of the configuration word.
pub const ALS_INT_EN: u16 = 0x02;

/// Enable flag of the power-saving register.
pub const PSM_EN: u16 = 0x01;

/// Interrupt status flag: the low threshold was crossed.
pub const INT_TH_LOW: u16 = 0x8000;

/// Interrupt status flag: the high threshold was crossed.
pub const INT_TH_HIGH: u16 = 0x4000;

/// Bits of the configuration word that hold the fault count.
pub const FAULT_COUNT_MASK: u16 = 0x0030;

/// Bits of the configuration word that hold the integration time.
pub const INTEGRATION_TIME_MASK: u16 = 0x03C0;

/// Bits of the configuration word that hold the gain.
pub const GAIN_MASK: u16 = 0x1800;

/// Code of an integration time in bits 6-9 of the configuration word.
pub open spec fn integration_time_code(it: IntegrationTime) -> u16 {
    match it {
        IntegrationTime::Ms25 => 0b1100,
        IntegrationTime::Ms50 => 0b1000,
        IntegrationTime::Ms100 => 0b0000,
        IntegrationTime::Ms200 => 0b0001,
        IntegrationTime::Ms400 => 0b0010,
        IntegrationTime::Ms800 => 0b0011,
    }
}

/// Code of a gain in bits 11-12 of the configuration word.
pub open spec fn gain_code(gain: Gain) -> u16 {
    match gain {
        Gain::One => 0,
        Gain::Two => 1,
        Gain::OneEighth => 2,
        Gain::OneQuarter => 3,
    }
}

/// Code of a fault count in bits 4-5 of the configuration word.
pub open spec fn fault_count_code(fc: FaultCount) -> u16 {
    match fc {
        FaultCount::One => 0,
        FaultCount::Two => 1,
        FaultCount::Four => 2,
        FaultCount::Eight => 3,
    }
}

/// Code of a power-saving mode in bits 1-2 of the power-saving register.
pub open spec fn power_saving_code(psm: PowerSavingMode) -> u16 {
    match psm {
        PowerSavingMode::One => 0,
        PowerSavingMode::Two => 1,
        PowerSavingMode::Three => 2,
        PowerSavingMode::Four => 3,
    }
}

/// Contents of the configuration register.
#[derive(Debug, Clone, Copy, PartialEq, Eq, Structural)]
pub struct Config {
    /// The 16-bit register value.
    pub bits: u16,
}

impl Config {
    /// The word with the bits of `mask` set.
    pub fn with_high(self, mask: u16) -> (r: Config)
        ensures
            r.bits == self.bits | mask,
    {
        Config { bits: self.bits | mask }
    }

    /// The word with the bits of `mask` cleared.
    pub fn with_low(self, mask: u16) -> (r: Config)
        ensures
            r.bits == self.bits & !mask,
    {
        Config { bits: self.bits & !mask }
    }

    /// The word with the integration time field set to `it`; the other bits
    /// are kept.
    pub fn with_integration_time(self, it: IntegrationTime) -> (r: Config)
        ensures
            (r.bits >> 6u16) & 0xF == integration_time_code(it),
            r.bits & !INTEGRATION_TIME_MASK == self.bits & !INTEGRATION_TIME_MASK,
    {
        let code: u16 = match it {
            IntegrationTime::Ms25 => 0b1100,
            IntegrationTime::Ms50 => 0b1000,
            IntegrationTime::Ms100 => 0b0000,
            IntegrationTime::Ms200 => 0b0001,
            IntegrationTime::Ms400 => 0b0010,
            IntegrationTime::Ms800 => 0b0011,
        };
        let prev = self.bits;
        let bits = prev & !INTEGRATION_TIME_MASK | (code << 6u16);
        assert(((bits >> 6u16) & 0xF == code) && (bits & !0x03C0u16 == prev & !0x03C0u16))
            by (bit_vector)
            requires
                code <= 0xF,
                bits == prev & !0x03C0u16 | (code << 6u16),
        ;
        Config { bits }
    }

    /// The word with the gain field set to `gain`; the other bits are kept.
    pub fn with_gain(self, gain: Gain) -> (r: Config)
        ensures
            (r.bits >> 11u16) & 0x3 == gain_code(gain),
            r.bits & !GAIN_MASK == self.bits & !GAIN_MASK,
    {
        let code: u16 = match gain {
            Gain::One => 0,
            Gain::Two => 1,
            Gain::OneEighth => 2,
            Gain::OneQuarter => 3,
        };
        let prev = self.bits;
        let bits = prev & !GAIN_MASK | (code << 11u16);
        assert(((bits >> 11u16) & 0x3 == code) && (bits & !0x1800u16 == prev & !0x1800u16))
            by (bit_vector)
            requires
                code <= 0x3,
                bits == prev & !0x1800u16 | (code << 11u16),
        ;
        Config { bits }
    }

    /// The word with the fault count field set to `fc`; the other bits are
    /// kept.
    pub fn with_fault_count(self, fc: FaultCount) -> (r: Config)
        ensures
            (r.bits >> 4u16) & 0x3 == fault_count_code(fc),
            r.bits & !FAULT_COUNT_MASK == self.bits & !FAULT_COUNT_MASK,
    {
        let code: u16 = match fc {
            FaultCount::One => 0,
            FaultCount::Two => 1,
            FaultCount::Four => 2,
            FaultCount::Eight => 3,
        };
        let prev = self.bits;
        let bits = prev & !FAULT_COUNT_MASK | (code << 4u16);
        assert(((bits >> 4u16) & 0x3 == code) && (bits & !0x0030u16 == prev & !0x0030u16))
            by (bit_vector)
            requires
                code <= 0x3,
                bits == prev & !0x0030u16 | (code << 4u16),
        ;
        Config { bits }
    }
}

/// Value of the power-saving register that enables mode `psm`: the enable
/// flag in bit 0 and the mode's code in bits 1-2.
pub fn power_saving_value(psm: PowerSavingMode) -> (r: u16)
    ensures
        r == PSM_EN + 2 * power_saving_code(psm),
{
    let code: u16 = match psm {
        PowerSavingMode::One => 0,
        PowerSavingMode::Two => 1,
        PowerSavingMode::Three => 2,
        PowerSavingMode::Four => 3,
    };
    let r = PSM_EN | (code << 1u16);
    assert(r == 1 + 2 * code) by (bit_vector)
        requires
            code <= 3,
            r == 1u16 | (code << 1u16),
    ;
    r
}

/// Bytes sent to write `value` into `register`: the register address, then
/// the value's low byte, then its high byte.
pub fn register_write_frame(register: u8, value: u16) -> (r: [u8; 3])
    ensures
        r@ == seq![register, (value % 256) as u8, (value / 256) as u8],
{
    let low = (value & 0xFF) as u8;
    let high = (value >> 8u16) as u8;
    assert((value & 0xFF) == value % 256 && (value >> 8u16) == value / 256) by (bit_vector);
    let r = [register, low, high];
    assert(r@ =~= seq![register, (value % 256) as u8, (value / 256) as u8]);
    r
}

/// Register value read as two bytes, the low byte first.
pub fn register_value(data: [u8; 2]) -> (r: u16)
    ensures
        r == data@[0] + 256 * data@[1],
{
    let low = data[0];
    let high = data[1];
    let r = (low as u16) | ((high as u16) << 8u16);
    assert(r == low + 256 * high) by (bit_vector)
        requires
            r == (low as u16) | ((high as u16) << 8u16),
    ;
    r
}

impl InterruptStatus {
    /// Interrupt status held in the value of the `ALS_INT` register: bit 15
    /// reports the low threshold, bit 14 the high threshold.
    pub fn from_register(data: u16) -> (r: InterruptStatus)
        ensures
            r.was_too_low == (data / 0x8000 % 2 == 1),
            r.was_too_high == (data / 0x4000 % 2 == 1),
    {
        let low = data & INT_TH_LOW != 0;
        let high = data & INT_TH_HIGH != 0;
        assert(((data & 0x8000u16 != 0) == (data / 0x8000 % 2 == 1)) && ((data & 0x4000u16 != 0)
            == (data / 0x4000 % 2 == 1))) by (bit_vector);
        InterruptStatus { was_too_low: low, was_too_high: high }
    }
}

} // verus!
