//! Lux-per-count conversion table and the rule that selects the
//! high-illuminance correction.
//!
//! A conversion factor is held exactly, as a whole number of ten-thousandths
//! of a lux per raw count: one count at gain 1 and 100 ms is worth
//! 576 / 10000 = 0.0576 lx.
use vstd::prelude::*;

use crate::types::{Gain, IntegrationTime};

verus! {

/// Denominator of every conversion factor: a factor `f` means `f / 10000` lx
/// per raw count.
pub const FACTOR_SCALE: u32 = 10000;

/// Linear illuminance, in lux, above which the high-illuminance correction
/// applies under the low gains.
pub const CORRECTION_THRESHOLD_LUX: u32 = 1000;

/// The gain's share of the conversion factor: a smaller gain needs more
/// light for the same count.
pub open spec fn gain_factor(gain: Gain) -> nat {
    match gain {
        Gain::OneEighth => 16,
        Gain::OneQuarter => 8,
        Gain::One => 2,
        Gain::Two => 1,
    }
}

/// The integration time's share of the conversion factor, in ten-thousandths
/// of a lux per count (0.1152 at 25 ms, halving at each doubling of the time).
pub open spec fn integration_time_factor(it: IntegrationTime) -> nat {
    match it {
        IntegrationTime::Ms25 => 1152,
        IntegrationTime::Ms50 => 576,
        IntegrationTime::Ms100 => 288,
        IntegrationTime::Ms200 => 144,
        IntegrationTime::Ms400 => 72,
        IntegrationTime::Ms800 => 36,
    }
}

/// Lux per raw count, in ten-thousandths of a lux.
pub open spec fn conversion_factor(it: IntegrationTime, gain: Gain) -> nat {
    gain_factor(gain) * integration_time_factor(it)
}

/// The gains under which high readings are corrected.
pub open spec fn is_low_gain(gain: Gain) -> bool {
    gain == Gain::OneQuarter || gain == Gain::OneEighth
}

/// Linear illuminance of a raw count, in ten-thousandths of a lux.
pub open spec fn linear_lux(it: IntegrationTime, gain: Gain, raw: nat) -> nat {
    raw * conversion_factor(it, gain)
}

/// Whether the reading `raw` is corrected: a low gain, and a linear value
/// above 1000 lx.
pub open spec fn correction_applies(it: IntegrationTime, gain: Gain, raw: nat) -> bool {
    is_low_gain(gain) && linear_lux(it, gain, raw) > CORRECTION_THRESHOLD_LUX * FACTOR_SCALE
}

/// Lux per raw count for the given settings, in ten-thousandths of a lux
/// (divide by [`FACTOR_SCALE`]).
pub fn lux_raw_conversion_factor(it: IntegrationTime, gain: Gain) -> (r: u32)
    ensures
        r == conversion_factor(it, gain),
{
    let gain_factor: u32 = match gain {
        Gain::Two => 1,
        Gain::One => 2,
        Gain::OneQuarter => 8,
        Gain::OneEighth => 16,
    };
    let it_factor: u32 = match it {
        IntegrationTime::Ms800 => 36,
        IntegrationTime::Ms400 => 72,
        IntegrationTime::Ms200 => 144,
        IntegrationTime::Ms100 => 288,
        IntegrationTime::Ms50 => 576,
        IntegrationTime::Ms25 => 1152,
    };
    gain_factor * it_factor
}

/// Whether high readings are corrected under this gain (1/4 and 1/8).
pub fn has_high_lux_correction(gain: Gain) -> (r: bool)
    ensures
        r == is_low_gain(gain),
{
    match gain {
        Gain::OneQuarter | Gain::OneEighth => true,
        Gain::One | Gain::Two => false,
    }
}

/// Whether the raw reading is converted with the high-illuminance
/// correction: the gain is 1/4 or 1/8 and the linear value exceeds 1000 lx.
/// The decision is made on the exact product of count and factor.
pub fn needs_high_lux_correction(it: IntegrationTime, gain: Gain, raw: u16) -> (r: bool)
    ensures
        r == correction_applies(it, gain, raw as nat),
{
    if !has_high_lux_correction(gain) {
        return false;
    }
    let factor = lux_raw_conversion_factor(it, gain);
    assert(raw as nat * factor <= 65535 * 18432) by (nonlinear_arith)
        requires
            raw <= 65535,
            factor <= 18432,
    ;
    let linear: u32 = raw as u32 * factor;
    linear > CORRECTION_THRESHOLD_LUX * FACTOR_SCALE
}

/// Every conversion factor is positive, and the integration time's share of
/// it times the integration time in milliseconds is the same for every
/// setting: the factor halves as the integration time doubles.
pub proof fn conversion_factor_laws(it: IntegrationTime, gain: Gain)
    ensures
        conversion_factor(it, gain) > 0,
        integration_time_factor(it) * it.ms() == 28800,
{
}

/// Readings at gain 1 or 2, and readings whose linear value is at most
/// 1000 lx, are not selected for the correction.
pub proof fn linear_region(it: IntegrationTime, gain: Gain, raw: nat)
    requires
        gain == Gain::One || gain == Gain::Two || linear_lux(it, gain, raw)
            <= CORRECTION_THRESHOLD_LUX * FACTOR_SCALE,
    ensures
        !correction_applies(it, gain, raw),
{
}

/// The corrected readings of one setting form an upper range of counts: once
/// a count is corrected, every larger count is too.
pub proof fn correction_is_upward_closed(it: IntegrationTime, gain: Gain, r1: nat, r2: nat)
    requires
        r1 <= r2,
        correction_applies(it, gain, r1),
    ensures
        correction_applies(it, gain, r2),
{
    let f = conversion_factor(it, gain);
    assert(r1 * f <= r2 * f) by (nonlinear_arith)
        requires
            r1 <= r2,
    ;
}

} // verus!
