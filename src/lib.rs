//! Driver logic for the VEML6030 / VEML7700 ambient light sensors.
//!
//! The library holds what the driver decides: the sensor's settings, the
//! encoding of those settings into the configuration word, the framing of
//! register transfers, the decoding of the interrupt status, and the exact
//! lux-per-count conversion table together with the rule that says when the
//! high-illuminance correction applies.
pub mod config;
pub mod conversion;
mod device;
mod types;

pub use crate::conversion::{
    has_high_lux_correction, lux_raw_conversion_factor, needs_high_lux_correction,
    CORRECTION_THRESHOLD_LUX, FACTOR_SCALE,
};
pub use crate::device::Veml6030;
pub use crate::types::{
    Error, FaultCount, Gain, IntegrationTime, InterruptStatus, PowerSavingMode, SlaveAddr,
};
