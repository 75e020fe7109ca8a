use vstd::prelude::*;

verus! {

/// All possible errors in this crate.
#[derive(Debug)]
pub enum Error<E> {
    /// I²C bus error.
    I2C(E),
}

/// Integration time.
#[derive(Debug, Clone, Copy, PartialEq, Eq, Structural)]
pub enum IntegrationTime {
    /// 25 ms
    Ms25,
    /// 50 ms
    Ms50,
    /// 100 ms (default)
    Ms100,
    /// 200 ms
    Ms200,
    /// 400 ms
    Ms400,
    /// 800 ms
    Ms800,
}

impl IntegrationTime {
    /// The integration time in milliseconds.
    pub open spec fn ms(self) -> nat {
        match self {
            IntegrationTime::Ms25 => 25,
            IntegrationTime::Ms50 => 50,
            IntegrationTime::Ms100 => 100,
            IntegrationTime::Ms200 => 200,
            IntegrationTime::Ms400 => 400,
            IntegrationTime::Ms800 => 800,
        }
    }

    /// Return the integration time in milliseconds.
    pub fn as_ms(&self) -> (r: u16)
        ensures
            r == self.ms(),
    {
        match self {
            IntegrationTime::Ms25 => 25,
            IntegrationTime::Ms50 => 50,
            IntegrationTime::Ms100 => 100,
            IntegrationTime::Ms200 => 200,
            IntegrationTime::Ms400 => 400,
            IntegrationTime::Ms800 => 800,
        }
    }

    /// Return the integration time in microseconds.
    pub fn as_us(&self) -> (r: u32)
        ensures
            r == 1000 * self.ms(),
    {
        (self.as_ms() as u32) * 1000
    }
}

/// Gain.
#[derive(Debug, Clone, Copy, PartialEq, Eq, Structural)]
pub enum Gain {
    /// 1/8
    OneEighth,
    /// 1/4
    OneQuarter,
    /// 1 (default)
    One,
    /// 2
    Two,
}

/// Fault count.
///
/// Number of consecutive fault events necessary to trigger an interrupt.
/// The datasheet calls this "persistence".
#[derive(Debug, Clone, Copy, PartialEq, Eq, Structural)]
pub enum FaultCount {
    /// One (default)
    One,
    /// Two
    Two,
    /// Four
    Four,
    /// Eight
    Eight,
}

/// Power-saving mode.
///
/// Together with the integration time this determines the repetition rate
/// and the power consumption of the device.
#[derive(Debug, Clone, Copy, PartialEq, Eq, Structural)]
pub enum PowerSavingMode {
    /// One
    One,
    /// Two
    Two,
    /// Three
    Three,
    /// Four
    Four,
}

/// Interrupt status.
#[derive(Debug, Clone, Copy, PartialEq, Eq, Structural)]
pub struct InterruptStatus {
    /// Whether the low threshold was crossed consecutively as many times
    /// as configured as fault count.
    pub was_too_low: bool,
    /// Whether the high threshold was crossed consecutively as many times
    /// as configured as fault count.
    pub was_too_high: bool,
}

/// Possible slave addresses.
#[derive(Debug, Clone, Copy, PartialEq, Eq, Structural)]
pub enum SlaveAddr {
    /// Default slave address
    Default,
    /// Alternative slave address providing bit value for the ADDR pin
    Alternative(bool),
}

impl SlaveAddr {
    /// The 7-bit bus address selected by this value.
    pub open spec fn spec_addr(self) -> u8 {
        match self {
            SlaveAddr::Alternative(true) => 0x48,
            _ => 0x10,
        }
    }

    /// The 7-bit bus address: 0x48 when the ADDR pin is high, 0x10 otherwise.
    pub fn addr(self) -> (r: u8)
        ensures
            r == self.spec_addr(),
    {
        match self {
            SlaveAddr::Default => 0x10,
            SlaveAddr::Alternative(true) => 0x48,
            SlaveAddr::Alternative(false) => 0x10,
        }
    }
}

impl Default for SlaveAddr {
    /// Default slave address.
    fn default() -> (r: Self)
        ensures
            r == SlaveAddr::Default,
    {
        SlaveAddr::Default
    }
}

} // verus!
