//! The driver handle: the bus, the device's address and the settings that
//! were last written to it.
use vstd::prelude::*;

use crate::config::{
    gain_code, integration_time_code, Config, ALS_SD, GAIN_MASK, INTEGRATION_TIME_MASK,
};
use crate::types::{Gain, IntegrationTime, SlaveAddr};

verus! {

/// VEML6030 device driver.
#[derive(Debug)]
pub struct Veml6030<I2C> {
    /// The concrete I²C device implementation.
    i2c: I2C,
    address: u8,
    config: Config,
    gain: Gain,
    it: IntegrationTime,
}

impl<I2C> Veml6030<I2C> {
    /// The bus held by the driver.
    pub closed spec fn bus(&self) -> I2C {
        self.i2c
    }

    /// The device's bus address.
    pub closed spec fn spec_address(&self) -> u8 {
        self.address
    }

    /// The configuration word last written to the device.
    pub closed spec fn spec_config(&self) -> Config {
        self.config
    }

    /// The gain last written to the device.
    pub closed spec fn spec_gain(&self) -> Gain {
        self.gain
    }

    /// The integration time last written to the device.
    pub closed spec fn spec_integration_time(&self) -> IntegrationTime {
        self.it
    }

    /// Create new instance of the VEML6030 device. The device starts shut
    /// down, at gain 1 and 100 ms.
    pub fn new(i2c: I2C, address: SlaveAddr) -> (r: Self)
        ensures
            r.bus() == i2c,
            r.spec_address() == address.spec_addr(),
            r.spec_config() == (Config { bits: ALS_SD }),
            r.spec_gain() == Gain::One,
            r.spec_integration_time() == IntegrationTime::Ms100,
            r.settings_agree(),
    {
        assert((ALS_SD >> 6u16) & 0xF == 0 && (ALS_SD >> 11u16) & 0x3 == 0) by (bit_vector);
        Veml6030 {
            i2c,
            address: address.addr(),
            config: Config { bits: ALS_SD },
            gain: Gain::One,
            it: IntegrationTime::Ms100,
        }
    }

    /// Destroy driver instance, return I²C bus instance.
    pub fn destroy(self) -> (r: I2C)
        ensures
            r == self.bus(),
    {
        self.i2c
    }

    /// The device's bus address.
    pub fn address(&self) -> (r: u8)
        ensures
            r == self.spec_address(),
    {
        self.address
    }

    /// The configuration word last written to the device.
    pub fn config(&self) -> (r: Config)
        ensures
            r == self.spec_config(),
    {
        self.config
    }

    /// The gain last written to the device.
    pub fn gain(&self) -> (r: Gain)
        ensures
            r == self.spec_gain(),
    {
        self.gain
    }

    /// The integration time last written to the device.
    pub fn integration_time(&self) -> (r: IntegrationTime)
        ensures
            r == self.spec_integration_time(),
    {
        self.it
    }

    /// The bus, for a transfer; the settings are left as they are.
    pub fn bus_mut(&mut self) -> (r: &mut I2C)
        ensures
            *r == old(self).bus(),
            final(self).bus() == *final(r),
            final(self).spec_address() == old(self).spec_address(),
            final(self).spec_config() == old(self).spec_config(),
            final(self).spec_gain() == old(self).spec_gain(),
            final(self).spec_integration_time() == old(self).spec_integration_time(),
    {
        &mut self.i2c
    }

    /// The gain and integration time recorded in the driver are those that
    /// its configuration word selects.
    pub open spec fn settings_agree(&self) -> bool {
        &&& (self.spec_config().bits >> 6u16) & 0xF == integration_time_code(
            self.spec_integration_time(),
        )
        &&& (self.spec_config().bits >> 11u16) & 0x3 == gain_code(self.spec_gain())
    }

    /// Record that `config` was written to the configuration register. Where
    /// `config` leaves the gain and integration time fields as they were, the
    /// recorded settings still agree with the word.
    pub fn config_written(&mut self, config: Config)
        ensures
            final(self).spec_config() == config,
            final(self).bus() == old(self).bus(),
            final(self).spec_address() == old(self).spec_address(),
            final(self).spec_gain() == old(self).spec_gain(),
            final(self).spec_integration_time() == old(self).spec_integration_time(),
            old(self).settings_agree() && config.bits & (INTEGRATION_TIME_MASK | GAIN_MASK)
                == old(self).spec_config().bits & (INTEGRATION_TIME_MASK | GAIN_MASK)
                ==> final(self).settings_agree(),
    {
        let prev = self.config.bits;
        let next = config.bits;
        assert(INTEGRATION_TIME_MASK | GAIN_MASK == 0x1BC0u16) by (bit_vector);
        assert((next & 0x1BC0u16 == prev & 0x1BC0u16) ==> ((next >> 6u16) & 0xF == (prev >> 6u16)
            & 0xF && (next >> 11u16) & 0x3 == (prev >> 11u16) & 0x3)) by (bit_vector);
        self.config = config;
    }

    /// Record that the word selecting the integration time `it` was written
    /// to the configuration register.
    pub fn integration_time_written(&mut self, it: IntegrationTime)
        ensures
            (final(self).spec_config().bits >> 6u16) & 0xF == integration_time_code(it),
            final(self).spec_config().bits & !INTEGRATION_TIME_MASK == old(self).spec_config().bits
                & !INTEGRATION_TIME_MASK,
            final(self).spec_integration_time() == it,
            final(self).bus() == old(self).bus(),
            final(self).spec_address() == old(self).spec_address(),
            final(self).spec_gain() == old(self).spec_gain(),
            old(self).settings_agree() ==> final(self).settings_agree(),
    {
        let prev = self.config.bits;
        let config = self.config.with_integration_time(it);
        let next = config.bits;
        assert((next & !0x03C0u16 == prev & !0x03C0u16) ==> ((next >> 11u16) & 0x3 == (prev
            >> 11u16) & 0x3)) by (bit_vector);
        self.config = config;
        self.it = it;
    }

    /// Record that the word selecting the gain `gain` was written to the
    /// configuration register.
    pub fn gain_written(&mut self, gain: Gain)
        ensures
            (final(self).spec_config().bits >> 11u16) & 0x3 == gain_code(gain),
            final(self).spec_config().bits & !GAIN_MASK == old(self).spec_config().bits & !GAIN_MASK,
            final(self).spec_gain() == gain,
            final(self).bus() == old(self).bus(),
            final(self).spec_address() == old(self).spec_address(),
            final(self).spec_integration_time() == old(self).spec_integration_time(),
            old(self).settings_agree() ==> final(self).settings_agree(),
    {
        let prev = self.config.bits;
        let config = self.config.with_gain(gain);
        let next = config.bits;
        assert((next & !0x1800u16 == prev & !0x1800u16) ==> ((next >> 6u16) & 0xF == (prev
            >> 6u16) & 0xF)) by (bit_vector);
        self.config = config;
        self.gain = gain;
    }
}

} // verus!
