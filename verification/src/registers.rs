//! The device's register map: the fixed bus address and the one-byte
//! addresses of every register the driver touches.

use vstd::prelude::*;

verus! {

/// MSB half of the slot-1 raw measurement.
pub const MEAS1_MSB: u8 = 0x00;

/// LSB half of the slot-1 raw measurement.
pub const MEAS1_LSB: u8 = 0x01;

/// MSB half of the slot-2 raw measurement.
pub const MEAS2_MSB: u8 = 0x02;

/// LSB half of the slot-2 raw measurement.
pub const MEAS2_LSB: u8 = 0x03;

/// MSB half of the slot-3 raw measurement.
pub const MEAS3_MSB: u8 = 0x04;

/// LSB half of the slot-3 raw measurement.
pub const MEAS3_LSB: u8 = 0x05;

/// MSB half of the slot-4 raw measurement.
pub const MEAS4_MSB: u8 = 0x06;

/// LSB half of the slot-4 raw measurement.
pub const MEAS4_LSB: u8 = 0x07;

/// Conversion-control register.
pub const FDC_CONF: u8 = 0x0C;

/// Manufacturer-id register; reads 0x5449 on a genuine device.
pub const MANUFACTURER_ID: u8 = 0xFE;

/// Device-id register; reads 0x1004 on a genuine device.
pub const DEVICE_ID: u8 = 0xFF;

/// The device's fixed 7-bit bus address (80 decimal, 0x50).
pub const ADDR: u8 = 80;

/// One of the four measurement slots, as the addressing key of its
/// configuration register.
#[derive(Clone, Copy, Debug, PartialEq, Eq, Structural)]
pub enum ConfigureMeasurement {
    Measurement1,
    Measurement2,
    Measurement3,
    Measurement4,
}

impl ConfigureMeasurement {
    /// The one-byte address of this slot's configuration register
    /// (0x08 through 0x0B).
    pub open spec fn spec_register(self) -> u8 {
        match self {
            ConfigureMeasurement::Measurement1 => 0x08,
            ConfigureMeasurement::Measurement2 => 0x09,
            ConfigureMeasurement::Measurement3 => 0x0A,
            ConfigureMeasurement::Measurement4 => 0x0B,
        }
    }

    /// Resolve the slot to its configuration-register address.
    pub fn register_address(self) -> (r: u8)
        ensures
            r == self.spec_register(),
    {
        match self {
            ConfigureMeasurement::Measurement1 => 0x08,
            ConfigureMeasurement::Measurement2 => 0x09,
            ConfigureMeasurement::Measurement3 => 0x0A,
            ConfigureMeasurement::Measurement4 => 0x0B,
        }
    }
}

} // verus!
