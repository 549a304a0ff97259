//! The driver facade: high-level device operations over a bus transport.
//!
//! Each operation turns into one or two transactions addressed against the
//! register map, with the codecs serializing and deserializing the register
//! payloads. The contracts pin down, through the transport's ghost logs,
//! exactly which transactions an operation issues, in what order, and how the
//! returned value is computed from the bytes the device handed back. A
//! transport failure on any step is surfaced immediately; nothing is retried
//! and no partial result is ever returned.

use vstd::prelude::*;

use crate::bus::frame;
use crate::bus::hi_byte;
use crate::bus::lo_byte;
use crate::bus::word_be;
use crate::bus::word_from_be;
use crate::bus::word_to_be;
use crate::bus::I2cBus;
use crate::control::FDCConfiguration;
use crate::errors::TransportError;
use crate::measurement::MeasurementConfiguration;
use crate::registers::ConfigureMeasurement;
use crate::registers::ADDR;
use crate::registers::DEVICE_ID;
use crate::registers::FDC_CONF;
use crate::registers::MANUFACTURER_ID;
use crate::registers::MEAS1_LSB;
use crate::registers::MEAS1_MSB;
use crate::registers::MEAS2_LSB;
use crate::registers::MEAS2_MSB;
use crate::registers::MEAS3_LSB;
use crate::registers::MEAS3_MSB;
use crate::registers::MEAS4_LSB;
use crate::registers::MEAS4_MSB;

verus! {

/// The 32-bit raw measurement assembled from the words of the MSB and LSB
/// registers: the MSB register's word in the upper half, the LSB register's
/// word in the lower half. Only the upper 24 bits carry data on real
/// hardware; interpreting them is the caller's concern.
pub open spec fn measurement_word(msb_word: u16, lsb_word: u16) -> u32 {
    ((msb_word as u32) << 16u32) | (lsb_word as u32)
}

/// The driver. It exclusively owns its bus transport for its lifetime: a
/// logical operation can span two transactions that must not be interleaved
/// with another operation's on the same device.
pub struct FDC1004<B: I2cBus> {
    /// The transport every operation goes through.
    pub bus: B,
}

impl<B: I2cBus> FDC1004<B> {
    /// Take exclusive ownership of a transport.
    pub fn new(bus: B) -> (r: FDC1004<B>)
        ensures
            r.bus == bus,
    {
        FDC1004 { bus }
    }

    /// Read and decode the conversion-control register: one read transaction
    /// against `FDC_CONF`. The result is the decoding of exactly the two
    /// bytes that transaction returned, done flags included.
    pub fn get_configuration(&mut self) -> (r: Result<FDCConfiguration, TransportError>)
        ensures
            r matches Ok(config) ==> exists|msb: u8, lsb: u8|
                final(self).bus.read_log() == old(self).bus.read_log().push(
                    #[trigger] frame(ADDR, FDC_CONF, msb, lsb),
                ) && config == FDCConfiguration::spec_from_bits(word_be(msb, lsb)),
            r matches Ok(config) ==> config.wf(),
            r is Ok ==> final(self).bus.write_log() == old(self).bus.write_log(),
    {
        match self.bus.read_register(ADDR, FDC_CONF) {
            Ok(bytes) => {
                let word: u16 = word_from_be(bytes.0, bytes.1);
                Ok(FDCConfiguration::from_bits(word))
            },
            Err(e) => Err(e),
        }
    }

    /// Encode and write the conversion-control register: one write
    /// transaction of the register address and the encoded word in big-endian
    /// order. The encoding never asserts the read-only done flags.
    pub fn set_configuration(&mut self, config: FDCConfiguration) -> (r: Result<
        (),
        TransportError,
    >)
        requires
            config.wf(),
        ensures
            r is Ok ==> final(self).bus.write_log() == old(self).bus.write_log().push(
                frame(
                    ADDR,
                    FDC_CONF,
                    hi_byte(config.spec_bits()),
                    lo_byte(config.spec_bits()),
                ),
            ) && final(self).bus.read_log() == old(self).bus.read_log(),
    {
        let word: u16 = config.into_bits();
        let bytes = word_to_be(word);
        self.bus.write_register(ADDR, FDC_CONF, bytes.0, bytes.1)
    }

    /// Configure one measurement slot: resolve the slot to its configuration
    /// register, encode, and issue exactly one write transaction whose first
    /// byte is that register's address and whose payload is the encoded word
    /// in big-endian order.
    pub fn configure_measurement(
        &mut self,
        config: MeasurementConfiguration,
        measurement: ConfigureMeasurement,
    ) -> (r: Result<(), TransportError>)
        requires
            config.wf(),
        ensures
            r is Ok ==> final(self).bus.write_log() == old(self).bus.write_log().push(
                frame(
                    ADDR,
                    measurement.spec_register(),
                    hi_byte(config.spec_bits()),
                    lo_byte(config.spec_bits()),
                ),
            ) && final(self).bus.read_log() == old(self).bus.read_log(),
    {
        let register: u8 = measurement.register_address();
        let word: u16 = config.into_bits();
        let bytes = word_to_be(word);
        self.bus.write_register(ADDR, register, bytes.0, bytes.1)
    }

    /// Read one slot's raw value: two sequential read transactions, first
    /// the MSB register, then the LSB register, concatenated big-endian. The
    /// operation is all-or-nothing: if either transaction fails, its error is
    /// returned and no partial value is surfaced.
    fn read_measurement(&mut self, meas_msb: u8, meas_lsb: u8) -> (r: Result<u32, TransportError>)
        ensures
            r matches Ok(raw) ==> exists|m1: u8, l1: u8, m2: u8, l2: u8|
                final(self).bus.read_log() == old(self).bus.read_log().push(
                    #[trigger] frame(ADDR, meas_msb, m1, l1),
                ).push(#[trigger] frame(ADDR, meas_lsb, m2, l2)) && raw == measurement_word(
                    word_be(m1, l1),
                    word_be(m2, l2),
                ),
            r is Ok ==> final(self).bus.write_log() == old(self).bus.write_log(),
    {
        let high = match self.bus.read_register(ADDR, meas_msb) {
            Ok(bytes) => bytes,
            Err(e) => {
                return Err(e);
            },
        };
        let low = match self.bus.read_register(ADDR, meas_lsb) {
            Ok(bytes) => bytes,
            Err(e) => {
                return Err(e);
            },
        };
        let msb_word: u16 = word_from_be(high.0, high.1);
        let lsb_word: u16 = word_from_be(low.0, low.1);
        let raw: u32 = ((msb_word as u32) << 16u32) | (lsb_word as u32);
        Ok(raw)
    }

    /// Read the raw value of slot 1.
    pub fn read_measurement_1(&mut self) -> (r: Result<u32, TransportError>)
        ensures
            r matches Ok(raw) ==> exists|m1: u8, l1: u8, m2: u8, l2: u8|
                final(self).bus.read_log() == old(self).bus.read_log().push(
                    #[trigger] frame(ADDR, MEAS1_MSB, m1, l1),
                ).push(#[trigger] frame(ADDR, MEAS1_LSB, m2, l2)) && raw == measurement_word(
                    word_be(m1, l1),
                    word_be(m2, l2),
                ),
            r is Ok ==> final(self).bus.write_log() == old(self).bus.write_log(),
    {
        self.read_measurement(MEAS1_MSB, MEAS1_LSB)
    }

    /// Read the raw value of slot 2.
    pub fn read_measurement_2(&mut self) -> (r: Result<u32, TransportError>)
        ensures
            r matches Ok(raw) ==> exists|m1: u8, l1: u8, m2: u8, l2: u8|
                final(self).bus.read_log() == old(self).bus.read_log().push(
                    #[trigger] frame(ADDR, MEAS2_MSB, m1, l1),
                ).push(#[trigger] frame(ADDR, MEAS2_LSB, m2, l2)) && raw == measurement_word(
                    word_be(m1, l1),
                    word_be(m2, l2),
                ),
            r is Ok ==> final(self).bus.write_log() == old(self).bus.write_log(),
    {
        self.read_measurement(MEAS2_MSB, MEAS2_LSB)
    }

    /// Read the raw value of slot 3.
    pub fn read_measurement_3(&mut self) -> (r: Result<u32, TransportError>)
        ensures
            r matches Ok(raw) ==> exists|m1: u8, l1: u8, m2: u8, l2: u8|
                final(self).bus.read_log() == old(self).bus.read_log().push(
                    #[trigger] frame(ADDR, MEAS3_MSB, m1, l1),
                ).push(#[trigger] frame(ADDR, MEAS3_LSB, m2, l2)) && raw == measurement_word(
                    word_be(m1, l1),
                    word_be(m2, l2),
                ),
            r is Ok ==> final(self).bus.write_log() == old(self).bus.write_log(),
    {
        self.read_measurement(MEAS3_MSB, MEAS3_LSB)
    }

    /// Read the raw value of slot 4.
    pub fn read_measurement_4(&mut self) -> (r: Result<u32, TransportError>)
        ensures
            r matches Ok(raw) ==> exists|m1: u8, l1: u8, m2: u8, l2: u8|
                final(self).bus.read_log() == old(self).bus.read_log().push(
                    #[trigger] frame(ADDR, MEAS4_MSB, m1, l1),
                ).push(#[trigger] frame(ADDR, MEAS4_LSB, m2, l2)) && raw == measurement_word(
                    word_be(m1, l1),
                    word_be(m2, l2),
                ),
            r is Ok ==> final(self).bus.write_log() == old(self).bus.write_log(),
    {
        self.read_measurement(MEAS4_MSB, MEAS4_LSB)
    }

    /// Read the manufacturer-id register: one read transaction, the returned
    /// word spelled from its two bytes big-endian. A genuine device reads
    /// 0x5449; checking that is the caller's responsibility.
    pub fn manufacturer_id(&mut self) -> (r: Result<u16, TransportError>)
        ensures
            r matches Ok(id) ==> exists|msb: u8, lsb: u8|
                final(self).bus.read_log() == old(self).bus.read_log().push(
                    #[trigger] frame(ADDR, MANUFACTURER_ID, msb, lsb),
                ) && id == word_be(msb, lsb),
            r is Ok ==> final(self).bus.write_log() == old(self).bus.write_log(),
    {
        match self.bus.read_register(ADDR, MANUFACTURER_ID) {
            Ok(bytes) => Ok(word_from_be(bytes.0, bytes.1)),
            Err(e) => Err(e),
        }
    }

    /// Read the device-id register: one read transaction, the returned word
    /// spelled from its two bytes big-endian. A genuine device reads 0x1004;
    /// checking that is the caller's responsibility.
    pub fn device_id(&mut self) -> (r: Result<u16, TransportError>)
        ensures
            r matches Ok(id) ==> exists|msb: u8, lsb: u8|
                final(self).bus.read_log() == old(self).bus.read_log().push(
                    #[trigger] frame(ADDR, DEVICE_ID, msb, lsb),
                ) && id == word_be(msb, lsb),
            r is Ok ==> final(self).bus.write_log() == old(self).bus.write_log(),
    {
        match self.bus.read_register(ADDR, DEVICE_ID) {
            Ok(bytes) => Ok(word_from_be(bytes.0, bytes.1)),
            Err(e) => Err(e),
        }
    }
}

} // verus!
