//! Register-level driver for a four-channel capacitance-to-digital converter
//! reached over a two-wire addressed bus.
//!
//! The crate models the device's 16-bit registers: codecs that pack and unpack
//! the measurement-configuration and conversion-control registers, the channel
//! identifier with its 2-bit wire code, and a driver facade that turns
//! high-level operations into addressed bus transactions.

pub mod bus;
pub mod channel;
pub mod control;
pub mod driver;
pub mod errors;
pub mod measurement;
pub mod memory_bus;
pub mod registers;

pub use bus::I2cBus;
pub use channel::CHANNEL;
pub use control::FDCConfiguration;
pub use driver::FDC1004;
pub use errors::InvalidChannelCode;
pub use errors::TransportError;
pub use measurement::MeasurementConfiguration;
pub use memory_bus::BusRead;
pub use memory_bus::BusWrite;
pub use memory_bus::MemoryBus;
pub use registers::ConfigureMeasurement;
