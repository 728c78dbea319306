//! A simplified driver for the MAX31865 RTD-to-digital converter.
//!
//! The library holds everything the driver decides: the register map and
//! the bytes framed on the SPI bus, the configuration byte, the fault
//! status decoding, the conversion from the raw RTD register to a
//! resistance and a temperature, and the order of bus transactions that
//! each driver operation performs.  Driving the chip-select pin and the
//! SPI bus itself is left to the caller, which performs each
//! [`max31865::Transaction`] that a driver operation asks for and hands
//! the outcome back.
use vstd::prelude::*;

pub mod device;
pub mod faults;
pub mod max31865;
pub mod rtd_reader;
pub mod temp_conversion;

pub use faults::{decode_fault_status, MaxFault};
pub use max31865::{Error, Max31865};


verus! {

/// RTD lead configurations supported by the MAX31865.
#[derive(Debug, Clone, Copy, PartialEq, Eq, Structural)]
pub enum RTDLeads {
    Two,
    Three,
    Four,
}

/// Noise filter settings based on mains frequency.
#[derive(Debug, Clone, Copy, PartialEq, Eq, Structural)]
pub enum FilterHz {
    /// 50 Hz filter (updates ~16 Hz).
    Fifty,
    /// 60 Hz filter (updates ~19 Hz).
    Sixty,
}

/// The errors the public API reports.
#[derive(Debug)]
pub enum RtdError {
    /// The chip select lead given is out of range.
    InvalidChipSelect,
    /// Initialization failed.
    Init(String),
    /// Reading or writing the SPI bus failed.
    Read(String),
    /// A fault was reported by the MAX31865.
    Fault(u8),
}

} // verus!
