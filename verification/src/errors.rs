//! The driver's error taxonomy.
//!
//! There are exactly two kinds of failure: a transport-level bus fault,
//! wrapped opaquely, and an identity mismatch detected by the driver itself.
//! Every fallible operation ends in one of the two or succeeds; no layer
//! catches or suppresses an error from below.

use vstd::prelude::*;

verus! {

/// What can go wrong while talking to the sensor.
#[derive(Debug)]
pub enum DroneError {
    /// The bus transaction itself failed (NACK, arbitration loss, timeout,
    /// or any other transport fault), described by the transport. The driver
    /// never retries or recovers from it.
    I2c(String),
    /// The identity register held this byte instead of the fixed expected
    /// value [`crate::regs::DEFAULT_SLAVE_ADDR`].
    InvalidChipId(u8),
}

} // verus!
