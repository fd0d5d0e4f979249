//! Register-level driver core for the MPU-6050 six-axis inertial sensor.
//!
//! The sensor is configured over a two-wire serial bus by writing whole bytes
//! into named registers. This crate holds everything about that protocol that
//! can be decided without touching a bus: the register address map
//! ([`regs`]), the bit-exact codecs for the three packed configuration
//! registers ([`codec`]), the error taxonomy ([`errors`]), and a driver state
//! machine ([`driver`]) that turns each high-level operation into the exact
//! ordered sequence of bus transactions the device requires, and folds the
//! transport's responses back into a result.
//!
//! An outer harness owns the actual bus handle: it asks the machine for the
//! next transaction, performs it, and hands back what happened. Every
//! decision — which bytes are written where, in what order, how a read byte
//! is judged, and how a bus fault aborts a sequence — is made here and is
//! verified.

pub mod codec;
pub mod driver;
pub mod errors;
pub mod regs;
