//! Transport-independent core of a driver for the L3G4200D tri-axis gyroscope.
//!
//! The crate holds the register map with its write protection, the codecs of
//! the five control registers, and the arithmetic that turns raw output bytes
//! into rate deltas, an integrated position and calibration offsets. It never
//! touches a bus itself: a caller performs the single-byte register reads and
//! writes, hands the bytes it read to the functions here, and sends the
//! writes they return.

pub mod errors;
pub mod config;
pub mod gyro;
pub mod registers;
