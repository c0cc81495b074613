//! The errors that a driver operation can end in.

use vstd::prelude::*;
use vstd::std_specs::convert::FromSpecImpl;

use i2cdev::linux::LinuxI2CError;

verus! {

/// The error type of the Linux I2C device, `i2cdev::linux::LinuxI2CError`.
/// Nothing is known of a value of it; it is only carried to the caller.
#[verifier::external_type_specification]
#[verifier::external_body]
pub struct ExLinuxI2CError(LinuxI2CError);

/// Why a register access did not complete.
#[derive(Debug)]
pub enum L3G4200DError {
    /// A write was aimed at a read-only register.
    NotWritableRegister(),
    /// The value to write has bits set that the register protects.
    WriteProtectedRegister(),
    /// The bus transaction itself failed.
    I2CError(LinuxI2CError),
}

impl From<LinuxI2CError> for L3G4200DError {
    fn from(cause: LinuxI2CError) -> (error: L3G4200DError) {
        L3G4200DError::I2CError(cause)
    }
}

impl FromSpecImpl<LinuxI2CError> for L3G4200DError {
    open spec fn obeys_from_spec() -> bool {
        true
    }

    open spec fn from_spec(cause: LinuxI2CError) -> L3G4200DError {
        L3G4200DError::I2CError(cause)
    }
}

} // verus!
