use i2cdev::linux::LinuxI2CError;
use l3g4200d::errors::L3G4200DError;

#[test]
fn bus_error_becomes_i2c_error() {
    let error = L3G4200DError::from(LinuxI2CError::Errno(5));
    assert!(matches!(error, L3G4200DError::I2CError(LinuxI2CError::Errno(5))));
}

#[test]
fn io_error_is_carried_unchanged() {
    let cause = std::io::Error::new(std::io::ErrorKind::NotFound, "no such bus");
    let error: L3G4200DError = LinuxI2CError::Io(cause).into();
    match error {
        L3G4200DError::I2CError(LinuxI2CError::Io(inner)) => {
            assert_eq!(inner.kind(), std::io::ErrorKind::NotFound);
        }
        other => panic!("unexpected error {:?}", other),
    }
}

#[test]
fn errors_can_be_told_apart() {
    let not_writable = L3G4200DError::NotWritableRegister();
    let protected = L3G4200DError::WriteProtectedRegister();
    assert!(matches!(not_writable, L3G4200DError::NotWritableRegister()));
    assert!(!matches!(not_writable, L3G4200DError::WriteProtectedRegister()));
    assert!(matches!(protected, L3G4200DError::WriteProtectedRegister()));
    assert_eq!(format!("{:?}", protected), "WriteProtectedRegister");
}
