#![allow(non_snake_case)]

use l3g4200d::errors::L3G4200DError;
use l3g4200d::registers::L3G4200DRegister;

#[test]
fn enforce_write_protect_WHO_AM_I() {
    assert!(L3G4200DRegister::WHO_AM_I().enforce_write_protect(0x0).is_err(), "WHO_AM_I should be write-protected");
}

#[test]
fn enforce_write_protect_OUT_X_L() {
    assert!(L3G4200DRegister::OUT_X_L().enforce_write_protect(0x0).is_err(), "OUT_X_L should be write-protected")
}

#[test]
fn enforce_write_protect_OUT_X_H() {
    assert!(L3G4200DRegister::OUT_X_H().enforce_write_protect(0x0).is_err(), "OUT_X_H should be write-protected")
}

#[test]
fn enforce_write_protect_OUT_Y_L() {
    assert!(L3G4200DRegister::OUT_Y_L().enforce_write_protect(0x0).is_err(), "OUT_Y_L should be write-protected")
}

#[test]
fn enforce_write_protect_OUT_Y_H() {
    assert!(L3G4200DRegister::OUT_Y_H().enforce_write_protect(0x0).is_err(), "OUT_Y_H should be write-protected")
}

#[test]
fn enforce_write_protect_OUT_Z_L() {
    assert!(L3G4200DRegister::OUT_Z_L().enforce_write_protect(0x0).is_err(), "OUT_Z_L should be write-protected")
}

#[test]
fn enforce_write_protect_OUT_Z_H() {
    assert!(L3G4200DRegister::OUT_Z_H().enforce_write_protect(0x0).is_err(), "OUT_Z_H should be write-protected")
}

/// Every register of the map with its address, read-only flag and protection mask.
fn table() -> Vec<(L3G4200DRegister, u8, bool, u8)> {
    vec![
        (L3G4200DRegister::WHO_AM_I(), 0x0F, true, 0xFF),
        (L3G4200DRegister::CTRL_REG1(), 0x20, false, 0x00),
        (L3G4200DRegister::CTRL_REG2(), 0x21, false, 0xC0),
        (L3G4200DRegister::CTRL_REG3(), 0x22, false, 0x00),
        (L3G4200DRegister::CTRL_REG4(), 0x23, false, 0x00),
        (L3G4200DRegister::CTRL_REG5(), 0x24, false, 0x00),
        (L3G4200DRegister::REFERENCE(), 0x25, false, 0x00),
        (L3G4200DRegister::OUT_TEMP(), 0x26, true, 0xFF),
        (L3G4200DRegister::STATUS_REG(), 0x27, true, 0xFF),
        (L3G4200DRegister::OUT_X_L(), 0x28, true, 0xFF),
        (L3G4200DRegister::OUT_X_H(), 0x29, true, 0xFF),
        (L3G4200DRegister::OUT_Y_L(), 0x2A, true, 0xFF),
        (L3G4200DRegister::OUT_Y_H(), 0x2B, true, 0xFF),
        (L3G4200DRegister::OUT_Z_L(), 0x2C, true, 0xFF),
        (L3G4200DRegister::OUT_Z_H(), 0x2D, true, 0xFF),
        (L3G4200DRegister::FIFO_CTRL(), 0x2E, false, 0x00),
        (L3G4200DRegister::FIFO_SRC(), 0x2F, true, 0xFF),
        (L3G4200DRegister::INT1_CFG(), 0x30, false, 0x00),
        (L3G4200DRegister::INT1_SRC(), 0x31, true, 0xFF),
        (L3G4200DRegister::INT1_THS_XH(), 0x32, false, 0x00),
        (L3G4200DRegister::INT1_THS_XL(), 0x33, false, 0x00),
        (L3G4200DRegister::INT1_THS_YH(), 0x34, false, 0x00),
        (L3G4200DRegister::INT1_THS_YL(), 0x35, false, 0x00),
        (L3G4200DRegister::INT1_THS_ZH(), 0x36, false, 0x00),
        (L3G4200DRegister::INT1_THS_ZL(), 0x37, false, 0x00),
        (L3G4200DRegister::INT1_DURATION(), 0x38, false, 0x00),
    ]
}

#[test]
fn register_addresses_follow_the_map() {
    for (register, address, _, _) in table() {
        assert_eq!(register.reg(), address);
    }
}

#[test]
fn register_addresses_are_unique() {
    let addresses: Vec<u8> = table().into_iter().map(|(register, _, _, _)| register.reg()).collect();
    for i in 0..addresses.len() {
        for j in (i + 1)..addresses.len() {
            assert_ne!(addresses[i], addresses[j]);
        }
    }
}

#[test]
fn every_register_answers_every_value_by_its_entry() {
    for (register, address, read_only, mask) in table() {
        for value in 0..=255u8 {
            let answer = register.enforce_write_protect(value);
            if read_only {
                assert!(
                    matches!(answer, Err(L3G4200DError::NotWritableRegister())),
                    "register {:#04x}, value {:#04x}",
                    address,
                    value
                );
            } else if value & mask != 0 {
                assert!(
                    matches!(answer, Err(L3G4200DError::WriteProtectedRegister())),
                    "register {:#04x}, value {:#04x}",
                    address,
                    value
                );
            } else {
                assert!(matches!(answer, Ok(())), "register {:#04x}, value {:#04x}", address, value);
            }
        }
    }
}

#[test]
fn readonly_register_refuses_zero_and_nonzero() {
    let register = L3G4200DRegister::readonly(0x42);
    assert_eq!(register.reg(), 0x42);
    assert!(matches!(register.enforce_write_protect(0x00), Err(L3G4200DError::NotWritableRegister())));
    assert!(matches!(register.enforce_write_protect(0x01), Err(L3G4200DError::NotWritableRegister())));
    assert!(matches!(register.enforce_write_protect(0xFF), Err(L3G4200DError::NotWritableRegister())));
}

#[test]
fn writeable_register_accepts_all_values() {
    let register = L3G4200DRegister::writeable(0x42);
    assert_eq!(register.reg(), 0x42);
    for value in 0..=255u8 {
        assert!(register.enforce_write_protect(value).is_ok());
    }
}

#[test]
fn ctrl_reg2_refuses_its_two_top_bits() {
    let register = L3G4200DRegister::CTRL_REG2();
    assert!(matches!(register.enforce_write_protect(0x3F), Ok(())));
    assert!(matches!(register.enforce_write_protect(0x40), Err(L3G4200DError::WriteProtectedRegister())));
    assert!(matches!(register.enforce_write_protect(0x80), Err(L3G4200DError::WriteProtectedRegister())));
    assert!(matches!(register.enforce_write_protect(0xC0), Err(L3G4200DError::WriteProtectedRegister())));
    assert!(matches!(register.enforce_write_protect(0xFF), Err(L3G4200DError::WriteProtectedRegister())));
    assert!(matches!(register.enforce_write_protect(0x00), Ok(())));
}
