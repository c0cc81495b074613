//! The register map of the device and its write protection.

use vstd::prelude::*;

use crate::errors::L3G4200DError;

verus! {

/// One addressable register: where it lives, whether it can be written at
/// all, and which of its bits must stay zero in every written value.
#[non_exhaustive]
#[derive(Debug)]
pub struct L3G4200DRegister {
    register: u8,
    read_only: bool,
    write_protect: u8,
}

#[allow(non_snake_case)]
impl L3G4200DRegister {
    /// The address of the register on the device.
    pub closed spec fn address(&self) -> u8 {
        self.register
    }

    /// Whether every write to the register is refused.
    pub closed spec fn is_read_only(&self) -> bool {
        self.read_only
    }

    /// The bits that no written value may set.
    pub closed spec fn protect_mask(&self) -> u8 {
        self.write_protect
    }

    /// Whether this descriptor is the table entry with the given address,
    /// read-only flag and protection mask.
    pub open spec fn is_entry(&self, address: u8, read_only: bool, protect_mask: u8) -> bool {
        &&& self.address() == address
        &&& self.is_read_only() == read_only
        &&& self.protect_mask() == protect_mask
    }

    /// What a write of `value` to this register is answered with before any
    /// bus access: read-only registers refuse every value, the others refuse
    /// a value that touches a protected bit.
    pub open spec fn write_check(&self, value: u8) -> Result<(), L3G4200DError> {
        if self.is_read_only() {
            Err(L3G4200DError::NotWritableRegister())
        } else if value & self.protect_mask() != 0 {
            Err(L3G4200DError::WriteProtectedRegister())
        } else {
            Ok(())
        }
    }

    /// A register that refuses every write.
    pub fn readonly(register: u8) -> (r: Self)
        ensures
            r.address() == register,
            r.is_read_only(),
            r.protect_mask() == 0xFF,
    {
        Self { register, write_protect: 0xFF, read_only: true }
    }

    /// A register that accepts every value.
    pub fn writeable(register: u8) -> (r: Self)
        ensures
            r.address() == register,
            !r.is_read_only(),
            r.protect_mask() == 0x00,
    {
        Self { register, write_protect: 0x0, read_only: false }
    }

    /// WHO_AM_I, at 0x0F. The device identity register.
    pub fn WHO_AM_I() -> (r: Self)
        ensures
            r.is_entry(0x0F, true, 0xFF),
    {
        Self::readonly(0x0F)
    }

    /// CTRL_REG1, at 0x20. Control register 1: data rate, bandwidth, power mode and axis enables.
    pub fn CTRL_REG1() -> (r: Self)
        ensures
            r.is_entry(0x20, false, 0x00),
    {
        Self::writeable(0x20)
    }

    /// CTRL_REG2, at 0x21. Control register 2: high-pass filter mode and
    /// cut-off. Its two top bits are protected.
    pub fn CTRL_REG2() -> (r: Self)
        ensures
            r.is_entry(0x21, false, 0xC0),
    {
        Self { register: 0x21, write_protect: 0xC0, read_only: false }
    }

    /// CTRL_REG3, at 0x22. Control register 3: interrupt and output pin flags.
    pub fn CTRL_REG3() -> (r: Self)
        ensures
            r.is_entry(0x22, false, 0x00),
    {
        Self::writeable(0x22)
    }

    /// CTRL_REG4, at 0x23. Control register 4: update mode, byte order, full
    /// scale, self test and serial mode.
    pub fn CTRL_REG4() -> (r: Self)
        ensures
            r.is_entry(0x23, false, 0x00),
    {
        Self::writeable(0x23)
    }

    /// CTRL_REG5, at 0x24. Control register 5: memory reboot, FIFO enable and filter routing.
    pub fn CTRL_REG5() -> (r: Self)
        ensures
            r.is_entry(0x24, false, 0x00),
    {
        Self::writeable(0x24)
    }

    /// REFERENCE, at 0x25. The reference value for interrupt generation.
    pub fn REFERENCE() -> (r: Self)
        ensures
            r.is_entry(0x25, false, 0x00),
    {
        Self::writeable(0x25)
    }

    /// OUT_TEMP, at 0x26. The temperature output.
    pub fn OUT_TEMP() -> (r: Self)
        ensures
            r.is_entry(0x26, true, 0xFF),
    {
        Self::readonly(0x26)
    }

    /// STATUS_REG, at 0x27. The data status register.
    pub fn STATUS_REG() -> (r: Self)
        ensures
            r.is_entry(0x27, true, 0xFF),
    {
        Self::readonly(0x27)
    }

    /// OUT_X_L, at 0x28. The low byte of the X axis output.
    pub fn OUT_X_L() -> (r: Self)
        ensures
            r.is_entry(0x28, true, 0xFF),
    {
        Self::readonly(0x28)
    }

    /// OUT_X_H, at 0x29. The high byte of the X axis output.
    pub fn OUT_X_H() -> (r: Self)
        ensures
            r.is_entry(0x29, true, 0xFF),
    {
        Self::readonly(0x29)
    }

    /// OUT_Y_L, at 0x2A. The low byte of the Y axis output.
    pub fn OUT_Y_L() -> (r: Self)
        ensures
            r.is_entry(0x2A, true, 0xFF),
    {
        Self::readonly(0x2A)
    }

    /// OUT_Y_H, at 0x2B. The high byte of the Y axis output.
    pub fn OUT_Y_H() -> (r: Self)
        ensures
            r.is_entry(0x2B, true, 0xFF),
    {
        Self::readonly(0x2B)
    }

    /// OUT_Z_L, at 0x2C. The low byte of the Z axis output.
    pub fn OUT_Z_L() -> (r: Self)
        ensures
            r.is_entry(0x2C, true, 0xFF),
    {
        Self::readonly(0x2C)
    }

    /// OUT_Z_H, at 0x2D. The high byte of the Z axis output.
    pub fn OUT_Z_H() -> (r: Self)
        ensures
            r.is_entry(0x2D, true, 0xFF),
    {
        Self::readonly(0x2D)
    }

    /// FIFO_CTRL, at 0x2E. The FIFO control register.
    pub fn FIFO_CTRL() -> (r: Self)
        ensures
            r.is_entry(0x2E, false, 0x00),
    {
        Self::writeable(0x2E)
    }

    /// FIFO_SRC, at 0x2F. The FIFO status register.
    pub fn FIFO_SRC() -> (r: Self)
        ensures
            r.is_entry(0x2F, true, 0xFF),
    {
        Self::readonly(0x2F)
    }

    /// INT1_CFG, at 0x30. The interrupt 1 configuration.
    pub fn INT1_CFG() -> (r: Self)
        ensures
            r.is_entry(0x30, false, 0x00),
    {
        Self::writeable(0x30)
    }

    /// INT1_SRC, at 0x31. The interrupt 1 source register.
    pub fn INT1_SRC() -> (r: Self)
        ensures
            r.is_entry(0x31, true, 0xFF),
    {
        Self::readonly(0x31)
    }

    /// INT1_THS_XH, at 0x32. The high byte of the X axis interrupt threshold.
    pub fn INT1_THS_XH() -> (r: Self)
        ensures
            r.is_entry(0x32, false, 0x00),
    {
        Self::writeable(0x32)
    }

    /// INT1_THS_XL, at 0x33. The low byte of the X axis interrupt threshold.
    pub fn INT1_THS_XL() -> (r: Self)
        ensures
            r.is_entry(0x33, false, 0x00),
    {
        Self::writeable(0x33)
    }

    /// INT1_THS_YH, at 0x34. The high byte of the Y axis interrupt threshold.
    pub fn INT1_THS_YH() -> (r: Self)
        ensures
            r.is_entry(0x34, false, 0x00),
    {
        Self::writeable(0x34)
    }

    /// INT1_THS_YL, at 0x35. The low byte of the Y axis interrupt threshold.
    pub fn INT1_THS_YL() -> (r: Self)
        ensures
            r.is_entry(0x35, false, 0x00),
    {
        Self::writeable(0x35)
    }

    /// INT1_THS_ZH, at 0x36. The high byte of the Z axis interrupt threshold.
    pub fn INT1_THS_ZH() -> (r: Self)
        ensures
            r.is_entry(0x36, false, 0x00),
    {
        Self::writeable(0x36)
    }

    /// INT1_THS_ZL, at 0x37. The low byte of the Z axis interrupt threshold.
    pub fn INT1_THS_ZL() -> (r: Self)
        ensures
            r.is_entry(0x37, false, 0x00),
    {
        Self::writeable(0x37)
    }

    /// INT1_DURATION, at 0x38. The minimum duration of an interrupt event.
    pub fn INT1_DURATION() -> (r: Self)
        ensures
            r.is_entry(0x38, false, 0x00),
    {
        Self::writeable(0x38)
    }

    /// Decides whether `value` may be written to this register. Nothing is
    /// sent anywhere; the answer depends on the descriptor and the value only.
    pub fn enforce_write_protect(&self, value: u8) -> (r: Result<(), L3G4200DError>)
        ensures
            r == self.write_check(value),
    {
        if self.read_only {
            return Err(L3G4200DError::NotWritableRegister());
        }
        if value & self.write_protect != 0 {
            return Err(L3G4200DError::WriteProtectedRegister());
        }
        Ok(())
    }

    /// The address of the register.
    pub fn reg(&self) -> (address: u8)
        ensures
            address == self.address(),
    {
        self.register
    }
}

/// A read-only register refuses every value, zero included, as not writable.
pub proof fn lemma_read_only_refuses_every_value(reg: L3G4200DRegister, value: u8)
    requires
        reg.is_read_only(),
    ensures
        reg.write_check(value) == Err::<(), L3G4200DError>(L3G4200DError::NotWritableRegister()),
{
}

/// A writable register refuses a value exactly when the value sets one of the
/// protected bits, and then as write protected; every other value is accepted.
pub proof fn lemma_writable_refuses_protected_bits(reg: L3G4200DRegister, value: u8)
    requires
        !reg.is_read_only(),
    ensures
        value & reg.protect_mask() != 0 <==> reg.write_check(value) == Err::<(), L3G4200DError>(
            L3G4200DError::WriteProtectedRegister(),
        ),
        value & reg.protect_mask() == 0 <==> reg.write_check(value) == Ok::<(), L3G4200DError>(()),
{
}

/// A writable register with an empty protection mask accepts every value.
pub proof fn lemma_unprotected_accepts_every_value(reg: L3G4200DRegister, value: u8)
    requires
        !reg.is_read_only(),
        reg.protect_mask() == 0x00,
    ensures
        reg.write_check(value) == Ok::<(), L3G4200DError>(()),
{
    assert(value & 0x00 == 0) by (bit_vector);
}

/// Control register 2 protects its two top bits: it accepts the values below
/// 0x40 and refuses all others as write protected.
pub proof fn lemma_ctrl_reg2_accepts_below_0x40(reg: L3G4200DRegister, value: u8)
    requires
        reg.is_entry(0x21, false, 0xC0),
    ensures
        value < 0x40 <==> reg.write_check(value) == Ok::<(), L3G4200DError>(()),
        value >= 0x40 <==> reg.write_check(value) == Err::<(), L3G4200DError>(
            L3G4200DError::WriteProtectedRegister(),
        ),
{
    assert(value & 0xC0 == 0 <==> value < 0x40) by (bit_vector);
}

} // verus!
