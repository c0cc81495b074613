//! Control register 3: eight independent flags that route interrupts and status
//! signals to the two output pins.

use vstd::prelude::*;
use vstd::std_specs::convert::FromSpecImpl;

use crate::config::flag_bits;

verus! {

/// Bit 7: interrupt enable on the INT1 pin.
pub const FLAG_I1_INT1: u8 = 0x80;

/// Bit 6: boot status on the INT1 pin.
pub const FLAG_I1_BOOT: u8 = 0x40;

/// Bit 5: interrupt active level on the INT1 pin.
pub const FLAG_H_LACTIVE: u8 = 0x20;

/// Bit 4: push-pull or open drain.
pub const FLAG_PP_OD: u8 = 0x10;

/// Bit 3: data ready on the DRDY/INT2 pin.
pub const FLAG_I2_DRDY: u8 = 0x08;

/// Bit 2: FIFO watermark interrupt on the DRDY/INT2 pin.
pub const FLAG_I2_WTM: u8 = 0x04;

/// Bit 1: FIFO overrun interrupt on the DRDY/INT2 pin.
pub const FLAG_I2_ORUN: u8 = 0x02;

/// Bit 0: FIFO empty interrupt on the DRDY/INT2 pin.
pub const FLAG_I2_EMPTY: u8 = 0x01;

/// The contents of control register 3.
#[derive(PartialEq, Eq, Structural, Debug, Clone, Copy)]
pub struct Value {
    /// Interrupt enable on the INT1 pin.
    pub i1_int1: bool,
    /// Boot status available on the INT1 pin.
    pub i1_boot1: bool,
    /// Interrupt active level on the INT1 pin: set for low.
    pub h_lactive: bool,
    /// Output driver: set for open drain, clear for push-pull.
    pub pp_od: bool,
    /// Data ready on the DRDY/INT2 pin.
    pub i2_drdy: bool,
    /// FIFO watermark interrupt on the DRDY/INT2 pin.
    pub i2_wtm: bool,
    /// FIFO overrun interrupt on the DRDY/INT2 pin.
    pub i2_orun: bool,
    /// FIFO empty interrupt on the DRDY/INT2 pin.
    pub i2_empty: bool,
}

impl Value {
    /// Every value is well formed: each sub-field is one flag.
    pub open spec fn well_formed(&self) -> bool {
        true
    }

    /// The register byte of the value: the bitwise or of what each sub-field
    /// contributes.
    pub open spec fn encoded(&self) -> u8 {
        flag_bits(self.i1_int1, FLAG_I1_INT1)
            | flag_bits(self.i1_boot1, FLAG_I1_BOOT)
            | flag_bits(self.h_lactive, FLAG_H_LACTIVE)
            | flag_bits(self.pp_od, FLAG_PP_OD)
            | flag_bits(self.i2_drdy, FLAG_I2_DRDY)
            | flag_bits(self.i2_wtm, FLAG_I2_WTM)
            | flag_bits(self.i2_orun, FLAG_I2_ORUN)
            | flag_bits(self.i2_empty, FLAG_I2_EMPTY)
    }

    /// The value that a register byte stands for: each sub-field holds the
    /// bits of the byte under its mask.
    pub closed spec fn decoded(byte: u8) -> Value {
        Value {
            i1_int1: byte & FLAG_I1_INT1 != 0,
            i1_boot1: byte & FLAG_I1_BOOT != 0,
            h_lactive: byte & FLAG_H_LACTIVE != 0,
            pp_od: byte & FLAG_PP_OD != 0,
            i2_drdy: byte & FLAG_I2_DRDY != 0,
            i2_wtm: byte & FLAG_I2_WTM != 0,
            i2_orun: byte & FLAG_I2_ORUN != 0,
            i2_empty: byte & FLAG_I2_EMPTY != 0,
        }
    }

    /// Packs the value into its register byte. Decoding that byte gives the
    /// value back.
    pub fn to_value(self) -> (byte: u8)
        ensures
            byte == self.encoded(),
            Value::decoded(byte) == self,
    {
        proof {
            lemma_decode_inverts_encode(self);
        }
        let i1_int1: u8 = if self.i1_int1 { FLAG_I1_INT1 } else { 0 };
        let i1_boot1: u8 = if self.i1_boot1 { FLAG_I1_BOOT } else { 0 };
        let h_lactive: u8 = if self.h_lactive { FLAG_H_LACTIVE } else { 0 };
        let pp_od: u8 = if self.pp_od { FLAG_PP_OD } else { 0 };
        let i2_drdy: u8 = if self.i2_drdy { FLAG_I2_DRDY } else { 0 };
        let i2_wtm: u8 = if self.i2_wtm { FLAG_I2_WTM } else { 0 };
        let i2_orun: u8 = if self.i2_orun { FLAG_I2_ORUN } else { 0 };
        let i2_empty: u8 = if self.i2_empty { FLAG_I2_EMPTY } else { 0 };
        i1_int1 | i1_boot1 | h_lactive | pp_od | i2_drdy | i2_wtm | i2_orun | i2_empty
    }
}

impl Default for Value {
    /// Every flag clear.
    fn default() -> (v: Value)
        ensures
            !v.i1_int1,
            !v.i1_boot1,
            !v.h_lactive,
            !v.pp_od,
            !v.i2_drdy,
            !v.i2_wtm,
            !v.i2_orun,
            !v.i2_empty,
            v.well_formed(),
    {
        Value {
            i1_int1: false,
            i1_boot1: false,
            h_lactive: false,
            pp_od: false,
            i2_drdy: false,
            i2_wtm: false,
            i2_orun: false,
            i2_empty: false,
        }
    }
}

impl From<u8> for Value {
    /// Unpacks a register byte. Every byte is accepted.
    fn from(value: u8) -> (v: Value)
        ensures
            v.i1_int1 == (value & FLAG_I1_INT1 != 0),
            v.i1_boot1 == (value & FLAG_I1_BOOT != 0),
            v.h_lactive == (value & FLAG_H_LACTIVE != 0),
            v.pp_od == (value & FLAG_PP_OD != 0),
            v.i2_drdy == (value & FLAG_I2_DRDY != 0),
            v.i2_wtm == (value & FLAG_I2_WTM != 0),
            v.i2_orun == (value & FLAG_I2_ORUN != 0),
            v.i2_empty == (value & FLAG_I2_EMPTY != 0),
            v.well_formed(),
    {
        proof {
            lemma_encode_of_decoded(value);
        }
        Value {
            i1_int1: value & FLAG_I1_INT1 != 0,
            i1_boot1: value & FLAG_I1_BOOT != 0,
            h_lactive: value & FLAG_H_LACTIVE != 0,
            pp_od: value & FLAG_PP_OD != 0,
            i2_drdy: value & FLAG_I2_DRDY != 0,
            i2_wtm: value & FLAG_I2_WTM != 0,
            i2_orun: value & FLAG_I2_ORUN != 0,
            i2_empty: value & FLAG_I2_EMPTY != 0,
        }
    }
}

impl FromSpecImpl<u8> for Value {
    open spec fn obeys_from_spec() -> bool {
        true
    }

    open spec fn from_spec(value: u8) -> Value {
        Value::decoded(value)
    }
}

/// What each sub-field of a decoded byte holds.
pub proof fn lemma_decoded_fields(byte: u8)
    ensures
        Value::decoded(byte).i1_int1 == (byte & FLAG_I1_INT1 != 0),
        Value::decoded(byte).i1_boot1 == (byte & FLAG_I1_BOOT != 0),
        Value::decoded(byte).h_lactive == (byte & FLAG_H_LACTIVE != 0),
        Value::decoded(byte).pp_od == (byte & FLAG_PP_OD != 0),
        Value::decoded(byte).i2_drdy == (byte & FLAG_I2_DRDY != 0),
        Value::decoded(byte).i2_wtm == (byte & FLAG_I2_WTM != 0),
        Value::decoded(byte).i2_orun == (byte & FLAG_I2_ORUN != 0),
        Value::decoded(byte).i2_empty == (byte & FLAG_I2_EMPTY != 0),
{
}

/// Decoding the byte of a value gives
/// the value back.
pub proof fn lemma_decode_inverts_encode(v: Value)
    ensures
        Value::decoded(v.encoded()) == v,
{
    let i1_int1 = flag_bits(v.i1_int1, FLAG_I1_INT1);
    let i1_boot1 = flag_bits(v.i1_boot1, FLAG_I1_BOOT);
    let h_lactive = flag_bits(v.h_lactive, FLAG_H_LACTIVE);
    let pp_od = flag_bits(v.pp_od, FLAG_PP_OD);
    let i2_drdy = flag_bits(v.i2_drdy, FLAG_I2_DRDY);
    let i2_wtm = flag_bits(v.i2_wtm, FLAG_I2_WTM);
    let i2_orun = flag_bits(v.i2_orun, FLAG_I2_ORUN);
    let i2_empty = flag_bits(v.i2_empty, FLAG_I2_EMPTY);
    let byte = i1_int1 | i1_boot1 | h_lactive | pp_od | i2_drdy | i2_wtm | i2_orun | i2_empty;
    assert(((byte & 0x80 != 0) == (i1_int1 != 0))
        && ((byte & 0x40 != 0) == (i1_boot1 != 0))
        && ((byte & 0x20 != 0) == (h_lactive != 0))
        && ((byte & 0x10 != 0) == (pp_od != 0))
        && ((byte & 0x08 != 0) == (i2_drdy != 0))
        && ((byte & 0x04 != 0) == (i2_wtm != 0))
        && ((byte & 0x02 != 0) == (i2_orun != 0))
        && ((byte & 0x01 != 0) == (i2_empty != 0))) by (bit_vector)
        requires
            i1_int1 == 0x80 || i1_int1 == 0,
            i1_boot1 == 0x40 || i1_boot1 == 0,
            h_lactive == 0x20 || h_lactive == 0,
            pp_od == 0x10 || pp_od == 0,
            i2_drdy == 0x08 || i2_drdy == 0,
            i2_wtm == 0x04 || i2_wtm == 0,
            i2_orun == 0x02 || i2_orun == 0,
            i2_empty == 0x01 || i2_empty == 0,
            byte == i1_int1 | i1_boot1 | h_lactive | pp_od | i2_drdy | i2_wtm | i2_orun | i2_empty,
    ;
}

/// Every bit of the register is a flag, so encoding a decoded byte gives the
/// byte back.
pub proof fn lemma_encode_of_decoded(byte: u8)
    ensures
        Value::decoded(byte).encoded() == byte,
        Value::decoded(byte).well_formed(),
{
    let i1_int1 = flag_bits(byte & FLAG_I1_INT1 != 0, FLAG_I1_INT1);
    let i1_boot1 = flag_bits(byte & FLAG_I1_BOOT != 0, FLAG_I1_BOOT);
    let h_lactive = flag_bits(byte & FLAG_H_LACTIVE != 0, FLAG_H_LACTIVE);
    let pp_od = flag_bits(byte & FLAG_PP_OD != 0, FLAG_PP_OD);
    let i2_drdy = flag_bits(byte & FLAG_I2_DRDY != 0, FLAG_I2_DRDY);
    let i2_wtm = flag_bits(byte & FLAG_I2_WTM != 0, FLAG_I2_WTM);
    let i2_orun = flag_bits(byte & FLAG_I2_ORUN != 0, FLAG_I2_ORUN);
    let i2_empty = flag_bits(byte & FLAG_I2_EMPTY != 0, FLAG_I2_EMPTY);
    assert(i1_int1 | i1_boot1 | h_lactive | pp_od | i2_drdy | i2_wtm | i2_orun | i2_empty == byte)
        by (bit_vector)
        requires
            i1_int1 == (if byte & 0x80 != 0 { 0x80u8 } else { 0u8 }),
            i1_boot1 == (if byte & 0x40 != 0 { 0x40u8 } else { 0u8 }),
            h_lactive == (if byte & 0x20 != 0 { 0x20u8 } else { 0u8 }),
            pp_od == (if byte & 0x10 != 0 { 0x10u8 } else { 0u8 }),
            i2_drdy == (if byte & 0x08 != 0 { 0x08u8 } else { 0u8 }),
            i2_wtm == (if byte & 0x04 != 0 { 0x04u8 } else { 0u8 }),
            i2_orun == (if byte & 0x02 != 0 { 0x02u8 } else { 0u8 }),
            i2_empty == (if byte & 0x01 != 0 { 0x01u8 } else { 0u8 }),
    ;
}

} // verus!
