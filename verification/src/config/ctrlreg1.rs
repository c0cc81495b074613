//! Control register 1: output data rate and bandwidth, power mode and the three
//! axis enables.

use vstd::prelude::*;
use vstd::std_specs::convert::FromSpecImpl;

use crate::config::flag_bits;

verus! {

/// Bits 7 to 4: data rate and bandwidth selection.
pub const FLAG_DRB: u8 = 0xF0;

/// Bit 3: power mode.
pub const FLAG_POW: u8 = 0x08;

/// Bit 2: Z axis enable.
pub const FLAG_ZEN: u8 = 0x04;

/// Bit 1: Y axis enable.
pub const FLAG_YEN: u8 = 0x02;

/// Bit 0: X axis enable.
pub const FLAG_XEN: u8 = 0x01;

/// A multiple of 16 has no bit outside the four top bits.
proof fn lemma_data_rate_codes()
    by (bit_vector)
    ensures
        forall|code: u8| code % 16 == 0 ==> #[trigger] (code & 0xF0) == code,
{
}

/// The output data rate together with the low-pass cut-off: the four top bits
/// of the register, kept in place.
#[derive(PartialEq, Eq, Structural, Debug, Clone, Copy)]
pub struct DataRateBandwidth(u8);

#[allow(non_snake_case)]
impl DataRateBandwidth {
    /// The bits of the selection, in their place in the register.
    pub closed spec fn code(&self) -> u8 {
        self.0
    }

    /// Whether the code sets no bit outside its field.
    pub open spec fn well_formed(&self) -> bool {
        self.code() & FLAG_DRB == self.code()
    }

    /// Every value that a program holds keeps to its field.
    #[verifier::type_invariant]
    closed spec fn within_field(self) -> bool {
        self.0 & FLAG_DRB == self.0
    }

    /// The value with the given code, which lies within the field.
    fn named(code: u8) -> (r: Self)
        requires
            code % 16 == 0,
        ensures
            r.code() == code,
            r.well_formed(),
    {
        proof {
            lemma_data_rate_codes();
        }
        DataRateBandwidth(code)
    }

    /// 100 Hz output data rate, 12.5 Hz cut-off.
    pub fn ODR_100_CUT_OFF_12_5() -> (r: Self)
        ensures
            r.code() == 0x00,
            r.well_formed(),
    {
        Self::named(0x00)
    }

    /// 100 Hz output data rate, 25 Hz cut-off.
    pub fn ODR_100_CUT_OFF_25() -> (r: Self)
        ensures
            r.code() == 0x10,
            r.well_formed(),
    {
        Self::named(0x10)
    }

    /// 200 Hz output data rate, 12.5 Hz cut-off.
    pub fn ODR_200_CUT_OFF_12_5() -> (r: Self)
        ensures
            r.code() == 0x40,
            r.well_formed(),
    {
        Self::named(0x40)
    }

    /// 200 Hz output data rate, 25 Hz cut-off.
    pub fn ODR_200_CUT_OFF_25() -> (r: Self)
        ensures
            r.code() == 0x50,
            r.well_formed(),
    {
        Self::named(0x50)
    }

    /// 200 Hz output data rate, 50 Hz cut-off.
    pub fn ODR_200_CUT_OFF_50() -> (r: Self)
        ensures
            r.code() == 0x60,
            r.well_formed(),
    {
        Self::named(0x60)
    }

    /// 200 Hz output data rate, 70 Hz cut-off.
    pub fn ODR_200_CUT_OFF_70() -> (r: Self)
        ensures
            r.code() == 0x70,
            r.well_formed(),
    {
        Self::named(0x70)
    }

    /// 400 Hz output data rate, 20 Hz cut-off.
    pub fn ODR_400_CUT_OFF_20() -> (r: Self)
        ensures
            r.code() == 0x80,
            r.well_formed(),
    {
        Self::named(0x80)
    }

    /// 400 Hz output data rate, 25 Hz cut-off.
    pub fn ODR_400_CUT_OFF_25() -> (r: Self)
        ensures
            r.code() == 0x90,
            r.well_formed(),
    {
        Self::named(0x90)
    }

    /// 400 Hz output data rate, 50 Hz cut-off.
    pub fn ODR_400_CUT_OFF_50() -> (r: Self)
        ensures
            r.code() == 0xA0,
            r.well_formed(),
    {
        Self::named(0xA0)
    }

    /// 400 Hz output data rate, 110 Hz cut-off.
    pub fn ODR_400_CUT_OFF_110() -> (r: Self)
        ensures
            r.code() == 0xB0,
            r.well_formed(),
    {
        Self::named(0xB0)
    }

    /// 800 Hz output data rate, 30 Hz cut-off.
    pub fn ODR_800_CUT_OFF_30() -> (r: Self)
        ensures
            r.code() == 0xC0,
            r.well_formed(),
    {
        Self::named(0xC0)
    }

    /// 800 Hz output data rate, 35 Hz cut-off.
    pub fn ODR_800_CUT_OFF_35() -> (r: Self)
        ensures
            r.code() == 0xD0,
            r.well_formed(),
    {
        Self::named(0xD0)
    }

    /// 800 Hz output data rate, 50 Hz cut-off.
    pub fn ODR_800_CUT_OFF_50() -> (r: Self)
        ensures
            r.code() == 0xE0,
            r.well_formed(),
    {
        Self::named(0xE0)
    }

    /// 800 Hz output data rate, 110 Hz cut-off.
    pub fn ODR_800_CUT_OFF_110() -> (r: Self)
        ensures
            r.code() == 0xF0,
            r.well_formed(),
    {
        Self::named(0xF0)
    }
}

/// The power mode bit.
#[derive(PartialEq, Eq, Structural, Debug, Clone, Copy)]
pub struct PowerDownMode(bool);

#[allow(non_snake_case)]
impl PowerDownMode {
    /// Whether the bit is set, that is, the device is not powered down.
    pub closed spec fn is_set(&self) -> bool {
        self.0
    }

    /// The device is powered down.
    pub fn POWER_DOWN_MODE_ENABLE() -> (r: Self)
        ensures
            !r.is_set(),
    {
        PowerDownMode(false)
    }

    /// The device runs normally.
    pub fn NORMAL_MODE() -> (r: Self)
        ensures
            r.is_set(),
    {
        PowerDownMode(true)
    }

    /// The device sleeps; which axes are enabled tells sleep from normal mode,
    /// the power bit is set in both.
    pub fn SLEEP_MODE() -> (r: Self)
        ensures
            r.is_set(),
    {
        PowerDownMode(true)
    }
}

/// The contents of control register 1.
#[derive(PartialEq, Eq, Structural, Debug, Clone, Copy)]
pub struct Value {
    /// Data rate and bandwidth.
    pub dr_bw: DataRateBandwidth,
    /// Power mode.
    pub power_down_mode_enable: PowerDownMode,
    /// Whether the X axis is measured.
    pub x_enable: bool,
    /// Whether the Y axis is measured.
    pub y_enable: bool,
    /// Whether the Z axis is measured.
    pub z_enable: bool,
}

impl Value {
    /// Whether every sub-field keeps to its own bits.
    pub open spec fn well_formed(&self) -> bool {
        self.dr_bw.well_formed()
    }

    /// The register byte of the value: the bitwise or of what each sub-field
    /// contributes.
    pub open spec fn encoded(&self) -> u8 {
        self.dr_bw.code()
            | flag_bits(self.power_down_mode_enable.is_set(), FLAG_POW)
            | flag_bits(self.x_enable, FLAG_XEN)
            | flag_bits(self.y_enable, FLAG_YEN)
            | flag_bits(self.z_enable, FLAG_ZEN)
    }

    /// The value that a register byte stands for: each sub-field holds the
    /// bits of the byte under its mask.
    pub closed spec fn decoded(byte: u8) -> Value {
        Value {
            dr_bw: DataRateBandwidth(byte & FLAG_DRB),
            power_down_mode_enable: PowerDownMode(byte & FLAG_POW != 0),
            x_enable: byte & FLAG_XEN != 0,
            y_enable: byte & FLAG_YEN != 0,
            z_enable: byte & FLAG_ZEN != 0,
        }
    }

    /// Packs the value into its register byte. Decoding that byte gives the
    /// value back.
    pub fn to_value(self) -> (byte: u8)
        ensures
            byte == self.encoded(),
            Value::decoded(byte) == self,
    {
        proof {
            use_type_invariant(&self.dr_bw);
            lemma_decode_inverts_encode(self);
        }
        let pd: u8 = if self.power_down_mode_enable.0 { FLAG_POW } else { 0 };
        let xen: u8 = if self.x_enable { FLAG_XEN } else { 0 };
        let yen: u8 = if self.y_enable { FLAG_YEN } else { 0 };
        let zen: u8 = if self.z_enable { FLAG_ZEN } else { 0 };
        self.dr_bw.0 | pd | xen | yen | zen
    }
}

impl Default for Value {
    /// 200 Hz with a 50 Hz cut-off, powered down, all three axes enabled.
    fn default() -> (v: Value)
        ensures
            v.dr_bw.code() == 0x60,
            !v.power_down_mode_enable.is_set(),
            v.x_enable,
            v.y_enable,
            v.z_enable,
            v.well_formed(),
    {
        Value {
            dr_bw: DataRateBandwidth::ODR_200_CUT_OFF_50(),
            power_down_mode_enable: PowerDownMode::POWER_DOWN_MODE_ENABLE(),
            x_enable: true,
            y_enable: true,
            z_enable: true,
        }
    }
}

impl From<u8> for Value {
    /// Unpacks a register byte. Every byte is accepted.
    fn from(value: u8) -> (v: Value)
        ensures
            v.dr_bw.code() == value & FLAG_DRB,
            v.power_down_mode_enable.is_set() == (value & FLAG_POW != 0),
            v.x_enable == (value & FLAG_XEN != 0),
            v.y_enable == (value & FLAG_YEN != 0),
            v.z_enable == (value & FLAG_ZEN != 0),
            v.well_formed(),
    {
        proof {
            lemma_encode_of_decoded(value);
        }
        Value {
            dr_bw: DataRateBandwidth(value & FLAG_DRB),
            power_down_mode_enable: PowerDownMode(value & FLAG_POW != 0),
            x_enable: value & FLAG_XEN != 0,
            y_enable: value & FLAG_YEN != 0,
            z_enable: value & FLAG_ZEN != 0,
        }
    }
}

impl FromSpecImpl<u8> for Value {
    open spec fn obeys_from_spec() -> bool {
        true
    }

    open spec fn from_spec(value: u8) -> Value {
        Value::decoded(value)
    }
}

/// What each sub-field of a decoded byte holds.
pub proof fn lemma_decoded_fields(byte: u8)
    ensures
        Value::decoded(byte).dr_bw.code() == byte & FLAG_DRB,
        Value::decoded(byte).power_down_mode_enable.is_set() == (byte & FLAG_POW != 0),
        Value::decoded(byte).x_enable == (byte & FLAG_XEN != 0),
        Value::decoded(byte).y_enable == (byte & FLAG_YEN != 0),
        Value::decoded(byte).z_enable == (byte & FLAG_ZEN != 0),
{
}

/// Decoding the byte of a value whose sub-fields keep to their own bits gives
/// the value back.
pub proof fn lemma_decode_inverts_encode(v: Value)
    requires
        v.well_formed(),
    ensures
        Value::decoded(v.encoded()) == v,
{
    let drb = v.dr_bw.code();
    let pd = flag_bits(v.power_down_mode_enable.is_set(), FLAG_POW);
    let xen = flag_bits(v.x_enable, FLAG_XEN);
    let yen = flag_bits(v.y_enable, FLAG_YEN);
    let zen = flag_bits(v.z_enable, FLAG_ZEN);
    let byte = drb | pd | xen | yen | zen;
    assert((byte & 0xF0 == drb)
        && ((byte & 0x08 != 0) == (pd != 0))
        && ((byte & 0x01 != 0) == (xen != 0))
        && ((byte & 0x02 != 0) == (yen != 0))
        && ((byte & 0x04 != 0) == (zen != 0))) by (bit_vector)
        requires
            drb & 0xF0 == drb,
            pd == 0x08 || pd == 0,
            xen == 0x01 || xen == 0,
            yen == 0x02 || yen == 0,
            zen == 0x04 || zen == 0,
            byte == drb | pd | xen | yen | zen,
    ;
}

/// Every bit of the register belongs to a sub-field, so encoding a decoded byte
/// gives the byte back; and a decoded value is well formed.
pub proof fn lemma_encode_of_decoded(byte: u8)
    ensures
        Value::decoded(byte).encoded() == byte,
        Value::decoded(byte).well_formed(),
{
    let drb = byte & FLAG_DRB;
    let pd = flag_bits(byte & FLAG_POW != 0, FLAG_POW);
    let xen = flag_bits(byte & FLAG_XEN != 0, FLAG_XEN);
    let yen = flag_bits(byte & FLAG_YEN != 0, FLAG_YEN);
    let zen = flag_bits(byte & FLAG_ZEN != 0, FLAG_ZEN);
    assert((drb | pd | xen | yen | zen == byte)
        && (drb & 0xF0 == drb)) by (bit_vector)
        requires
            drb == byte & 0xF0,
            pd == (if byte & 0x08 != 0 { 0x08u8 } else { 0u8 }),
            xen == (if byte & 0x01 != 0 { 0x01u8 } else { 0u8 }),
            yen == (if byte & 0x02 != 0 { 0x02u8 } else { 0u8 }),
            zen == (if byte & 0x04 != 0 { 0x04u8 } else { 0u8 }),
    ;
}

} // verus!
