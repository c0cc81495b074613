//! Control register 2: the mode and the cut-off of the high-pass filter.

use vstd::prelude::*;
use vstd::std_specs::convert::FromSpecImpl;

verus! {

/// Bits 5 and 4: high-pass filter mode.
pub const FLAG_HPM: u8 = 0x30;

/// Bits 3 to 0: high-pass filter cut-off selection.
pub const FLAG_HPCF: u8 = 0x0F;

/// A multiple of 16 below 0x40 has no bit outside bits 5 and 4.
proof fn lemma_filter_mode_codes()
    by (bit_vector)
    ensures
        forall|code: u8| code % 16 == 0 && code < 0x40 ==> #[trigger] (code & 0x30) == code,
{
}

/// The mode of the high-pass filter: bits 5 and 4 of the register, kept in
/// place.
#[derive(PartialEq, Eq, Structural, Debug, Clone, Copy)]
pub struct HighPassFilterMode(u8);

#[allow(non_snake_case)]
impl HighPassFilterMode {
    /// The bits of the mode, in their place in the register.
    pub closed spec fn code(&self) -> u8 {
        self.0
    }

    /// Whether the code sets no bit outside its field.
    pub open spec fn well_formed(&self) -> bool {
        self.code() & FLAG_HPM == self.code()
    }

    /// Every value that a program holds keeps to its field.
    #[verifier::type_invariant]
    closed spec fn within_field(self) -> bool {
        self.0 & FLAG_HPM == self.0
    }

    /// The value with the given code, which lies within the field.
    fn named(code: u8) -> (r: Self)
        requires
            code % 16 == 0 && code < 0x40,
        ensures
            r.code() == code,
            r.well_formed(),
    {
        proof {
            lemma_filter_mode_codes();
        }
        HighPassFilterMode(code)
    }

    /// Normal mode; reading the reference register resets the filter.
    pub fn HP_RESET_FILTER() -> (r: Self)
        ensures
            r.code() == 0x00,
            r.well_formed(),
    {
        Self::named(0x00)
    }

    /// The reference register gives the signal to filter against.
    pub fn REFERENCE_SIGNAL() -> (r: Self)
        ensures
            r.code() == 0x10,
            r.well_formed(),
    {
        Self::named(0x10)
    }

    /// Normal mode.
    pub fn NORMAL_MODE() -> (r: Self)
        ensures
            r.code() == 0x20,
            r.well_formed(),
    {
        Self::named(0x20)
    }

    /// The filter resets itself on an interrupt event.
    pub fn AUTORESET_ON_INT() -> (r: Self)
        ensures
            r.code() == 0x30,
            r.well_formed(),
    {
        Self::named(0x30)
    }
}

/// A number below 16 has no bit outside the four low bits.
proof fn lemma_cut_off_codes()
    by (bit_vector)
    ensures
        forall|code: u8| code < 0x10 ==> #[trigger] (code & 0x0F) == code,
{
}

/// The cut-off selection of the high-pass filter: the four low bits of the
/// register. What frequency a code stands for depends on the output data rate
/// chosen in control register 1, so every code has one name per data rate.
#[derive(PartialEq, Eq, Structural, Debug, Clone, Copy)]
pub struct HighPassFilterCutOff(u8);

#[allow(non_snake_case)]
impl HighPassFilterCutOff {
    /// The selection code.
    pub closed spec fn code(&self) -> u8 {
        self.0
    }

    /// Whether the code sets no bit outside its field.
    pub open spec fn well_formed(&self) -> bool {
        self.code() & FLAG_HPCF == self.code()
    }

    /// Every value that a program holds keeps to its field.
    #[verifier::type_invariant]
    closed spec fn within_field(self) -> bool {
        self.0 & FLAG_HPCF == self.0
    }

    /// The value with the given code, which lies within the field.
    fn named(code: u8) -> (r: Self)
        requires
            code < 0x10,
        ensures
            r.code() == code,
            r.well_formed(),
    {
        proof {
            lemma_cut_off_codes();
        }
        HighPassFilterCutOff(code)
    }

    /// Cut-off at 8 Hz when the output data rate is 100 Hz.
    pub fn ODR_100_8_HZ() -> (r: Self)
        ensures
            r.code() == 0x00,
            r.well_formed(),
    {
        Self::named(0x00)
    }

    /// Cut-off at 15 Hz when the output data rate is 200 Hz.
    pub fn ODR_200_15_HZ() -> (r: Self)
        ensures
            r.code() == 0x00,
            r.well_formed(),
    {
        Self::named(0x00)
    }

    /// Cut-off at 30 Hz when the output data rate is 400 Hz.
    pub fn ODR_400_30_HZ() -> (r: Self)
        ensures
            r.code() == 0x00,
            r.well_formed(),
    {
        Self::named(0x00)
    }

    /// Cut-off at 46 Hz when the output data rate is 800 Hz.
    pub fn ODR_800_46_HZ() -> (r: Self)
        ensures
            r.code() == 0x00,
            r.well_formed(),
    {
        Self::named(0x00)
    }

    /// Cut-off at 4 Hz when the output data rate is 100 Hz.
    pub fn ODR_100_4_HZ() -> (r: Self)
        ensures
            r.code() == 0x01,
            r.well_formed(),
    {
        Self::named(0x01)
    }

    /// Cut-off at 8 Hz when the output data rate is 200 Hz.
    pub fn ODR_200_8_HZ() -> (r: Self)
        ensures
            r.code() == 0x01,
            r.well_formed(),
    {
        Self::named(0x01)
    }

    /// Cut-off at 15 Hz when the output data rate is 400 Hz.
    pub fn ODR_400_15_HZ() -> (r: Self)
        ensures
            r.code() == 0x01,
            r.well_formed(),
    {
        Self::named(0x01)
    }

    /// Cut-off at 30 Hz when the output data rate is 800 Hz.
    pub fn ODR_800_30_HZ() -> (r: Self)
        ensures
            r.code() == 0x01,
            r.well_formed(),
    {
        Self::named(0x01)
    }

    /// Cut-off at 2 Hz when the output data rate is 100 Hz.
    pub fn ODR_100_2_HZ() -> (r: Self)
        ensures
            r.code() == 0x02,
            r.well_formed(),
    {
        Self::named(0x02)
    }

    /// Cut-off at 4 Hz when the output data rate is 200 Hz.
    pub fn ODR_200_4_HZ() -> (r: Self)
        ensures
            r.code() == 0x02,
            r.well_formed(),
    {
        Self::named(0x02)
    }

    /// Cut-off at 8 Hz when the output data rate is 400 Hz.
    pub fn ODR_400_8_HZ() -> (r: Self)
        ensures
            r.code() == 0x02,
            r.well_formed(),
    {
        Self::named(0x02)
    }

    /// Cut-off at 15 Hz when the output data rate is 800 Hz.
    pub fn ODR_800_15_HZ() -> (r: Self)
        ensures
            r.code() == 0x02,
            r.well_formed(),
    {
        Self::named(0x02)
    }

    /// Cut-off at 1 Hz when the output data rate is 100 Hz.
    pub fn ODR_100_1_HZ() -> (r: Self)
        ensures
            r.code() == 0x03,
            r.well_formed(),
    {
        Self::named(0x03)
    }

    /// Cut-off at 2 Hz when the output data rate is 200 Hz.
    pub fn ODR_200_2_HZ() -> (r: Self)
        ensures
            r.code() == 0x03,
            r.well_formed(),
    {
        Self::named(0x03)
    }

    /// Cut-off at 4 Hz when the output data rate is 400 Hz.
    pub fn ODR_400_4_HZ() -> (r: Self)
        ensures
            r.code() == 0x03,
            r.well_formed(),
    {
        Self::named(0x03)
    }

    /// Cut-off at 8 Hz when the output data rate is 800 Hz.
    pub fn ODR_800_8_HZ() -> (r: Self)
        ensures
            r.code() == 0x03,
            r.well_formed(),
    {
        Self::named(0x03)
    }

    /// Cut-off at 500 mHz when the output data rate is 100 Hz.
    pub fn ODR_100_500_mHZ() -> (r: Self)
        ensures
            r.code() == 0x04,
            r.well_formed(),
    {
        Self::named(0x04)
    }

    /// Cut-off at 1 Hz when the output data rate is 200 Hz.
    pub fn ODR_200_1_HZ() -> (r: Self)
        ensures
            r.code() == 0x04,
            r.well_formed(),
    {
        Self::named(0x04)
    }

    /// Cut-off at 2 Hz when the output data rate is 400 Hz.
    pub fn ODR_400_2_HZ() -> (r: Self)
        ensures
            r.code() == 0x04,
            r.well_formed(),
    {
        Self::named(0x04)
    }

    /// Cut-off at 4 Hz when the output data rate is 800 Hz.
    pub fn ODR_800_4_HZ() -> (r: Self)
        ensures
            r.code() == 0x04,
            r.well_formed(),
    {
        Self::named(0x04)
    }

    /// Cut-off at 200 mHz when the output data rate is 100 Hz.
    pub fn ODR_100_200_mHZ() -> (r: Self)
        ensures
            r.code() == 0x05,
            r.well_formed(),
    {
        Self::named(0x05)
    }

    /// Cut-off at 500 mHz when the output data rate is 200 Hz.
    pub fn ODR_200_500_mHZ() -> (r: Self)
        ensures
            r.code() == 0x05,
            r.well_formed(),
    {
        Self::named(0x05)
    }

    /// Cut-off at 1 Hz when the output data rate is 400 Hz.
    pub fn ODR_400_1_HZ() -> (r: Self)
        ensures
            r.code() == 0x05,
            r.well_formed(),
    {
        Self::named(0x05)
    }

    /// Cut-off at 2 Hz when the output data rate is 800 Hz.
    pub fn ODR_800_2_HZ() -> (r: Self)
        ensures
            r.code() == 0x05,
            r.well_formed(),
    {
        Self::named(0x05)
    }

    /// Cut-off at 100 mHz when the output data rate is 100 Hz.
    pub fn ODR_100_100_mHZ() -> (r: Self)
        ensures
            r.code() == 0x06,
            r.well_formed(),
    {
        Self::named(0x06)
    }

    /// Cut-off at 200 mHz when the output data rate is 200 Hz.
    pub fn ODR_200_200_mHZ() -> (r: Self)
        ensures
            r.code() == 0x06,
            r.well_formed(),
    {
        Self::named(0x06)
    }

    /// Cut-off at 500 mHz when the output data rate is 400 Hz.
    pub fn ODR_400_500_mHZ() -> (r: Self)
        ensures
            r.code() == 0x06,
            r.well_formed(),
    {
        Self::named(0x06)
    }

    /// Cut-off at 1 Hz when the output data rate is 800 Hz.
    pub fn ODR_800_1_HZ() -> (r: Self)
        ensures
            r.code() == 0x06,
            r.well_formed(),
    {
        Self::named(0x06)
    }

    /// Cut-off at 50 mHz when the output data rate is 100 Hz.
    pub fn ODR_100_50_mHZ() -> (r: Self)
        ensures
            r.code() == 0x07,
            r.well_formed(),
    {
        Self::named(0x07)
    }

    /// Cut-off at 100 mHz when the output data rate is 200 Hz.
    pub fn ODR_200_100_mHZ() -> (r: Self)
        ensures
            r.code() == 0x07,
            r.well_formed(),
    {
        Self::named(0x07)
    }

    /// Cut-off at 200 mHz when the output data rate is 400 Hz.
    pub fn ODR_400_200_mHZ() -> (r: Self)
        ensures
            r.code() == 0x07,
            r.well_formed(),
    {
        Self::named(0x07)
    }

    /// Cut-off at 500 mHz when the output data rate is 800 Hz.
    pub fn ODR_800_500_mHZ() -> (r: Self)
        ensures
            r.code() == 0x07,
            r.well_formed(),
    {
        Self::named(0x07)
    }

    /// Cut-off at 20 mHz when the output data rate is 100 Hz.
    pub fn ODR_100_20_mHZ() -> (r: Self)
        ensures
            r.code() == 0x08,
            r.well_formed(),
    {
        Self::named(0x08)
    }

    /// Cut-off at 50 mHz when the output data rate is 200 Hz.
    pub fn ODR_200_50_mHZ() -> (r: Self)
        ensures
            r.code() == 0x08,
            r.well_formed(),
    {
        Self::named(0x08)
    }

    /// Cut-off at 100 mHz when the output data rate is 400 Hz.
    pub fn ODR_400_100_mHZ() -> (r: Self)
        ensures
            r.code() == 0x08,
            r.well_formed(),
    {
        Self::named(0x08)
    }

    /// Cut-off at 200 mHz when the output data rate is 800 Hz.
    pub fn ODR_800_200_mHZ() -> (r: Self)
        ensures
            r.code() == 0x08,
            r.well_formed(),
    {
        Self::named(0x08)
    }

    /// Cut-off at 10 mHz when the output data rate is 100 Hz.
    pub fn ODR_100_10_mHZ() -> (r: Self)
        ensures
            r.code() == 0x09,
            r.well_formed(),
    {
        Self::named(0x09)
    }

    /// Cut-off at 20 mHz when the output data rate is 200 Hz.
    pub fn ODR_200_20_mHZ() -> (r: Self)
        ensures
            r.code() == 0x09,
            r.well_formed(),
    {
        Self::named(0x09)
    }

    /// Cut-off at 50 mHz when the output data rate is 400 Hz.
    pub fn ODR_400_50_mHZ() -> (r: Self)
        ensures
            r.code() == 0x09,
            r.well_formed(),
    {
        Self::named(0x09)
    }

    /// Cut-off at 100 mHz when the output data rate is 800 Hz.
    pub fn ODR_800_100_mHZ() -> (r: Self)
        ensures
            r.code() == 0x09,
            r.well_formed(),
    {
        Self::named(0x09)
    }
}

/// The contents of control register 2.
#[derive(PartialEq, Eq, Structural, Debug, Clone, Copy)]
pub struct Value {
    /// High-pass filter mode.
    pub hpm: HighPassFilterMode,
    /// High-pass filter cut-off.
    pub hpcf: HighPassFilterCutOff,
}

impl Value {
    /// Whether every sub-field keeps to its own bits.
    pub open spec fn well_formed(&self) -> bool {
        &&& self.hpm.well_formed()
        &&& self.hpcf.well_formed()
    }

    /// The register byte of the value: the bitwise or of what each sub-field
    /// contributes.
    pub open spec fn encoded(&self) -> u8 {
        self.hpm.code() | self.hpcf.code()
    }

    /// The value that a register byte stands for: each sub-field holds the
    /// bits of the byte under its mask; the two top bits of the byte are
    /// dropped.
    pub closed spec fn decoded(byte: u8) -> Value {
        Value {
            hpm: HighPassFilterMode(byte & FLAG_HPM),
            hpcf: HighPassFilterCutOff(byte & FLAG_HPCF),
        }
    }

    /// Packs the value into its register byte. Decoding that byte gives the
    /// value back.
    pub fn to_value(self) -> (byte: u8)
        ensures
            byte == self.encoded(),
            Value::decoded(byte) == self,
    {
        proof {
            use_type_invariant(&self.hpm);
            use_type_invariant(&self.hpcf);
            lemma_decode_inverts_encode(self);
        }
        self.hpm.0 | self.hpcf.0
    }
}

impl Default for Value {
    /// Normal mode with the highest cut-off.
    fn default() -> (v: Value)
        ensures
            v.hpm.code() == 0x20,
            v.hpcf.code() == 0x00,
            v.well_formed(),
    {
        Value {
            hpm: HighPassFilterMode::NORMAL_MODE(),
            hpcf: HighPassFilterCutOff::ODR_100_8_HZ(),
        }
    }
}

impl From<u8> for Value {
    /// Unpacks a register byte. Every byte is accepted; the two top bits are
    /// dropped.
    fn from(value: u8) -> (v: Value)
        ensures
            v.hpm.code() == value & FLAG_HPM,
            v.hpcf.code() == value & FLAG_HPCF,
            v.well_formed(),
    {
        proof {
            lemma_encode_of_decoded(value);
        }
        Value {
            hpm: HighPassFilterMode(value & FLAG_HPM),
            hpcf: HighPassFilterCutOff(value & FLAG_HPCF),
        }
    }
}

impl FromSpecImpl<u8> for Value {
    open spec fn obeys_from_spec() -> bool {
        true
    }

    open spec fn from_spec(value: u8) -> Value {
        Value::decoded(value)
    }
}

/// What each sub-field of a decoded byte holds.
pub proof fn lemma_decoded_fields(byte: u8)
    ensures
        Value::decoded(byte).hpm.code() == byte & FLAG_HPM,
        Value::decoded(byte).hpcf.code() == byte & FLAG_HPCF,
{
}

/// Decoding the byte of a value whose sub-fields keep to their own bits gives
/// the value back.
pub proof fn lemma_decode_inverts_encode(v: Value)
    requires
        v.well_formed(),
    ensures
        Value::decoded(v.encoded()) == v,
{
    let hpm = v.hpm.code();
    let hpcf = v.hpcf.code();
    let byte = hpm | hpcf;
    assert((byte & 0x30 == hpm)
        && (byte & 0x0F == hpcf)) by (bit_vector)
        requires
            hpm & 0x30 == hpm,
            hpcf & 0x0F == hpcf,
            byte == hpm | hpcf,
    ;
}

/// Encoding a decoded byte gives the byte back without its two top bits, which
/// belong to no sub-field; and a decoded value is well formed.
pub proof fn lemma_encode_of_decoded(byte: u8)
    ensures
        Value::decoded(byte).encoded() == byte & 0x3F,
        Value::decoded(byte).well_formed(),
{
    let hpm = byte & FLAG_HPM;
    let hpcf = byte & FLAG_HPCF;
    assert((hpm | hpcf == byte & 0x3F)
        && (hpm & 0x30 == hpm)
        && (hpcf & 0x0F == hpcf)) by (bit_vector)
        requires
            hpm == byte & 0x30,
            hpcf == byte & 0x0F,
    ;
}

/// The byte of a well-formed value stays below 0x40: it never sets one of
/// the two top bits, which the register protects against writes.
pub proof fn lemma_encoded_keeps_protected_bits_clear(v: Value)
    requires
        v.well_formed(),
    ensures
        v.encoded() < 0x40,
        v.encoded() & 0xC0 == 0,
{
    let hpm = v.hpm.code();
    let hpcf = v.hpcf.code();
    assert((hpm | hpcf) < 0x40 && (hpm | hpcf) & 0xC0 == 0) by (bit_vector)
        requires
            hpm & 0x30 == hpm,
            hpcf & 0x0F == hpcf,
    ;
}

} // verus!
