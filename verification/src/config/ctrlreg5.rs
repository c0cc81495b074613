//! Control register 5: memory reboot, FIFO enable and the routing of the data
//! through the filters.

use vstd::prelude::*;
use vstd::std_specs::convert::FromSpecImpl;

use crate::config::flag_bits;

verus! {

/// Bit 7: reboot memory content.
pub const FLAG_BOOT: u8 = 0x80;

/// Bit 6: FIFO enable.
pub const FLAG_FIFO_ENABLE: u8 = 0x40;

/// Bits 4 to 0: high-pass filter enable and filter routing.
pub const FLAG_FILTERING: u8 = 0x1F;

/// The memory reboot request.
#[derive(PartialEq, Eq, Structural, Debug, Clone, Copy)]
pub struct RebootMemoryContent(bool);

#[allow(non_snake_case)]
impl RebootMemoryContent {
    /// Whether the memory content is rebooted.
    pub closed spec fn is_set(&self) -> bool {
        self.0
    }

    /// No reboot.
    pub fn NORMAL_MODE() -> (r: Self)
        ensures
            !r.is_set(),
    {
        RebootMemoryContent(false)
    }

    /// Reboot the memory content.
    pub fn REBOOT_MEMORY_CONTENT() -> (r: Self)
        ensures
            r.is_set(),
    {
        RebootMemoryContent(true)
    }
}

/// A number below 32 has no bit outside the five low bits.
proof fn lemma_filtering_codes()
    by (bit_vector)
    ensures
        forall|code: u8| code < 0x20 ==> #[trigger] (code & 0x1F) == code,
{
}

/// The routing of the data through the low-pass and high-pass filters: the five
/// low bits of the register. Only some of the 32 codes have a name; the others
/// are carried as they are.
#[derive(PartialEq, Eq, Structural, Debug, Clone, Copy)]
pub struct FilteringConfiguration(u8);

#[allow(non_snake_case)]
impl FilteringConfiguration {
    /// The routing code.
    pub closed spec fn code(&self) -> u8 {
        self.0
    }

    /// Whether the code sets no bit outside its field.
    pub open spec fn well_formed(&self) -> bool {
        self.code() & FLAG_FILTERING == self.code()
    }

    /// Every value that a program holds keeps to its field.
    #[verifier::type_invariant]
    closed spec fn within_field(self) -> bool {
        self.0 & FLAG_FILTERING == self.0
    }

    /// The value with the given code, which lies within the field.
    fn named(code: u8) -> (r: Self)
        requires
            code < 0x20,
        ensures
            r.code() == code,
            r.well_formed(),
    {
        proof {
            lemma_filtering_codes();
        }
        FilteringConfiguration(code)
    }

    /// Data output through LPF1; interrupt generation through LPF1.
    pub fn OUT_LPF1_INT_LPF1() -> (r: Self)
        ensures
            r.code() == 0x00,
            r.well_formed(),
    {
        Self::named(0x00)
    }

    /// Data output through LPF1, HPF; interrupt generation through LPF1.
    pub fn OUT_LPF1_HPF_INT_LPF1() -> (r: Self)
        ensures
            r.code() == 0x01,
            r.well_formed(),
    {
        Self::named(0x01)
    }

    /// Data output through LPF1, LPF2; interrupt generation through LPF1.
    pub fn OUT_LPF1_LPF2_INT_LPF1() -> (r: Self)
        ensures
            r.code() == 0x02,
            r.well_formed(),
    {
        Self::named(0x02)
    }

    /// Data output through LPF1; interrupt generation through LPF1, HPF.
    pub fn OUT_LPF1_INT_LPF1_HPF() -> (r: Self)
        ensures
            r.code() == 0x04,
            r.well_formed(),
    {
        Self::named(0x04)
    }

    /// Data output through LPF1, HPF; interrupt generation through LPF1, HPF.
    pub fn OUT_LPF1_HPF_INT_LPF1_HPF() -> (r: Self)
        ensures
            r.code() == 0x05,
            r.well_formed(),
    {
        Self::named(0x05)
    }

    /// Data output through LPF1, LPF2; interrupt generation through LPF1, HPF.
    pub fn OUT_LPF1_LPF2_INT_LPF1_HPF() -> (r: Self)
        ensures
            r.code() == 0x06,
            r.well_formed(),
    {
        Self::named(0x06)
    }

    /// Data output through LPF1; interrupt generation through LPF1, LPF2.
    pub fn OUT_LPF1_INT_LPF1_LPF2() -> (r: Self)
        ensures
            r.code() == 0x08,
            r.well_formed(),
    {
        Self::named(0x08)
    }

    /// Data output through LPF1, HPF; interrupt generation through LPF1, LPF2.
    pub fn OUT_LPF1_HPF_INT_LPF1_LPF2() -> (r: Self)
        ensures
            r.code() == 0x09,
            r.well_formed(),
    {
        Self::named(0x09)
    }

    /// Data output through LPF1, LPF2; interrupt generation through LPF1, LPF2.
    pub fn OUT_LPF1_LPF2_INT_LPF1_LPF2() -> (r: Self)
        ensures
            r.code() == 0x0A,
            r.well_formed(),
    {
        Self::named(0x0A)
    }

    /// Data output through LPF1, HPF, LPF2; interrupt generation through LPF1.
    pub fn OUT_LPF1_HPF_LPF2_INT_LPF1() -> (r: Self)
        ensures
            r.code() == 0x12,
            r.well_formed(),
    {
        Self::named(0x12)
    }

    /// Data output through LPF1, HPF, LPF2; interrupt generation through LPF1,
    /// HPF, LPF2.
    pub fn OUT_LPF1_HPF_LPF2_INT_LPF1_HPF_LPF2() -> (r: Self)
        ensures
            r.code() == 0x1A,
            r.well_formed(),
    {
        Self::named(0x1A)
    }
}

/// The contents of control register 5.
#[derive(PartialEq, Eq, Structural, Debug, Clone, Copy)]
pub struct Value {
    /// Memory reboot.
    pub reboot_memory_content: RebootMemoryContent,
    /// Filter routing.
    pub filtering_configuration: FilteringConfiguration,
    /// Whether the FIFO is enabled.
    pub fifo_enable: bool,
}

impl Value {
    /// Whether every sub-field keeps to its own bits.
    pub open spec fn well_formed(&self) -> bool {
        self.filtering_configuration.well_formed()
    }

    /// The register byte of the value: the bitwise or of what each sub-field
    /// contributes.
    pub open spec fn encoded(&self) -> u8 {
        flag_bits(self.reboot_memory_content.is_set(), FLAG_BOOT)
            | self.filtering_configuration.code()
            | flag_bits(self.fifo_enable, FLAG_FIFO_ENABLE)
    }

    /// The value that a register byte stands for: each sub-field holds the
    /// bits of the byte under its mask; bit 5 is dropped.
    pub closed spec fn decoded(byte: u8) -> Value {
        Value {
            reboot_memory_content: RebootMemoryContent(byte & FLAG_BOOT != 0),
            filtering_configuration: FilteringConfiguration(byte & FLAG_FILTERING),
            fifo_enable: byte & FLAG_FIFO_ENABLE != 0,
        }
    }

    /// Packs the value into its register byte. Decoding that byte gives the
    /// value back.
    pub fn to_value(self) -> (byte: u8)
        ensures
            byte == self.encoded(),
            Value::decoded(byte) == self,
    {
        proof {
            use_type_invariant(&self.filtering_configuration);
            lemma_decode_inverts_encode(self);
        }
        let reboot_memory_content: u8 = if self.reboot_memory_content.0 { FLAG_BOOT } else { 0 };
        let filtering_configuration: u8 = self.filtering_configuration.0;
        let fifo_enable: u8 = if self.fifo_enable { FLAG_FIFO_ENABLE } else { 0 };
        reboot_memory_content | filtering_configuration | fifo_enable
    }
}

impl Default for Value {
    /// No reboot, data and interrupts through the first low-pass filter only,
    /// FIFO off.
    fn default() -> (v: Value)
        ensures
            !v.reboot_memory_content.is_set(),
            v.filtering_configuration.code() == 0x00,
            !v.fifo_enable,
            v.well_formed(),
    {
        Value {
            reboot_memory_content: RebootMemoryContent::NORMAL_MODE(),
            filtering_configuration: FilteringConfiguration::OUT_LPF1_INT_LPF1(),
            fifo_enable: false,
        }
    }
}

impl From<u8> for Value {
    /// Unpacks a register byte. Every byte is accepted; bit 5 is dropped.
    fn from(value: u8) -> (v: Value)
        ensures
            v.reboot_memory_content.is_set() == (value & FLAG_BOOT != 0),
            v.filtering_configuration.code() == value & FLAG_FILTERING,
            v.fifo_enable == (value & FLAG_FIFO_ENABLE != 0),
            v.well_formed(),
    {
        proof {
            lemma_encode_of_decoded(value);
        }
        Value {
            reboot_memory_content: RebootMemoryContent(value & FLAG_BOOT != 0),
            filtering_configuration: FilteringConfiguration(value & FLAG_FILTERING),
            fifo_enable: value & FLAG_FIFO_ENABLE != 0,
        }
    }
}

impl FromSpecImpl<u8> for Value {
    open spec fn obeys_from_spec() -> bool {
        true
    }

    open spec fn from_spec(value: u8) -> Value {
        Value::decoded(value)
    }
}

/// What each sub-field of a decoded byte holds.
pub proof fn lemma_decoded_fields(byte: u8)
    ensures
        Value::decoded(byte).reboot_memory_content.is_set() == (byte & FLAG_BOOT != 0),
        Value::decoded(byte).filtering_configuration.code() == byte & FLAG_FILTERING,
        Value::decoded(byte).fifo_enable == (byte & FLAG_FIFO_ENABLE != 0),
{
}

/// Decoding the byte of a value whose sub-fields keep to their own bits gives
/// the value back.
pub proof fn lemma_decode_inverts_encode(v: Value)
    requires
        v.well_formed(),
    ensures
        Value::decoded(v.encoded()) == v,
{
    let reboot_memory_content = flag_bits(v.reboot_memory_content.is_set(), FLAG_BOOT);
    let filtering_configuration = v.filtering_configuration.code();
    let fifo_enable = flag_bits(v.fifo_enable, FLAG_FIFO_ENABLE);
    let byte = reboot_memory_content | filtering_configuration | fifo_enable;
    assert(((byte & 0x80 != 0) == (reboot_memory_content != 0))
        && (byte & 0x1F == filtering_configuration)
        && ((byte & 0x40 != 0) == (fifo_enable != 0))) by (bit_vector)
        requires
            reboot_memory_content == 0x80 || reboot_memory_content == 0,
            filtering_configuration & 0x1F == filtering_configuration,
            fifo_enable == 0x40 || fifo_enable == 0,
            byte == reboot_memory_content | filtering_configuration | fifo_enable,
    ;
}

/// Encoding a decoded byte gives the byte back without bit 5, which belongs to
/// no sub-field; and a decoded value is well formed.
pub proof fn lemma_encode_of_decoded(byte: u8)
    ensures
        Value::decoded(byte).encoded() == byte & 0xDF,
        Value::decoded(byte).well_formed(),
{
    let reboot_memory_content = flag_bits(byte & FLAG_BOOT != 0, FLAG_BOOT);
    let filtering_configuration = byte & FLAG_FILTERING;
    let fifo_enable = flag_bits(byte & FLAG_FIFO_ENABLE != 0, FLAG_FIFO_ENABLE);
    assert((reboot_memory_content | filtering_configuration | fifo_enable == byte & 0xDF)
        && (filtering_configuration & 0x1F == filtering_configuration)) by (bit_vector)
        requires
            reboot_memory_content == (if byte & 0x80 != 0 { 0x80u8 } else { 0u8 }),
            filtering_configuration == byte & 0x1F,
            fifo_enable == (if byte & 0x40 != 0 { 0x40u8 } else { 0u8 }),
    ;
}

} // verus!
