//! Control register 4: block data update, byte order, full scale, self test and
//! the serial interface mode.

use vstd::prelude::*;
use vstd::std_specs::convert::FromSpecImpl;

use crate::config::flag_bits;

verus! {

/// Bit 7: block data update.
pub const FLAG_BDU: u8 = 0x80;

/// Bit 6: byte order of the output registers.
pub const FLAG_BLE: u8 = 0x40;

/// Bits 5 and 4: full scale selection.
pub const FLAG_FSS: u8 = 0x30;

/// Bits 2 and 1: self test.
pub const FLAG_STE: u8 = 0x06;

/// Bit 0: serial interface mode.
pub const FLAG_SIM: u8 = 0x01;

/// When the output registers are updated.
#[derive(PartialEq, Eq, Structural, Debug, Clone, Copy)]
pub struct BlockDataUpdate(bool);

#[allow(non_snake_case)]
impl BlockDataUpdate {
    /// Whether an output register pair is held until both of its bytes were
    /// read.
    pub closed spec fn is_set(&self) -> bool {
        self.0
    }

    /// The output registers are updated continuously.
    pub fn CONTINUOUS_UPDATE() -> (r: Self)
        ensures
            !r.is_set(),
    {
        BlockDataUpdate(false)
    }

    /// The output registers are not updated until both bytes were read.
    pub fn WAIT_FOR_READING() -> (r: Self)
        ensures
            r.is_set(),
    {
        BlockDataUpdate(true)
    }
}

/// The byte order of the output registers.
#[derive(PartialEq, Eq, Structural, Debug, Clone, Copy)]
pub struct BigLittleEndian(bool);

#[allow(non_snake_case)]
impl BigLittleEndian {
    /// Whether the high byte lies at the lower address.
    pub closed spec fn is_set(&self) -> bool {
        self.0
    }

    /// The low byte lies at the lower address.
    pub fn LITTLE_ENDIAN() -> (r: Self)
        ensures
            !r.is_set(),
    {
        BigLittleEndian(false)
    }

    /// The high byte lies at the lower address.
    pub fn BIG_ENDIAN() -> (r: Self)
        ensures
            r.is_set(),
    {
        BigLittleEndian(true)
    }
}

/// A multiple of 16 below 0x40 has no bit outside bits 5 and 4.
proof fn lemma_full_scale_codes()
    by (bit_vector)
    ensures
        forall|code: u8| code % 16 == 0 && code < 0x40 ==> #[trigger] (code & 0x30) == code,
{
}

/// The full scale of the measurement: bits 5 and 4 of the register, kept in
/// place.
#[derive(PartialEq, Eq, Structural, Debug, Clone, Copy)]
pub struct FullScaleSelection(u8);

#[allow(non_snake_case)]
impl FullScaleSelection {
    /// The bits of the selection, in their place in the register.
    pub closed spec fn code(&self) -> u8 {
        self.0
    }

    /// Whether the code sets no bit outside its field.
    pub open spec fn well_formed(&self) -> bool {
        self.code() & FLAG_FSS == self.code()
    }

    /// Every value that a program holds keeps to its field.
    #[verifier::type_invariant]
    closed spec fn within_field(self) -> bool {
        self.0 & FLAG_FSS == self.0
    }

    /// The value with the given code, which lies within the field.
    fn named(code: u8) -> (r: Self)
        requires
            code % 16 == 0 && code < 0x40,
        ensures
            r.code() == code,
            r.well_formed(),
    {
        proof {
            lemma_full_scale_codes();
        }
        FullScaleSelection(code)
    }

    /// 250 degrees per second.
    pub fn FSS_250_DPS() -> (r: Self)
        ensures
            r.code() == 0x00,
            r.well_formed(),
    {
        Self::named(0x00)
    }

    /// 500 degrees per second.
    pub fn FSS_500_DPS() -> (r: Self)
        ensures
            r.code() == 0x10,
            r.well_formed(),
    {
        Self::named(0x10)
    }

    /// 2000 degrees per second.
    pub fn FSS_2000_DPS() -> (r: Self)
        ensures
            r.code() == 0x20,
            r.well_formed(),
    {
        Self::named(0x20)
    }
}

/// An even number below 8 has no bit outside bits 2 and 1.
proof fn lemma_self_test_codes()
    by (bit_vector)
    ensures
        forall|code: u8| code % 2 == 0 && code < 8 ==> #[trigger] (code & 0x06) == code,
{
}

/// The self test mode: bits 2 and 1 of the register, kept in place. Bit 0 is
/// not part of it; it belongs to the serial interface mode.
#[derive(PartialEq, Eq, Structural, Debug, Clone, Copy)]
pub struct SelfTestEnabled(u8);

#[allow(non_snake_case)]
impl SelfTestEnabled {
    /// The bits of the mode, in their place in the register.
    pub closed spec fn code(&self) -> u8 {
        self.0
    }

    /// Whether the code sets no bit outside its field.
    pub open spec fn well_formed(&self) -> bool {
        self.code() & FLAG_STE == self.code()
    }

    /// Every value that a program holds keeps to its field.
    #[verifier::type_invariant]
    closed spec fn within_field(self) -> bool {
        self.0 & FLAG_STE == self.0
    }

    /// The value with the given code, which lies within the field.
    fn named(code: u8) -> (r: Self)
        requires
            code % 2 == 0 && code < 8,
        ensures
            r.code() == code,
            r.well_formed(),
    {
        proof {
            lemma_self_test_codes();
        }
        SelfTestEnabled(code)
    }

    /// No self test.
    pub fn NORMAL_MODE() -> (r: Self)
        ensures
            r.code() == 0x00,
            r.well_formed(),
    {
        Self::named(0x00)
    }

    /// Self test 0.
    pub fn SELF_TEST_0() -> (r: Self)
        ensures
            r.code() == 0x02,
            r.well_formed(),
    {
        Self::named(0x02)
    }

    /// Self test 1.
    pub fn SELF_TEST_1() -> (r: Self)
        ensures
            r.code() == 0x06,
            r.well_formed(),
    {
        Self::named(0x06)
    }
}

/// The wiring of the serial peripheral interface.
#[derive(PartialEq, Eq, Structural, Debug, Clone, Copy)]
pub struct SerialInterfaceMode(bool);

#[allow(non_snake_case)]
impl SerialInterfaceMode {
    /// Whether the interface uses three wires.
    pub closed spec fn is_set(&self) -> bool {
        self.0
    }

    /// Four wires.
    pub fn SPI_4_WIRE() -> (r: Self)
        ensures
            !r.is_set(),
    {
        SerialInterfaceMode(false)
    }

    /// Three wires.
    pub fn SPI_3_WIRE() -> (r: Self)
        ensures
            r.is_set(),
    {
        SerialInterfaceMode(true)
    }
}

/// The contents of control register 4.
#[derive(PartialEq, Eq, Structural, Debug, Clone, Copy)]
pub struct Value {
    /// Block data update.
    pub block_data_update: BlockDataUpdate,
    /// Byte order.
    pub big_little_endian: BigLittleEndian,
    /// Full scale.
    pub full_scale_select: FullScaleSelection,
    /// Self test.
    pub self_test_enabled: SelfTestEnabled,
    /// Serial interface mode.
    pub serial_interface_mode: SerialInterfaceMode,
}

impl Value {
    /// Whether every sub-field keeps to its own bits.
    pub open spec fn well_formed(&self) -> bool {
        &&& self.full_scale_select.well_formed()
        &&& self.self_test_enabled.well_formed()
    }

    /// The register byte of the value: the bitwise or of what each sub-field
    /// contributes.
    pub open spec fn encoded(&self) -> u8 {
        flag_bits(self.block_data_update.is_set(), FLAG_BDU)
            | flag_bits(self.big_little_endian.is_set(), FLAG_BLE)
            | self.full_scale_select.code()
            | self.self_test_enabled.code()
            | flag_bits(self.serial_interface_mode.is_set(), FLAG_SIM)
    }

    /// The value that a register byte stands for: each sub-field holds the
    /// bits of the byte under its mask; bit 3 is dropped.
    pub closed spec fn decoded(byte: u8) -> Value {
        Value {
            block_data_update: BlockDataUpdate(byte & FLAG_BDU != 0),
            big_little_endian: BigLittleEndian(byte & FLAG_BLE != 0),
            full_scale_select: FullScaleSelection(byte & FLAG_FSS),
            self_test_enabled: SelfTestEnabled(byte & FLAG_STE),
            serial_interface_mode: SerialInterfaceMode(byte & FLAG_SIM != 0),
        }
    }

    /// Packs the value into its register byte. Decoding that byte gives the
    /// value back.
    pub fn to_value(self) -> (byte: u8)
        ensures
            byte == self.encoded(),
            Value::decoded(byte) == self,
    {
        proof {
            use_type_invariant(&self.full_scale_select);
            use_type_invariant(&self.self_test_enabled);
            lemma_decode_inverts_encode(self);
        }
        let block_data_update: u8 = if self.block_data_update.0 { FLAG_BDU } else { 0 };
        let big_little_endian: u8 = if self.big_little_endian.0 { FLAG_BLE } else { 0 };
        let full_scale_select: u8 = self.full_scale_select.0;
        let self_test_enabled: u8 = self.self_test_enabled.0;
        let serial_interface_mode: u8 = if self.serial_interface_mode.0 { FLAG_SIM } else { 0 };
        block_data_update
            | big_little_endian
            | full_scale_select
            | self_test_enabled
            | serial_interface_mode
    }
}

impl Default for Value {
    /// Continuous update, low byte first, 250 degrees per second, no self test,
    /// four wires.
    fn default() -> (v: Value)
        ensures
            !v.block_data_update.is_set(),
            !v.big_little_endian.is_set(),
            v.full_scale_select.code() == 0x00,
            v.self_test_enabled.code() == 0x00,
            !v.serial_interface_mode.is_set(),
            v.well_formed(),
    {
        Value {
            block_data_update: BlockDataUpdate::CONTINUOUS_UPDATE(),
            big_little_endian: BigLittleEndian::LITTLE_ENDIAN(),
            full_scale_select: FullScaleSelection::FSS_250_DPS(),
            self_test_enabled: SelfTestEnabled::NORMAL_MODE(),
            serial_interface_mode: SerialInterfaceMode::SPI_4_WIRE(),
        }
    }
}

impl From<u8> for Value {
    /// Unpacks a register byte. Every byte is accepted; bit 3 is dropped.
    fn from(value: u8) -> (v: Value)
        ensures
            v.block_data_update.is_set() == (value & FLAG_BDU != 0),
            v.big_little_endian.is_set() == (value & FLAG_BLE != 0),
            v.full_scale_select.code() == value & FLAG_FSS,
            v.self_test_enabled.code() == value & FLAG_STE,
            v.serial_interface_mode.is_set() == (value & FLAG_SIM != 0),
            v.well_formed(),
    {
        proof {
            lemma_encode_of_decoded(value);
        }
        Value {
            block_data_update: BlockDataUpdate(value & FLAG_BDU != 0),
            big_little_endian: BigLittleEndian(value & FLAG_BLE != 0),
            full_scale_select: FullScaleSelection(value & FLAG_FSS),
            self_test_enabled: SelfTestEnabled(value & FLAG_STE),
            serial_interface_mode: SerialInterfaceMode(value & FLAG_SIM != 0),
        }
    }
}

impl FromSpecImpl<u8> for Value {
    open spec fn obeys_from_spec() -> bool {
        true
    }

    open spec fn from_spec(value: u8) -> Value {
        Value::decoded(value)
    }
}

/// What each sub-field of a decoded byte holds.
pub proof fn lemma_decoded_fields(byte: u8)
    ensures
        Value::decoded(byte).block_data_update.is_set() == (byte & FLAG_BDU != 0),
        Value::decoded(byte).big_little_endian.is_set() == (byte & FLAG_BLE != 0),
        Value::decoded(byte).full_scale_select.code() == byte & FLAG_FSS,
        Value::decoded(byte).self_test_enabled.code() == byte & FLAG_STE,
        Value::decoded(byte).serial_interface_mode.is_set() == (byte & FLAG_SIM != 0),
{
}

/// Decoding the byte of a value whose sub-fields keep to their own bits gives
/// the value back.
pub proof fn lemma_decode_inverts_encode(v: Value)
    requires
        v.well_formed(),
    ensures
        Value::decoded(v.encoded()) == v,
{
    let bdu = flag_bits(v.block_data_update.is_set(), FLAG_BDU);
    let ble = flag_bits(v.big_little_endian.is_set(), FLAG_BLE);
    let fss = v.full_scale_select.code();
    let ste = v.self_test_enabled.code();
    let sim = flag_bits(v.serial_interface_mode.is_set(), FLAG_SIM);
    let byte = bdu | ble | fss | ste | sim;
    assert(((byte & 0x80 != 0) == (bdu != 0))
        && ((byte & 0x40 != 0) == (ble != 0))
        && (byte & 0x30 == fss)
        && (byte & 0x06 == ste)
        && ((byte & 0x01 != 0) == (sim != 0))) by (bit_vector)
        requires
            bdu == 0x80 || bdu == 0,
            ble == 0x40 || ble == 0,
            fss & 0x30 == fss,
            ste & 0x06 == ste,
            sim == 0x01 || sim == 0,
            byte == bdu | ble | fss | ste | sim,
    ;
}

/// Encoding a decoded byte gives the byte back without bit 3, which belongs to
/// no sub-field; and a decoded value is well formed.
pub proof fn lemma_encode_of_decoded(byte: u8)
    ensures
        Value::decoded(byte).encoded() == byte & 0xF7,
        Value::decoded(byte).well_formed(),
{
    let bdu = flag_bits(byte & FLAG_BDU != 0, FLAG_BDU);
    let ble = flag_bits(byte & FLAG_BLE != 0, FLAG_BLE);
    let fss = byte & FLAG_FSS;
    let ste = byte & FLAG_STE;
    let sim = flag_bits(byte & FLAG_SIM != 0, FLAG_SIM);
    assert((bdu | ble | fss | ste | sim == byte & 0xF7)
        && (fss & 0x30 == fss)
        && (ste & 0x06 == ste)) by (bit_vector)
        requires
            bdu == (if byte & 0x80 != 0 { 0x80u8 } else { 0u8 }),
            ble == (if byte & 0x40 != 0 { 0x40u8 } else { 0u8 }),
            fss == byte & 0x30,
            ste == byte & 0x06,
            sim == (if byte & 0x01 != 0 { 0x01u8 } else { 0u8 }),
    ;
}

} // verus!
