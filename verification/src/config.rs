//! Codecs of the five control registers.
//!
//! Each register has a `Value` made of named sub-fields, an encoder
//! `to_value` that packs it into the register byte and a decoder
//! `From<u8>` that unpacks any byte without failing. A sub-field that is
//! wider than one bit keeps its bits in place, as they lie in the register.

use vstd::prelude::*;

pub mod ctrlreg1;
pub mod ctrlreg2;
pub mod ctrlreg3;
pub mod ctrlreg4;
pub mod ctrlreg5;

verus! {

/// The contribution of a one-bit field to a register byte: its mask when the
/// flag is set, nothing otherwise.
pub open spec fn flag_bits(on: bool, mask: u8) -> u8 {
    if on {
        mask
    } else {
        0
    }
}

} // verus!
