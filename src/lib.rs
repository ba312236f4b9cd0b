//! A disassembler for Intel 8080 machine code: it decodes a byte image into
//! instruction records (length, mnemonic, operand) and renders listing lines.
use vstd::prelude::*;

pub mod decoder;
pub mod hex;
pub mod listing;

verus! {

} // verus!
