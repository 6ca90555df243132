//! The four-byte instruction word and its operand fields.
//!
//! Byte 0 is the opcode. Byte 1 packs two register indices, `rx` in its low
//! nibble and `ry` in its high nibble. Bytes 2 and 3 hold a little-endian
//! immediate; three-register forms and shifts by a constant read the low
//! nibble of byte 2 instead.

use vstd::prelude::*;
use vstd::slice::slice_subrange;
use crate::word::{read_u16_le, signed, to_signed, word_of};

verus! {

/// One instruction as it lies in memory.
pub type Instruction = [u8; 4];

/// The opcode byte of an instruction.
pub open spec fn opcode_byte(i: Instruction) -> int {
    i[0] as int
}

/// The 16-bit immediate of an instruction.
pub open spec fn hhll_of(i: Instruction) -> u16 {
    word_of(i[2], i[3])
}

/// The immediate read as a register value.
pub open spec fn imm_of(i: Instruction) -> i16 {
    signed(hhll_of(i) as int)
}

/// The first register index: the low nibble of byte 1.
pub open spec fn rx_of(i: Instruction) -> int {
    i[1] as int % 16
}

/// The second register index: the high nibble of byte 1.
pub open spec fn ry_of(i: Instruction) -> int {
    i[1] as int / 16
}

/// The third register index: the low nibble of byte 2.
pub open spec fn rz_of(i: Instruction) -> int {
    i[2] as int % 16
}

/// The constant shift count: the low nibble of byte 2.
pub open spec fn n_of(i: Instruction) -> int {
    i[2] as int % 16
}

/// The high nibble of a byte.
pub fn high_nibble(b: u8) -> (r: u8)
    ensures
        r == b / 16,
{
    let r: u8 = (b & 0xF0) >> 4;
    assert(r == b / 16) by (bit_vector)
        requires
            r == (b & 0xF0) >> 4,
    ;
    r
}

/// The low nibble of a byte.
pub fn low_nibble(b: u8) -> (r: u8)
    ensures
        r == b % 16,
{
    let r: u8 = b & 0xF;
    assert(r == b % 16) by (bit_vector)
        requires
            r == b & 0xF,
    ;
    r
}

/// The immediate of an instruction read as a register value.
pub fn imm(instruction: &Instruction) -> (r: i16)
    ensures
        r == imm_of(*instruction),
{
    to_signed(hhll(instruction))
}

/// The immediate of an instruction, decoded from bytes 2 and 3.
pub fn hhll(instruction: &Instruction) -> (r: u16)
    ensures
        r == hhll_of(*instruction),
{
    let bytes = slice_subrange(instruction.as_slice(), 2, 4);
    read_u16_le(bytes)
}

/// Both register indices of a two-register instruction, `rx` first.
pub fn rx_ry(instruction: &Instruction) -> (r: (usize, usize))
    ensures
        r.0 == rx_of(*instruction),
        r.1 == ry_of(*instruction),
{
    (usize::from(low_nibble(instruction[1])), usize::from(high_nibble(instruction[1])))
}

/// The register index of a one-register instruction.
pub fn rx(instruction: &Instruction) -> (r: usize)
    ensures
        r == rx_of(*instruction),
{
    usize::from(low_nibble(instruction[1]))
}

/// The three register indices of a three-register instruction, in the
/// order `rx`, `ry`, `rz`.
pub fn rx_ry_rz(instruction: &Instruction) -> (r: (usize, usize, usize))
    ensures
        r.0 == rx_of(*instruction),
        r.1 == ry_of(*instruction),
        r.2 == rz_of(*instruction),
{
    (
        usize::from(low_nibble(instruction[1])),
        usize::from(high_nibble(instruction[1])),
        usize::from(low_nibble(instruction[2])),
    )
}

/// The shift count of a shift by a constant.
pub fn n(instruction: &Instruction) -> (r: u8)
    ensures
        r == n_of(*instruction),
{
    low_nibble(instruction[2])
}

} // verus!
