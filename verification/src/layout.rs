//! Byte-level building blocks of the device's report formats: single flag
//! bits and 24-bit little-endian registers.

use vstd::prelude::*;

verus! {

/// Mask that keeps the register bits of a 32-bit word. Registers are 24 bits
/// wide and travel in 32-bit little-endian words, whose top byte carries no
/// register data.
pub const REGISTER_MASK: u32 = 0x00FF_FFFF;

/// One more than the largest value a register can hold.
pub open spec fn register_limit() -> nat {
    0x100_0000
}

/// Whether bit 0, the least significant bit, of `byte` is set.
pub open spec fn bit0(byte: u8) -> bool {
    byte % 2 == 1
}

/// Whether bit 1 of `byte` is set.
pub open spec fn bit1(byte: u8) -> bool {
    (byte / 2) % 2 == 1
}

/// The value of the register whose least significant byte sits at `offset`
/// in `report`: three bytes, little-endian.
pub open spec fn register24(report: Seq<u8>, offset: int) -> nat
    recommends
        0 <= offset,
        offset + 3 <= report.len(),
{
    (report[offset] as nat) + 256 * (report[offset + 1] as nat) + 65536 * (report[offset + 2] as nat)
}

/// A register never reaches `register_limit()`, whatever the bytes are.
pub proof fn lemma_register24_bound(report: Seq<u8>, offset: int)
    ensures
        register24(report, offset) < register_limit(),
{
}

/// Tests bit 0 of `byte`.
pub fn is_bit0_set(byte: u8) -> (set: bool)
    ensures
        set == bit0(byte),
{
    assert((byte & 0x01 != 0) == (byte % 2 == 1)) by (bit_vector);
    byte & 0x01 != 0
}

/// Tests bit 1 of `byte`.
pub fn is_bit1_set(byte: u8) -> (set: bool)
    ensures
        set == bit1(byte),
{
    assert((byte & 0x02 != 0) == ((byte / 2) % 2 == 1)) by (bit_vector);
    byte & 0x02 != 0
}

/// Reads the 32-bit little-endian word at `offset` and drops its top byte,
/// which leaves the 24-bit register stored in the three bytes from `offset`.
pub fn read_register24(report: &[u8], offset: usize) -> (value: u32)
    requires
        offset + 4 <= report@.len(),
    ensures
        value == register24(report@, offset as int),
        value < register_limit(),
{
    let b0: u32 = report[offset] as u32;
    let b1: u32 = report[offset + 1] as u32;
    let b2: u32 = report[offset + 2] as u32;
    let b3: u32 = report[offset + 3] as u32;
    let word: u32 = b0 | (b1 << 8) | (b2 << 16) | (b3 << 24);
    let value: u32 = word & REGISTER_MASK;
    assert(value == b0 + 256 * b1 + 65536 * b2) by (bit_vector)
        requires
            b0 < 256,
            b1 < 256,
            b2 < 256,
            b3 < 256,
            word == b0 | (b1 << 8) | (b2 << 16) | (b3 << 24),
            value == word & 0x00FF_FFFFu32,
    ;
    value
}

} // verus!
