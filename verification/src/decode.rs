//! The operand fields of a 16-bit instruction word.

use vstd::prelude::*;

verus! {

/// The family of an instruction: its top four bits.
pub open spec fn family(op: u16) -> int {
    op as int / 4096
}

/// The first register index: the second nibble.
pub open spec fn field_x(op: u16) -> int {
    (op as int / 256) % 16
}

/// The second register index: the third nibble.
pub open spec fn field_y(op: u16) -> int {
    (op as int / 16) % 16
}

/// The 4-bit immediate: the last nibble.
pub open spec fn field_n(op: u16) -> int {
    op as int % 16
}

/// The 8-bit immediate: the low byte.
pub open spec fn field_nn(op: u16) -> int {
    op as int % 256
}

/// The 12-bit address: everything below the family.
pub open spec fn field_nnn(op: u16) -> int {
    op as int % 4096
}

/// The instruction word made of two consecutive bytes, high byte first.
pub open spec fn word(high: u8, low: u8) -> u16 {
    (high as int * 256 + low as int) as u16
}

/// Joins two bytes into an instruction word, high byte first.
pub fn join(high: u8, low: u8) -> (op: u16)
    ensures
        op == word(high, low),
{
    let h: u16 = high as u16;
    let l: u16 = low as u16;
    assert((h << 8 | l) == h * 256 + l) by (bit_vector)
        requires
            h < 256,
            l < 256,
    ;
    h << 8 | l
}

/// Extracts the family.
pub fn get_family(op: u16) -> (f: u8)
    ensures
        f == family(op),
        f < 16,
{
    assert((op >> 12) == op / 4096 && (op >> 12) < 16) by (bit_vector);
    (op >> 12) as u8
}

/// Extracts the first register index.
pub fn get_x(op: u16) -> (x: usize)
    ensures
        x == field_x(op),
        x < 16,
{
    assert(((op & 0x0F00) >> 8) == (op / 256) % 16) by (bit_vector);
    ((op & 0x0F00) >> 8) as usize
}

/// Extracts the second register index.
pub fn get_y(op: u16) -> (y: usize)
    ensures
        y == field_y(op),
        y < 16,
{
    assert(((op & 0x00F0) >> 4) == (op / 16) % 16) by (bit_vector);
    ((op & 0x00F0) >> 4) as usize
}

/// Extracts the 4-bit immediate.
pub fn get_n(op: u16) -> (n: u8)
    ensures
        n == field_n(op),
        n < 16,
{
    assert((op & 0x000F) == op % 16) by (bit_vector);
    (op & 0x000F) as u8
}

/// Extracts the 8-bit immediate.
pub fn get_nn(op: u16) -> (nn: u8)
    ensures
        nn == field_nn(op),
{
    assert((op & 0x00FF) == op % 256) by (bit_vector);
    (op & 0x00FF) as u8
}

/// Extracts the 12-bit address.
pub fn get_nnn(op: u16) -> (nnn: u16)
    ensures
        nnn == field_nnn(op),
        nnn < 4096,
{
    assert((op & 0x0FFF) == op % 4096) by (bit_vector);
    op & 0x0FFF
}

} // verus!
