//! The 4-bit substitution box and its inverse.
//!
//! A nibble is split into its high two bits (the row) and low two bits (the
//! column), and the pair addresses a fixed 4x4 table. The forward and the
//! inverse table are exact functional inverses of one another.

use vstd::prelude::*;
use crate::nibble::{
    get_leftmost_2bits, get_nibble_val, get_rightmost_2bits, spec_assemble, spec_nibble,
    spec_s00, spec_s01, spec_s10, spec_s11,
};

verus! {

/// The forward substitution table, addressed by (row, column):
/// rows `[9,4,A,B] [D,1,8,5] [6,2,0,3] [C,E,F,7]`.
pub open spec fn spec_sub_entry(row: u16, col: u16) -> u16 {
    if row == 0 {
        if col == 0 { 0x9 } else if col == 1 { 0x4 } else if col == 2 { 0xA } else { 0xB }
    } else if row == 1 {
        if col == 0 { 0xD } else if col == 1 { 0x1 } else if col == 2 { 0x8 } else { 0x5 }
    } else if row == 2 {
        if col == 0 { 0x6 } else if col == 1 { 0x2 } else if col == 2 { 0x0 } else { 0x3 }
    } else {
        if col == 0 { 0xC } else if col == 1 { 0xE } else if col == 2 { 0xF } else { 0x7 }
    }
}

/// The inverse substitution table, addressed by (row, column):
/// rows `[A,5,9,B] [1,7,8,F] [6,0,2,3] [C,4,D,E]`.
pub open spec fn spec_inv_sub_entry(row: u16, col: u16) -> u16 {
    if row == 0 {
        if col == 0 { 0xA } else if col == 1 { 0x5 } else if col == 2 { 0x9 } else { 0xB }
    } else if row == 1 {
        if col == 0 { 0x1 } else if col == 1 { 0x7 } else if col == 2 { 0x8 } else { 0xF }
    } else if row == 2 {
        if col == 0 { 0x6 } else if col == 1 { 0x0 } else if col == 2 { 0x2 } else { 0x3 }
    } else {
        if col == 0 { 0xC } else if col == 1 { 0x4 } else if col == 2 { 0xD } else { 0xE }
    }
}

/// Substitution of one nibble value: the high two bits pick the row, the low
/// two bits the column, in the forward or the inverse table.
pub open spec fn spec_substitute(nibble: u16, inverse: bool) -> u16 {
    if inverse {
        spec_inv_sub_entry((nibble >> 2) & 3, nibble & 3)
    } else {
        spec_sub_entry((nibble >> 2) & 3, nibble & 3)
    }
}

/// Substituting a word nibble-wise, slot by slot, without reordering slots.
pub open spec fn spec_nibble_sub(state: u16, inverse: bool) -> u16 {
    spec_assemble(
        spec_substitute(spec_s00(state), inverse),
        spec_substitute(spec_s01(state), inverse),
        spec_substitute(spec_s10(state), inverse),
        spec_substitute(spec_s11(state), inverse),
    )
}

/// The two tables are functional inverses: substituting forward then inverse,
/// or inverse then forward, restores the nibble.
pub proof fn lemma_substitute_involution(nibble: u16)
    by (bit_vector)
    requires
        nibble < 16,
    ensures
        spec_substitute(spec_substitute(nibble, false), true) == nibble,
        spec_substitute(spec_substitute(nibble, true), false) == nibble,
{
}

/// The forward table is a bijection over the 16 nibble values: no two
/// distinct nibbles substitute to the same value.
pub proof fn lemma_substitute_injective(a: u16, b: u16)
    by (bit_vector)
    requires
        a < 16,
        b < 16,
        spec_substitute(a, false) == spec_substitute(b, false),
    ensures
        a == b,
{
}

/// Word-level involution: forward substitution of every nibble, then inverse
/// substitution (or the other way round), restores the word.
pub proof fn lemma_nibble_sub_involution(state: u16)
    by (bit_vector)
    ensures
        spec_nibble_sub(spec_nibble_sub(state, false), true) == state,
        spec_nibble_sub(spec_nibble_sub(state, true), false) == state,
{
}

/// Looks up one entry of the forward substitution table.
fn sub_entry(row: u16, col: u16) -> (r: u16)
    requires
        row < 4,
        col < 4,
    ensures
        r == spec_sub_entry(row, col),
        r < 16,
{
    match (row, col) {
        (0, 0) => 0x9, (0, 1) => 0x4, (0, 2) => 0xA, (0, 3) => 0xB,
        (1, 0) => 0xD, (1, 1) => 0x1, (1, 2) => 0x8, (1, 3) => 0x5,
        (2, 0) => 0x6, (2, 1) => 0x2, (2, 2) => 0x0, (2, 3) => 0x3,
        (3, 0) => 0xC, (3, 1) => 0xE, (3, 2) => 0xF, (3, 3) => 0x7,
        _ => {
            proof {
                assert(false);
            }
            0
        },
    }
}

/// Looks up one entry of the inverse substitution table.
fn inv_sub_entry(row: u16, col: u16) -> (r: u16)
    requires
        row < 4,
        col < 4,
    ensures
        r == spec_inv_sub_entry(row, col),
        r < 16,
{
    match (row, col) {
        (0, 0) => 0xA, (0, 1) => 0x5, (0, 2) => 0x9, (0, 3) => 0xB,
        (1, 0) => 0x1, (1, 1) => 0x7, (1, 2) => 0x8, (1, 3) => 0xF,
        (2, 0) => 0x6, (2, 1) => 0x0, (2, 2) => 0x2, (2, 3) => 0x3,
        (3, 0) => 0xC, (3, 1) => 0x4, (3, 2) => 0xD, (3, 3) => 0xE,
        _ => {
            proof {
                assert(false);
            }
            0
        },
    }
}

/// Substitutes the nibble in slot `idx` of the state word, through the
/// forward table or, with `is_inverse`, the inverse table.
pub fn nib_sub(state: u16, idx: u8, is_inverse: bool) -> (r: u16)
    requires
        idx < 4,
    ensures
        r == spec_substitute(spec_nibble(state, idx as int), is_inverse),
        r < 16,
{
    let nib_val = get_nibble_val(state, idx);

    let row_idx = get_leftmost_2bits(nib_val);
    let col_idx = get_rightmost_2bits(nib_val);

    if is_inverse {
        inv_sub_entry(row_idx, col_idx)
    } else {
        sub_entry(row_idx, col_idx)
    }
}

/// Applies the substitution box independently to all four nibbles of a word
/// and reassembles the word in the same slot order.
pub fn nibble_sub(state: u16, is_inverse: bool) -> (r: u16)
    ensures
        r == spec_nibble_sub(state, is_inverse),
{
    let s00 = nib_sub(state, 0, is_inverse);
    let s01 = nib_sub(state, 1, is_inverse);
    let s10 = nib_sub(state, 2, is_inverse);
    let s11 = nib_sub(state, 3, is_inverse);

    (s00 << 12) | (s01 << 4) | (s10 << 8) | s11
}

} // verus!
