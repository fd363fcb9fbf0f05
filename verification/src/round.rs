//! The elementary round operations: AddRoundKey, ShiftRow, MixColumns and
//! InvMixColumns.
//!
//! ShiftRow swaps the second matrix row (the S10 and S11 nibbles) and is its
//! own inverse, so decryption reuses it. MixColumns applies the matrix
//! `[[1,4],[4,1]]` over GF(2^4) to each column `(S00,S10)` and `(S01,S11)`
//! independently; InvMixColumns applies the inverse matrix `[[9,2],[2,9]]`.

use vstd::prelude::*;
use crate::gf16::{get_mult_val, spec_multiply};
use crate::nibble::{get_nibble_val, spec_assemble, spec_s00, spec_s01, spec_s10, spec_s11};

verus! {

/// Round-key addition: the bitwise XOR of state and key.
pub open spec fn spec_add_key(state: u16, key: u16) -> u16 {
    state ^ key
}

/// ShiftRow: the S10 and S11 nibbles trade slots; S00 and S01 stay put.
pub open spec fn spec_shift_row(state: u16) -> u16 {
    spec_assemble(spec_s00(state), spec_s01(state), spec_s11(state), spec_s10(state))
}

/// MixColumns: each column `(a, b)` becomes `(a ^ 4*b, b ^ 4*a)` in GF(2^4).
pub open spec fn spec_mix_col(state: u16) -> u16 {
    spec_assemble(
        spec_s00(state) ^ spec_multiply(4, spec_s10(state)),
        spec_s01(state) ^ spec_multiply(4, spec_s11(state)),
        spec_s10(state) ^ spec_multiply(4, spec_s00(state)),
        spec_s11(state) ^ spec_multiply(4, spec_s01(state)),
    )
}

/// InvMixColumns: each column `(a, b)` becomes `(9*a ^ 2*b, 2*a ^ 9*b)`.
pub open spec fn spec_inv_mix_col(state: u16) -> u16 {
    spec_assemble(
        spec_multiply(9, spec_s00(state)) ^ spec_multiply(2, spec_s10(state)),
        spec_multiply(9, spec_s01(state)) ^ spec_multiply(2, spec_s11(state)),
        spec_multiply(2, spec_s00(state)) ^ spec_multiply(9, spec_s10(state)),
        spec_multiply(2, spec_s01(state)) ^ spec_multiply(9, spec_s11(state)),
    )
}

/// Adding the same round key twice restores the state.
pub proof fn lemma_add_key_involution(state: u16, key: u16)
    by (bit_vector)
    ensures
        spec_add_key(spec_add_key(state, key), key) == state,
{
}

/// ShiftRow is an involution: applying it twice restores the word.
pub proof fn lemma_shift_row_involution(state: u16)
    by (bit_vector)
    ensures
        spec_shift_row(spec_shift_row(state)) == state,
{
}

/// InvMixColumns undoes MixColumns on every word.
pub proof fn lemma_mix_col_inverse(state: u16)
    by (bit_vector)
    ensures
        spec_inv_mix_col(spec_mix_col(state)) == state,
{
}

/// XORs the round key into the state.
pub fn add_key(state: u16, key: u16) -> (r: u16)
    ensures
        r == spec_add_key(state, key),
{
    state ^ key
}

/// Swaps the two nibbles of the second matrix row.
pub fn shift_row(state: u16) -> (r: u16)
    ensures
        r == spec_shift_row(state),
{
    let s00 = get_nibble_val(state, 0);
    let s01 = get_nibble_val(state, 1);
    let s10 = get_nibble_val(state, 2);
    let s11 = get_nibble_val(state, 3);

    (s00 << 12) | (s01 << 4) | (s11 << 8) | s10
}

/// Mixes each column with the matrix `[[1,4],[4,1]]` over GF(2^4).
pub fn mix_col(state: u16) -> (r: u16)
    ensures
        r == spec_mix_col(state),
{
    let s00 = get_nibble_val(state, 0);
    let s01 = get_nibble_val(state, 1);
    let s10 = get_nibble_val(state, 2);
    let s11 = get_nibble_val(state, 3);

    let sn00 = s00 ^ get_mult_val(4, s10);
    let sn10 = s10 ^ get_mult_val(4, s00);
    let sn01 = s01 ^ get_mult_val(4, s11);
    let sn11 = s11 ^ get_mult_val(4, s01);

    (sn00 << 12) | (sn01 << 4) | (sn10 << 8) | sn11
}

/// Mixes each column with the inverse matrix `[[9,2],[2,9]]` over GF(2^4).
pub fn inv_mix_col(state: u16) -> (r: u16)
    ensures
        r == spec_inv_mix_col(state),
{
    let s00 = get_nibble_val(state, 0);
    let s01 = get_nibble_val(state, 1);
    let s10 = get_nibble_val(state, 2);
    let s11 = get_nibble_val(state, 3);

    let sn00 = get_mult_val(9, s00) ^ get_mult_val(2, s10);
    let sn10 = get_mult_val(2, s00) ^ get_mult_val(9, s10);
    let sn01 = get_mult_val(9, s01) ^ get_mult_val(2, s11);
    let sn11 = get_mult_val(2, s01) ^ get_mult_val(9, s11);

    (sn00 << 12) | (sn01 << 4) | (sn10 << 8) | sn11
}

} // verus!
