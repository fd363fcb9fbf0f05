//! The key schedule: three 16-bit round keys from one 16-bit master key.
//!
//! The master key splits into bytes `w0` and `w1`. Each expansion step feeds
//! a byte through `g`: rotate its two nibbles, substitute both through the
//! forward box, then XOR a round constant into the result. The first round
//! key is the master key itself.

use vstd::prelude::*;
use crate::nibble::{get_lower_half, get_nibble_val, get_upper_half, spec_s01, spec_s11};
use crate::sbox::{nibble_sub, spec_nibble_sub};

verus! {

/// The first round constant of the expansion.
pub const RCON_1: u16 = 0x80;

/// The second round constant of the expansion.
pub const RCON_2: u16 = 0x30;

/// RotNib: the two nibbles of a byte trade places.
pub open spec fn spec_rot_byte(byte: u16) -> u16 {
    (spec_s11(byte) << 4) | spec_s01(byte)
}

/// The `g` function of the schedule: rotate the byte's nibbles, then
/// substitute each through the forward box.
pub open spec fn spec_g(byte: u16) -> u16 {
    spec_nibble_sub(spec_rot_byte(byte), false) & 0xFF
}

/// The three round keys `[K0, K1, K2]` derived from the master key.
pub open spec fn spec_round_keys(key: u16) -> Seq<u16> {
    let w0 = (key >> 8) & 0xFF;
    let w1 = key & 0xFF;
    let w2 = w0 ^ 0x80 ^ spec_g(w1);
    let w3 = w2 ^ w1;
    let w4 = w2 ^ 0x30 ^ spec_g(w3);
    let w5 = w4 ^ w3;
    seq![(w0 << 8) | w1, (w2 << 8) | w3, (w4 << 8) | w5]
}

/// The first round key is the master key unchanged.
pub proof fn lemma_round_keys_first(key: u16)
    ensures
        spec_round_keys(key)[0] == key,
{
    assert(((((key >> 8) & 0xFF) << 8) | (key & 0xFF)) == key) by (bit_vector);
}

/// RotNib on a state word: returns the byte made of the word's S11 nibble
/// (now high) and its S01 nibble (now low); on a byte this swaps its two
/// nibbles.
pub fn shift_row_byte(state: u16) -> (r: u16)
    ensures
        r == spec_rot_byte(state),
{
    let n1 = get_nibble_val(state, 1);
    let n3 = get_nibble_val(state, 3);
    (n3 << 4) | n1
}

/// Expands the master key into the round keys `[K0, K1, K2]`.
pub fn key_expansion(key: u16) -> (r: Vec<u16>)
    ensures
        r@ == spec_round_keys(key),
        r@.len() == 3,
        r@[0] == key,
{
    let mut expanded_key = Vec::new();

    let w0 = get_upper_half(key);
    let w1 = get_lower_half(key);
    let w2 = w0 ^ RCON_1 ^ (nibble_sub(shift_row_byte(w1), false) & 0x00FF);
    let w3 = w2 ^ w1;
    let w4 = w2 ^ RCON_2 ^ (nibble_sub(shift_row_byte(w3), false) & 0x00FF);
    let w5 = w4 ^ w3;

    expanded_key.push((w0 << 8) | w1);
    expanded_key.push((w2 << 8) | w3);
    expanded_key.push((w4 << 8) | w5);

    proof {
        assert(expanded_key@ =~= spec_round_keys(key));
        lemma_round_keys_first(key);
    }
    expanded_key
}

} // verus!
