//! The two-round encrypt and decrypt pipelines.
//!
//! Encryption adds round key 0, runs one full round (substitute, shift,
//! mix, add round key 1) and one final round without MixColumns (substitute,
//! shift, add round key 2). Decryption applies the exact algebraic inverses
//! in reverse order; since ShiftRow is its own inverse it reappears
//! unchanged there.

use vstd::prelude::*;
use crate::keys::spec_round_keys;
use crate::round::{
    add_key, inv_mix_col, lemma_add_key_involution, lemma_mix_col_inverse,
    lemma_shift_row_involution, mix_col, shift_row, spec_add_key, spec_inv_mix_col,
    spec_mix_col, spec_shift_row,
};
use crate::sbox::{lemma_nibble_sub_involution, nibble_sub, spec_nibble_sub};

verus! {

/// The ciphertext for a block under the round keys `(k0, k1, k2)`.
pub open spec fn spec_encrypt(block: u16, k0: u16, k1: u16, k2: u16) -> u16 {
    let r0 = spec_add_key(block, k0);
    let r1 = spec_add_key(spec_mix_col(spec_shift_row(spec_nibble_sub(r0, false))), k1);
    spec_add_key(spec_shift_row(spec_nibble_sub(r1, false)), k2)
}

/// The plaintext for a block under the round keys `(k0, k1, k2)`.
pub open spec fn spec_decrypt(block: u16, k0: u16, k1: u16, k2: u16) -> u16 {
    let r0 = spec_add_key(block, k2);
    let r1 = spec_inv_mix_col(spec_add_key(spec_nibble_sub(spec_shift_row(r0), true), k1));
    spec_add_key(spec_nibble_sub(spec_shift_row(r1), true), k0)
}

/// Decryption inverts encryption under any round-key triple: each pipeline
/// stage of `spec_decrypt` undoes the matching stage of `spec_encrypt`.
pub proof fn lemma_encrypt_decrypt(block: u16, k0: u16, k1: u16, k2: u16)
    ensures
        spec_decrypt(spec_encrypt(block, k0, k1, k2), k0, k1, k2) == block,
{
    let e0 = spec_add_key(block, k0);
    let e1 = spec_nibble_sub(e0, false);
    let e2 = spec_shift_row(e1);
    let e3 = spec_mix_col(e2);
    let e4 = spec_add_key(e3, k1);
    let e5 = spec_nibble_sub(e4, false);
    let e6 = spec_shift_row(e5);
    let cipher = spec_add_key(e6, k2);

    lemma_add_key_involution(e6, k2);
    assert(spec_add_key(cipher, k2) == e6);
    lemma_shift_row_involution(e5);
    assert(spec_shift_row(e6) == e5);
    lemma_nibble_sub_involution(e4);
    assert(spec_nibble_sub(e5, true) == e4);
    lemma_add_key_involution(e3, k1);
    assert(spec_add_key(e4, k1) == e3);
    lemma_mix_col_inverse(e2);
    assert(spec_inv_mix_col(e3) == e2);
    lemma_shift_row_involution(e1);
    assert(spec_shift_row(e2) == e1);
    lemma_nibble_sub_involution(e0);
    assert(spec_nibble_sub(e1, true) == e0);
    lemma_add_key_involution(block, k0);
    assert(spec_add_key(e0, k0) == block);
}

/// Round-trip correctness: under the round keys expanded from any master
/// key, decrypting an encrypted block restores the block.
pub proof fn lemma_round_trip(block: u16, key: u16)
    ensures
        spec_decrypt(
            spec_encrypt(
                block,
                spec_round_keys(key)[0],
                spec_round_keys(key)[1],
                spec_round_keys(key)[2],
            ),
            spec_round_keys(key)[0],
            spec_round_keys(key)[1],
            spec_round_keys(key)[2],
        ) == block,
{
    lemma_encrypt_decrypt(
        block,
        spec_round_keys(key)[0],
        spec_round_keys(key)[1],
        spec_round_keys(key)[2],
    );
}

/// Encrypts one 16-bit block under the round keys `[K0, K1, K2]`.
pub fn encrypt(plaintext: u16, keys: &Vec<u16>) -> (r: u16)
    requires
        keys@.len() == 3,
    ensures
        r == spec_encrypt(plaintext, keys@[0], keys@[1], keys@[2]),
{
    // Add round 0 key
    let mut cipher = add_key(plaintext, keys[0]);

    // Round 1: substitute, shift, mix, add round 1 key
    cipher = nibble_sub(cipher, false);
    cipher = shift_row(cipher);
    cipher = mix_col(cipher);
    cipher = add_key(cipher, keys[1]);

    // Round 2 (final, no MixColumns): substitute, shift, add round 2 key
    cipher = nibble_sub(cipher, false);
    cipher = shift_row(cipher);
    cipher = add_key(cipher, keys[2]);

    cipher
}

/// Decrypts one 16-bit block under the round keys `[K0, K1, K2]`.
pub fn decrypt(ciphertext: u16, keys: &Vec<u16>) -> (r: u16)
    requires
        keys@.len() == 3,
    ensures
        r == spec_decrypt(ciphertext, keys@[0], keys@[1], keys@[2]),
{
    // Add round 2 key
    let mut plaintext = add_key(ciphertext, keys[2]);

    // Round 1: shift, inverse substitute, add round 1 key, inverse mix
    plaintext = shift_row(plaintext);
    plaintext = nibble_sub(plaintext, true);
    plaintext = add_key(plaintext, keys[1]);
    plaintext = inv_mix_col(plaintext);

    // Round 2: shift, inverse substitute, add round 0 key
    plaintext = shift_row(plaintext);
    plaintext = nibble_sub(plaintext, true);
    plaintext = add_key(plaintext, keys[0]);

    plaintext
}

} // verus!
