//! Multiplication in GF(2^4), reduced modulo x^4 + x + 1.
//!
//! A nibble stands for a polynomial over GF(2) of degree at most three. The
//! product is the carry-less polynomial product, folded back into four bits
//! by the reduction x^4 = x + 1: each product bit above bit three re-enters
//! as the pair of bits one and two places below the fold. The values agree
//! bit for bit with the canonical 16x16 multiplication table.

use vstd::prelude::*;

verus! {

/// The carry-less (polynomial) product of two nibbles, at most seven bits.
pub open spec fn spec_clmul(a: u16, b: u16) -> u16 {
    (if b & 1 != 0 { a } else { 0 })
        ^ (if b & 2 != 0 { a << 1 } else { 0 })
        ^ (if b & 4 != 0 { a << 2 } else { 0 })
        ^ (if b & 8 != 0 { a << 3 } else { 0 })
}

/// The product of two nibbles in GF(2^4) modulo x^4 + x + 1: the carry-less
/// product with its high three bits folded back in as x^4 = x + 1.
pub open spec fn spec_multiply(a: u16, b: u16) -> u16 {
    (spec_clmul(a, b) ^ (spec_clmul(a, b) >> 4) ^ ((spec_clmul(a, b) >> 4) << 1)) & 0xF
}

/// Zero is absorbing: `0 * x == 0`.
pub proof fn lemma_multiply_zero(x: u16)
    by (bit_vector)
    requires
        x < 16,
    ensures
        spec_multiply(0, x) == 0,
        spec_multiply(x, 0) == 0,
{
}

/// One is the multiplicative identity: `1 * x == x`.
pub proof fn lemma_multiply_one(x: u16)
    by (bit_vector)
    requires
        x < 16,
    ensures
        spec_multiply(1, x) == x,
        spec_multiply(x, 1) == x,
{
}

/// Multiplication is commutative over the nibble domain.
pub proof fn lemma_multiply_comm(a: u16, b: u16)
    by (bit_vector)
    requires
        a < 16,
        b < 16,
    ensures
        spec_multiply(a, b) == spec_multiply(b, a),
{
}

/// Multiplies two nibble values in GF(2^4), bit-identical to a lookup in the
/// canonical precomputed table.
pub fn get_mult_val(fst: u16, snd: u16) -> (r: u16)
    requires
        fst < 16,
        snd < 16,
    ensures
        r == spec_multiply(fst, snd),
        r < 16,
{
    let product = (if snd & 1 != 0 { fst } else { 0 })
        ^ (if snd & 2 != 0 { fst << 1 } else { 0 })
        ^ (if snd & 4 != 0 { fst << 2 } else { 0 })
        ^ (if snd & 8 != 0 { fst << 3 } else { 0 });

    proof {
        assert((product ^ (product >> 4) ^ ((product >> 4) << 1)) & 0xF < 16) by (bit_vector);
    }
    (product ^ (product >> 4) ^ ((product >> 4) << 1)) & 0xF
}

} // verus!
