//! Bit slicing of the 16-bit cipher state.
//!
//! A state word packs the 2x2 nibble matrix `[[S00, S01], [S10, S11]]`
//! most-significant-first in the order S00, S10, S01, S11: S00 sits in bits
//! 15..12, S10 in bits 11..8, S01 in bits 7..4 and S11 in bits 3..0. Nibble
//! indices address the slots as 0 -> S00, 1 -> S01, 2 -> S10, 3 -> S11.

use vstd::prelude::*;

verus! {

/// The S00 nibble of a state word: bits 15..12.
pub open spec fn spec_s00(state: u16) -> u16 {
    (state >> 12) & 0xF
}

/// The S01 nibble of a state word: bits 7..4.
pub open spec fn spec_s01(state: u16) -> u16 {
    (state >> 4) & 0xF
}

/// The S10 nibble of a state word: bits 11..8.
pub open spec fn spec_s10(state: u16) -> u16 {
    (state >> 8) & 0xF
}

/// The S11 nibble of a state word: bits 3..0.
pub open spec fn spec_s11(state: u16) -> u16 {
    state & 0xF
}

/// The nibble in slot `idx`, in the slot order 0 -> S00, 1 -> S01,
/// 2 -> S10, 3 -> S11.
pub open spec fn spec_nibble(state: u16, idx: int) -> u16 {
    if idx == 0 {
        spec_s00(state)
    } else if idx == 1 {
        spec_s01(state)
    } else if idx == 2 {
        spec_s10(state)
    } else {
        spec_s11(state)
    }
}

/// Packs four nibble values back into a state word, slot by slot.
pub open spec fn spec_assemble(s00: u16, s01: u16, s10: u16, s11: u16) -> u16 {
    (s00 << 12) | (s01 << 4) | (s10 << 8) | s11
}

/// Extracts the nibble in slot `idx` of the state word.
pub fn get_nibble_val(state: u16, idx: u8) -> (r: u16)
    requires
        idx < 4,
    ensures
        r == spec_nibble(state, idx as int),
        r < 16,
{
    let shifted = match idx {
        0 => state >> 12,
        1 => state >> 4,
        2 => state >> 8,
        _ => state,
    };
    proof {
        assert(state >> 12 == (state >> 12) & 0xF && (state >> 4) & 0xF < 16
            && (state >> 12) & 0xF < 16 && (state >> 8) & 0xF < 16 && state & 0xF < 16)
            by (bit_vector);
    }
    shifted & 0x000F
}

/// The low byte of a state word: bits 7..0.
pub fn get_lower_half(state: u16) -> (r: u16)
    ensures
        r == state & 0xFF,
        r < 0x100,
{
    proof {
        assert(state & 0xFF < 0x100) by (bit_vector);
    }
    state & 0x00FF
}

/// The high byte of a state word: bits 15..8.
pub fn get_upper_half(state: u16) -> (r: u16)
    ensures
        r == (state >> 8) & 0xFF,
        r < 0x100,
{
    proof {
        assert((state >> 8) & 0xFF < 0x100) by (bit_vector);
    }
    (state >> 8) & 0x00FF
}

/// The high two bits of a nibble value, the substitution-box row index.
pub fn get_leftmost_2bits(nibble: u16) -> (r: u16)
    ensures
        r == (nibble >> 2) & 3,
        r < 4,
{
    proof {
        assert((nibble >> 2) & 3 < 4) by (bit_vector);
    }
    (nibble >> 2) & 0x0003
}

/// The low two bits of a nibble value, the substitution-box column index.
pub fn get_rightmost_2bits(nibble: u16) -> (r: u16)
    ensures
        r == nibble & 3,
        r < 4,
{
    proof {
        assert(nibble & 3 < 4) by (bit_vector);
    }
    nibble & 0x0003
}

} // verus!
