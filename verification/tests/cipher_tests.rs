use saes::cipher::{decrypt, encrypt};
use saes::gf16::get_mult_val;
use saes::keys::{key_expansion, shift_row_byte};
use saes::nibble::{
    get_leftmost_2bits, get_lower_half, get_nibble_val, get_rightmost_2bits, get_upper_half,
};
use saes::round::{add_key, inv_mix_col, mix_col, shift_row};
use saes::sbox::{nib_sub, nibble_sub};

#[test]
fn nibble_positions() {
    // Slot order in 0x1234: S00 = 1, S10 = 2, S01 = 3, S11 = 4.
    assert_eq!(get_nibble_val(0x1234, 0), 0x1);
    assert_eq!(get_nibble_val(0x1234, 1), 0x3);
    assert_eq!(get_nibble_val(0x1234, 2), 0x2);
    assert_eq!(get_nibble_val(0x1234, 3), 0x4);
}

#[test]
fn byte_halves() {
    assert_eq!(get_lower_half(0xABCD), 0xCD);
    assert_eq!(get_upper_half(0xABCD), 0xAB);
    assert_eq!(get_leftmost_2bits(0xE), 0x3);
    assert_eq!(get_rightmost_2bits(0xE), 0x2);
}

#[test]
fn add_key_is_xor() {
    assert_eq!(add_key(0x1234, 0x4AF5), 0x1234 ^ 0x4AF5);
    assert_eq!(add_key(add_key(0x1234, 0x4AF5), 0x4AF5), 0x1234);
}

#[test]
fn substitution_forward_values() {
    // The forward table, flattened by nibble value.
    let expected: [u16; 16] = [
        0x9, 0x4, 0xA, 0xB, 0xD, 0x1, 0x8, 0x5, 0x6, 0x2, 0x0, 0x3, 0xC, 0xE, 0xF, 0x7,
    ];
    for n in 0..16u16 {
        // A nibble value placed in slot 3 is the low nibble of the word.
        assert_eq!(nib_sub(n, 3, false), expected[n as usize]);
    }
}

#[test]
fn substitution_inverse_values() {
    let expected: [u16; 16] = [
        0xA, 0x5, 0x9, 0xB, 0x1, 0x7, 0x8, 0xF, 0x6, 0x0, 0x2, 0x3, 0xC, 0x4, 0xD, 0xE,
    ];
    for n in 0..16u16 {
        assert_eq!(nib_sub(n, 3, true), expected[n as usize]);
    }
}

#[test]
fn substitution_involution() {
    for n in 0..16u16 {
        assert_eq!(nib_sub(nib_sub(n, 3, false), 3, true), n);
        assert_eq!(nib_sub(nib_sub(n, 3, true), 3, false), n);
    }
}

#[test]
fn substitution_bijective() {
    let mut seen = [false; 16];
    for n in 0..16u16 {
        let s = nib_sub(n, 3, false) as usize;
        assert!(!seen[s], "collision in the forward table");
        seen[s] = true;
    }
}

#[test]
fn nibble_sub_whole_word() {
    // sub(1) = 4, sub(3) = B, sub(2) = A, sub(4) = D, slot by slot.
    assert_eq!(nibble_sub(0x1234, false), 0x4ABD);
    for w in 0..=0xFFFFu16 {
        assert_eq!(nibble_sub(nibble_sub(w, false), true), w);
        assert_eq!(nibble_sub(nibble_sub(w, true), false), w);
    }
}

#[test]
fn shift_row_swaps_second_row() {
    // 0xABCD: S00 = A, S10 = B, S01 = C, S11 = D; the swap gives S10 = D, S11 = B.
    assert_eq!(shift_row(0xABCD), 0xADCB);
}

#[test]
fn shift_row_involution() {
    for w in 0..=0xFFFFu16 {
        assert_eq!(shift_row(shift_row(w)), w);
    }
}

#[test]
fn gf16_matches_canonical_table() {
    // The canonical 16x16 product table for GF(2^4) modulo x^4 + x + 1.
    let table: [[u16; 16]; 16] = [
        [0x0, 0x0, 0x0, 0x0, 0x0, 0x0, 0x0, 0x0, 0x0, 0x0, 0x0, 0x0, 0x0, 0x0, 0x0, 0x0],
        [0x0, 0x1, 0x2, 0x3, 0x4, 0x5, 0x6, 0x7, 0x8, 0x9, 0xA, 0xB, 0xC, 0xD, 0xE, 0xF],
        [0x0, 0x2, 0x4, 0x6, 0x8, 0xA, 0xC, 0xE, 0x3, 0x1, 0x7, 0x5, 0xB, 0x9, 0xF, 0xD],
        [0x0, 0x3, 0x6, 0x5, 0xC, 0xF, 0xA, 0x9, 0xB, 0x8, 0xD, 0xE, 0x7, 0x4, 0x1, 0x2],
        [0x0, 0x4, 0x8, 0xC, 0x3, 0x7, 0xB, 0xF, 0x6, 0x2, 0xE, 0xA, 0x5, 0x1, 0xD, 0x9],
        [0x0, 0x5, 0xA, 0xF, 0x7, 0x2, 0xD, 0x8, 0xE, 0xB, 0x4, 0x1, 0x9, 0xC, 0x3, 0x6],
        [0x0, 0x6, 0xC, 0xA, 0xB, 0xD, 0x7, 0x1, 0x5, 0x3, 0x9, 0xF, 0xE, 0x8, 0x2, 0x4],
        [0x0, 0x7, 0xE, 0x9, 0xF, 0x8, 0x1, 0x6, 0xD, 0xA, 0x3, 0x4, 0x2, 0x5, 0xC, 0xB],
        [0x0, 0x8, 0x3, 0xB, 0x6, 0xE, 0x5, 0xD, 0xC, 0x4, 0xF, 0x7, 0xA, 0x2, 0x9, 0x1],
        [0x0, 0x9, 0x1, 0x8, 0x2, 0xB, 0x3, 0xA, 0x4, 0xD, 0x5, 0xC, 0x6, 0xF, 0x7, 0xE],
        [0x0, 0xA, 0x7, 0xD, 0xE, 0x4, 0x9, 0x3, 0xF, 0x5, 0x8, 0x2, 0x1, 0xB, 0x6, 0xC],
        [0x0, 0xB, 0x5, 0xE, 0xA, 0x1, 0xF, 0x4, 0x7, 0xC, 0x2, 0x9, 0xD, 0x6, 0x8, 0x3],
        [0x0, 0xC, 0xB, 0x7, 0x5, 0x9, 0xE, 0x2, 0xA, 0x6, 0x1, 0xD, 0xF, 0x3, 0x4, 0x8],
        [0x0, 0xD, 0x9, 0x4, 0x1, 0xC, 0x8, 0x5, 0x2, 0xF, 0xB, 0x6, 0x3, 0xE, 0xA, 0x7],
        [0x0, 0xE, 0xF, 0x1, 0xD, 0x3, 0x2, 0xC, 0x9, 0x7, 0x6, 0x8, 0x4, 0xA, 0xB, 0x5],
        [0x0, 0xF, 0xD, 0x2, 0x9, 0x6, 0x4, 0xB, 0x1, 0xE, 0xC, 0x3, 0x8, 0x7, 0x5, 0xA],
    ];
    for a in 0..16u16 {
        for b in 0..16u16 {
            assert_eq!(get_mult_val(a, b), table[a as usize][b as usize]);
        }
    }
}

#[test]
fn gf16_identities() {
    for x in 0..16u16 {
        assert_eq!(get_mult_val(0, x), 0);
        assert_eq!(get_mult_val(1, x), x);
        for y in 0..16u16 {
            assert_eq!(get_mult_val(x, y), get_mult_val(y, x));
        }
    }
}

#[test]
fn mix_col_concrete() {
    assert_eq!(mix_col(0x1234), 0x9608);
    assert_eq!(inv_mix_col(0x9608), 0x1234);
}

#[test]
fn mix_col_inverse_exhaustive() {
    for w in 0..=0xFFFFu16 {
        assert_eq!(inv_mix_col(mix_col(w)), w);
    }
}

#[test]
fn rot_nib_swaps_byte_nibbles() {
    assert_eq!(shift_row_byte(0x00F5), 0x5F);
    assert_eq!(shift_row_byte(0x0017), 0x71);
}

#[test]
fn key_expansion_golden() {
    let keys = key_expansion(0x4AF5);
    assert_eq!(keys, vec![0x4AF5, 0xDD28, 0x87AF]);
}

#[test]
fn key_expansion_first_key_is_master() {
    for key in [0x0000u16, 0x0001, 0x4AF5, 0x8000, 0xA73B, 0xFFFF] {
        let keys = key_expansion(key);
        assert_eq!(keys.len(), 3);
        assert_eq!(keys[0], key);
    }
}

#[test]
fn key_expansion_deterministic() {
    for key in [0x0000u16, 0x4AF5, 0xC1D2, 0xFFFF] {
        assert_eq!(key_expansion(key), key_expansion(key));
    }
}

#[test]
fn encrypt_golden_vectors() {
    // (key, round keys, plaintext, ciphertext) regression fixtures: any
    // implementation over the same tables must reproduce these exactly.
    let cases: [(u16, [u16; 3], u16, u16); 5] = [
        (0x4AF5, [0x4AF5, 0xDD28, 0x87AF], 0x1234, 0xF4B1),
        (0x0000, [0x0000, 0x1919, 0x0D14], 0x0000, 0x071E),
        (0xFFFF, [0xFFFF, 0x08F7, 0x6F98], 0xFFFF, 0x5343),
        (0xA73B, [0xA73B, 0x1C27, 0x7651], 0x6F6B, 0x0738),
        (0x1234, [0x1234, 0x497D, 0x9CE1], 0x4AF5, 0x1373),
    ];
    for (key, round_keys, plaintext, ciphertext) in cases {
        let keys = key_expansion(key);
        assert_eq!(keys, round_keys.to_vec());
        assert_eq!(encrypt(plaintext, &keys), ciphertext);
        assert_eq!(decrypt(ciphertext, &keys), plaintext);
    }
}

#[test]
fn round_trip_sampled() {
    for key in [0x0000u16, 0x4AF5, 0x8001, 0xFFFF] {
        let keys = key_expansion(key);
        let mut block: u32 = 0;
        while block <= 0xFFFF {
            let b = block as u16;
            assert_eq!(decrypt(encrypt(b, &keys), &keys), b);
            block += 257;
        }
    }
}
