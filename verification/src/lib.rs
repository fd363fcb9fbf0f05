//! Simplified AES: a reduced-scale block cipher on a 16-bit block and a
//! 16-bit key, built from 4-bit nibbles.
//!
//! The cipher state is a 2x2 matrix of nibbles packed into one 16-bit word;
//! encryption runs two rounds of nibble substitution, row shifting, column
//! mixing over GF(2^4) and round-key addition, with the three round keys
//! derived from the master key by the key schedule.

pub mod cipher;
pub mod gf16;
pub mod keys;
pub mod nibble;
pub mod parse;
pub mod round;
pub mod sbox;
