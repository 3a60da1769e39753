//! The 32-bit Fx hash, as far as widget identities need it.
//!
//! The hashing itself is done by the `fxhash` crate. This module states what
//! its 32-bit hasher computes for the word-sized inputs the identities are
//! built from, and proves the one property the identities rely on: hashing
//! a single 32-bit word is a bijection, so combining never merges two
//! different inputs.
use vstd::prelude::*;

verus! {

/// The multiplier of the 32-bit hasher.
pub const SEED32: u32 = 0x2722_0a95;

/// The multiplicative inverse of [`SEED32`] modulo 2^32.
pub const UNSEED32: u32 = 0x7809_70bd;

/// Multiplication of two 32-bit words, keeping the low 32 bits.
pub open spec fn mul32(a: u32, b: u32) -> u32 {
    (((a as u64 * b as u64) as u64) & 0xffff_ffff) as u32
}

/// One round of the hasher: the state is rotated left by five bits, the
/// word is xor-ed in, and the result is multiplied by the seed.
pub open spec fn fx_round(state: u32, word: u32) -> u32 {
    mul32(((state << 5) | (state >> 27)) ^ word, SEED32)
}

/// The hash of a single 32-bit word: one round from the zero state.
pub open spec fn fx_word(word: u32) -> u32 {
    fx_round(0, word)
}

/// The hash of a 64-bit value: the low word, then the high word.
pub open spec fn fx_dword(value: u64) -> u32 {
    fx_round(fx_word((value & 0xffff_ffff) as u32), (value >> 32) as u32)
}

/// The hash of a pointer-sized value. The hasher feeds it one word on a
/// 32-bit target and two words, low first, on a 64-bit target.
pub open spec fn fx_usize(value: usize) -> u32 {
    if usize::BITS == 32 {
        fx_word(value as u32)
    } else {
        fx_dword(value as u64)
    }
}

/// Hashes a `u32` with the 32-bit hasher of `fxhash`: a fresh
/// `FxHasher32`, one `write_u32`, then `finish`. The hasher starts from
/// zero, `write_u32` is one round over the word, and `finish` returns the
/// state, so the result is one round over that word.
#[verifier::external_body]
pub(crate) fn hash_u32(value: u32) -> (h: u32)
    ensures
        h == fx_word(value),
{
    let mut state = fxhash::FxHasher32::default();
    std::hash::Hasher::write_u32(&mut state, value);
    std::hash::Hasher::finish(&state) as u32
}

/// Hashes a `usize` with the 32-bit hasher of `fxhash`: a fresh
/// `FxHasher32`, one `write_usize`, then `finish`. The hasher writes a
/// `usize` as one word where pointers are 32 bits wide and as a `u64`, low
/// word first, where they are 64 bits wide.
#[verifier::external_body]
pub(crate) fn hash_usize(value: usize) -> (h: u32)
    ensures
        h == fx_usize(value),
{
    let mut state = fxhash::FxHasher32::default();
    std::hash::Hasher::write_usize(&mut state, value);
    std::hash::Hasher::finish(&state) as u32
}

/// Calls `fxhash::hash32` on a string slice. The hasher reads the bytes in
/// the byte order of the machine, so nothing is promised of the result.
#[verifier::external_body]
pub(crate) fn hash_str(text: &str) -> u32 {
    fxhash::hash32(text)
}

/// Hashing a word can be undone: multiplying by [`UNSEED32`] gives the word
/// back.
pub proof fn lemma_fx_word_inverse(word: u32)
    ensures
        mul32(fx_word(word), UNSEED32) == word,
{
    assert(mul32(fx_word(word), UNSEED32) == word) by (bit_vector);
}

/// Hashing a word is injective.
pub proof fn lemma_fx_word_injective(a: u32, b: u32)
    ensures
        fx_word(a) == fx_word(b) <==> a == b,
{
    lemma_fx_word_inverse(a);
    lemma_fx_word_inverse(b);
}

} // verus!
