//! Widget identities.
//!
//! A widget is declared anew on every tick, so its identity cannot be where it
//! lives in memory. It is a 32-bit hash instead, derived from the place in the
//! source where the widget is declared and, where one place declares several
//! widgets, from a value that tells them apart.
use vstd::prelude::*;
use crate::hash::{fx_round, fx_usize, fx_word, hash_str, hash_u32, hash_usize};
use crate::hash::{lemma_fx_word_injective};

verus! {

/// The identity of a widget: the key under which the tree stores it, the
/// difference reports it and events find it.
#[derive(Debug, PartialEq, Eq, PartialOrd, Ord, Clone, Copy, Hash, Structural)]
pub struct HandleHash(pub u32);

impl HandleHash {
    /// The identity of a declaration site whose file name hashes to
    /// `file_hash`: the three hashes are xor-ed and hashed again.
    pub open spec fn spec_site(file_hash: u32, line: u32, column: u32) -> HandleHash {
        HandleHash(fx_word(file_hash ^ fx_word(line) ^ fx_word(column)))
    }

    /// Two identities merged into one: xor, then hash again.
    pub open spec fn spec_combine(h1: HandleHash, h2: HandleHash) -> HandleHash {
        HandleHash(fx_word(h1.0 ^ h2.0))
    }

    /// Three identities merged into one.
    pub open spec fn spec_combine3(h1: HandleHash, h2: HandleHash, h3: HandleHash) -> HandleHash {
        HandleHash(fx_word(h1.0 ^ h2.0 ^ h3.0))
    }

    /// The identity of a declaration site, given the hash of its file name.
    pub fn from_hashed_location(file_hash: u32, line: u32, column: u32) -> (h: HandleHash)
        ensures
            h == Self::spec_site(file_hash, line, column),
    {
        let line_hash = hash_u32(line);
        let column_hash = hash_u32(column);
        HandleHash(hash_u32(file_hash ^ line_hash ^ column_hash))
    }

    /// The identity of the declaration site at `line` and `column` of `file`.
    ///
    /// The hash of the file name is whatever the hasher makes of it on this
    /// machine, so nothing is promised of the identity. What is made of the
    /// hash is fixed by [`HandleHash::from_hashed_location`].
    pub fn from_location(file: &str, line: u32, column: u32) -> HandleHash {
        let file_hash = hash_str(file);
        Self::from_hashed_location(file_hash, line, column)
    }

    /// The hash of a string as an identity. It serves as the second half of a
    /// [`HandleHash::combine`]; nothing is known of its value.
    pub fn from_str(s: &str) -> HandleHash {
        HandleHash(hash_str(s))
    }

    /// Merges two identities.
    pub fn combine(h1: HandleHash, h2: HandleHash) -> (h: HandleHash)
        ensures
            h == Self::spec_combine(h1, h2),
    {
        HandleHash(hash_u32(h1.0 ^ h2.0))
    }

    /// Merges three identities.
    pub fn combine3(h1: HandleHash, h2: HandleHash, h3: HandleHash) -> (h: HandleHash)
        ensures
            h == Self::spec_combine3(h1, h2, h3),
    {
        HandleHash(hash_u32(h1.0 ^ h2.0 ^ h3.0))
    }
}

/// A value that tells apart the widgets declared at one site.
pub trait Handle {
    /// The identity this value contributes.
    spec fn spec_hash(&self) -> HandleHash;

    /// Computes the identity this value contributes.
    fn hash(&self) -> (h: HandleHash)
        ensures
            h == self.spec_hash(),
    ;
}

/// A handle made from the address of the value a widget is bound to. It is
/// stable for as long as the value does not move.
pub struct PtrHandle(u32);

impl PtrHandle {
    /// The hash this handle holds.
    pub closed spec fn value(&self) -> u32 {
        self.0
    }

    /// A handle for the value that lives at `address`.
    pub fn new(address: usize) -> (p: PtrHandle)
        ensures
            p.value() == fx_usize(address),
    {
        PtrHandle(hash_usize(address))
    }
}

impl Handle for PtrHandle {
    open spec fn spec_hash(&self) -> HandleHash {
        HandleHash(self.value())
    }

    fn hash(&self) -> (h: HandleHash) {
        HandleHash(self.0)
    }
}

/// A handle made from a text, by its characters: two texts that read the
/// same tell the same widget. The hash is whatever the hasher makes of the
/// text on this machine.
pub struct TextHandle(u32);

impl TextHandle {
    /// The hash this handle holds.
    pub closed spec fn value(&self) -> u32 {
        self.0
    }

    /// A handle for the text `text`. Nothing is promised of the hash it
    /// holds.
    pub fn new(text: &str) -> TextHandle {
        TextHandle(hash_str(text))
    }
}

impl Handle for TextHandle {
    open spec fn spec_hash(&self) -> HandleHash {
        HandleHash(self.value())
    }

    fn hash(&self) -> (h: HandleHash) {
        HandleHash(self.0)
    }
}

impl Handle for usize {
    open spec fn spec_hash(&self) -> HandleHash {
        HandleHash(fx_usize(*self))
    }

    fn hash(&self) -> (h: HandleHash) {
        HandleHash(hash_usize(*self))
    }
}

/// The identity of a widget declared at `site` and told apart by `handle`.
pub open spec fn spec_manual_handle(site: HandleHash, handle: HandleHash) -> HandleHash {
    HandleHash::spec_combine(site, handle)
}

/// The identity of a widget declared at `site` and told apart by `handle`.
pub fn manual_handle<H: Handle>(site: HandleHash, handle: &H) -> (h: HandleHash)
    ensures
        h == spec_manual_handle(site, handle.spec_hash()),
{
    HandleHash::combine(site, handle.hash())
}

/// Combining with a fixed identity loses nothing: two combinations agree
/// exactly when the other halves agree.
pub proof fn law_combine_injective(seed: HandleHash, a: HandleHash, b: HandleHash)
    ensures
        HandleHash::spec_combine(seed, a) == HandleHash::spec_combine(seed, b) <==> a == b,
        HandleHash::spec_combine(a, seed) == HandleHash::spec_combine(b, seed) <==> a == b,
{
    let s = seed.0;
    let x = a.0;
    let y = b.0;
    lemma_fx_word_injective(s ^ x, s ^ y);
    lemma_fx_word_injective(x ^ s, y ^ s);
    assert((s ^ x == s ^ y) <==> x == y) by (bit_vector);
    assert((x ^ s == y ^ s) <==> x == y) by (bit_vector);
}

/// A declaration site visited with the same
/// disambiguator yields the same identity on every tick, and with a
/// different one a different identity.
pub proof fn law_identity_stable(site: HandleHash, first: HandleHash, second: HandleHash)
    ensures
        first == second ==> spec_manual_handle(site, first) == spec_manual_handle(site, second),
        first != second ==> spec_manual_handle(site, first) != spec_manual_handle(site, second),
{
    law_combine_injective(site, first, second);
}

/// Two indices below 2^32 contribute the same identity only if they are the
/// same index.
pub proof fn law_index_handles_distinct(a: usize, b: usize)
    requires
        a <= u32::MAX,
        b <= u32::MAX,
    ensures
        a.spec_hash() == b.spec_hash() <==> a == b,
{
    let x = a as u32;
    let y = b as u32;
    lemma_fx_word_injective(x, y);
    if usize::BITS != 32 {
        let p = fx_word(x);
        let q = fx_word(y);
        let a64 = a as u64;
        let b64 = b as u64;
        assert(a64 <= 0xffff_ffff ==> (a64 & 0xffff_ffff) as u32 == a64 as u32 && (a64 >> 32) as u32
            == 0u32) by (bit_vector);
        assert(b64 <= 0xffff_ffff ==> (b64 & 0xffff_ffff) as u32 == b64 as u32 && (b64 >> 32) as u32
            == 0u32) by (bit_vector);
        assert(fx_usize(a) == fx_round(p, 0));
        assert(fx_usize(b) == fx_round(q, 0));
        let rp = ((p << 5) | (p >> 27)) ^ 0;
        let rq = ((q << 5) | (q >> 27)) ^ 0;
        assert(fx_round(p, 0) == fx_word(rp)) by (bit_vector)
            requires
                rp == ((p << 5) | (p >> 27)) ^ 0,
        ;
        assert(fx_round(q, 0) == fx_word(rq)) by (bit_vector)
            requires
                rq == ((q << 5) | (q >> 27)) ^ 0,
        ;
        lemma_fx_word_injective(rp, rq);
        assert((((p << 5) | (p >> 27)) ^ 0) == (((q << 5) | (q >> 27)) ^ 0) <==> p == q)
            by (bit_vector);
    }
}

} // verus!

