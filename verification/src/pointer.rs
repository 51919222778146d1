//! The pointer codec: packs a 48-bit heap address into the low bits of a
//! word whose high 16 bits are forced to zero, and recovers the full
//! address by restoring a process-wide high-bits signature.
//!
//! On 64-bit platforms with canonical addressing, every heap address the
//! process will ever encode shares the same high 16 bits. That write-once,
//! read-many fact is held in an explicit [`PointerContext`], created once at
//! startup from the first (or a probe) address, rather than in hidden
//! global state: the dependency is explicit, race-free and testable.
//!
//! High-bits uniformity is enforced as a precondition of [`encode_ptr`]:
//! every verified caller must show that the address matches the captured
//! signature, and unverified callers can test it first with
//! [`PointerContext::matches_signature`]. An address with foreign high bits
//! is therefore rejected at the boundary instead of silently corrupting
//! every previously encoded pointer.

use crate::layout::{PTR_HIGH_MASK, PTR_LOW_MASK};
use vstd::prelude::*;

verus! {

/// The payload stored for an address: its low 48 bits, with the high 16
/// bits forced to zero so the word cannot collide with the double or
/// integer tag regions.
pub open spec fn spec_encode_ptr(addr: u64) -> u64 {
    addr & PTR_LOW_MASK
}

/// The full address recovered from a pointer word: its low 48 bits with
/// the context's signature restored on top.
pub open spec fn spec_decode_ptr(ctx: PointerContext, word: u64) -> u64 {
    (word & PTR_LOW_MASK) | ctx.signature()
}

/// The process-wide canonical-address signature: the high 16 bits shared
/// by every heap address of the process, captured once and immutable
/// thereafter.
pub struct PointerContext {
    high_bits: u64,
}

impl PointerContext {
    /// The captured high 16 bits.
    pub closed spec fn signature(&self) -> u64 {
        self.high_bits
    }

    /// Well-formed: the signature occupies only the high 16 bits of a word.
    pub open spec fn wf(&self) -> bool {
        self.signature() & PTR_LOW_MASK == 0
    }

    /// Capture the signature from the first address: its high 16 bits.
    pub fn new(addr: u64) -> (ctx: Self)
        ensures
            ctx.wf(),
            ctx.signature() == addr & PTR_HIGH_MASK,
    {
        proof {
            assert((addr & PTR_HIGH_MASK) & PTR_LOW_MASK == 0) by (bit_vector);
        }
        PointerContext { high_bits: addr & PTR_HIGH_MASK }
    }

    /// Does the address carry the captured signature in its high 16 bits?
    /// Exactly the precondition of [`encode_ptr`](Self::encode_ptr), as an
    /// executable test for callers that cannot establish it otherwise.
    pub fn matches_signature(&self, addr: u64) -> (r: bool)
        ensures
            r == (addr & PTR_HIGH_MASK == self.signature()),
    {
        addr & PTR_HIGH_MASK == self.high_bits
    }

    /// Encode a heap address: keep its low 48 bits and force the high 16
    /// bits to zero. Requires the address to carry the captured signature,
    /// so the word decodes back to exactly the same address.
    pub fn encode_ptr(&self, addr: u64) -> (word: u64)
        requires
            self.wf(),
            addr & PTR_HIGH_MASK == self.signature(),
        ensures
            word == spec_encode_ptr(addr),
            word & PTR_HIGH_MASK == 0,
            spec_decode_ptr(*self, word) == addr,
    {
        proof {
            let sig: u64 = self.high_bits;
            assert(sig & PTR_LOW_MASK == 0 && addr & PTR_HIGH_MASK == sig ==> {
                &&& (addr & PTR_LOW_MASK) & PTR_HIGH_MASK == 0
                &&& ((addr & PTR_LOW_MASK) & PTR_LOW_MASK) | sig == addr
            }) by (bit_vector);
        }
        addr & PTR_LOW_MASK
    }

    /// Decode a pointer word: restore the captured signature on top of the
    /// low 48 bits. On a word produced by [`encode_ptr`](Self::encode_ptr)
    /// this recovers the original address exactly.
    pub fn decode_ptr(&self, word: u64) -> (addr: u64)
        ensures
            addr == spec_decode_ptr(*self, word),
    {
        (word & PTR_LOW_MASK) | self.high_bits
    }
}

/// Pointer round-trip: under a well-formed context, every address whose
/// high 16 bits equal the captured signature decodes back to exactly
/// itself after encoding.
pub proof fn lemma_pointer_round_trip(ctx: PointerContext, addr: u64)
    requires
        ctx.wf(),
        addr & PTR_HIGH_MASK == ctx.signature(),
    ensures
        spec_decode_ptr(ctx, spec_encode_ptr(addr)) == addr,
{
    let sig: u64 = ctx.signature();
    assert(sig & PTR_LOW_MASK == 0 && addr & PTR_HIGH_MASK == sig ==> ((addr & PTR_LOW_MASK)
        & PTR_LOW_MASK) | sig == addr) by (bit_vector);
}

} // verus!
