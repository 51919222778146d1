//! The integer codec: a faster, denser path for the common small integers.
//!
//! The layout reserves the low 32 bits of the integer tag region for a
//! two's-complement integer, so this codec supports exactly the 32-bit
//! range. Integers outside it (but still within the safe-integer range)
//! must be routed through the double codec instead, which preserves their
//! value exactly. The bound is a documented precondition of
//! [`encode_int`]; [`try_encode_int`] is the checked variant that rejects
//! out-of-range input instead.

use crate::layout::INT_MASK;
use crate::tag::spec_is_js_semi_int;
use vstd::prelude::*;

verus! {

/// The word that encodes a 32-bit-range integer: top 16 bits `FFFE`,
/// middle 16 bits zero, low 32 bits the integer's two's complement.
pub open spec fn spec_encode_int(n: i64) -> u64
    recommends
        i32::MIN <= n <= i32::MAX,
{
    if n >= 0 {
        (INT_MASK + n) as u64
    } else {
        (INT_MASK + 0x1_0000_0000 + n) as u64
    }
}

/// The integer held by an integer-tagged word: the low 32 bits read as a
/// two's-complement value, sign-extended.
pub open spec fn spec_decode_int(word: u64) -> i64 {
    let low = word & 0xffff_ffff;
    if low >= 0x8000_0000 {
        (low - 0x1_0000_0000) as i64
    } else {
        low as i64
    }
}

/// Encode an integer in the 32-bit range as a tagged word. The result
/// carries the integer tag and decodes back to exactly `n`.
pub fn encode_int(n: i64) -> (word: u64)
    requires
        i32::MIN <= n <= i32::MAX,
    ensures
        word == spec_encode_int(n),
        spec_is_js_semi_int(word),
        spec_decode_int(word) == n,
{
    let low: u64 = if n >= 0 {
        n as u64
    } else {
        (n + 0x1_0000_0000) as u64
    };
    let word: u64 = INT_MASK | low;
    proof {
        assert(low < 0x1_0000_0000 ==> {
            let w = INT_MASK | low;
            &&& w == INT_MASK + low
            &&& w >> 48 == 0xfffe
            &&& (w >> 32) & 0xffff == 0
            &&& w & 0xffff_ffff == low
        }) by (bit_vector);
    }
    word
}

/// Encode an integer as a tagged word if it fits the 32-bit range; reject
/// it with `None` exactly when it does not.
pub fn try_encode_int(n: i64) -> (r: Option<u64>)
    ensures
        r is Some <==> i32::MIN <= n <= i32::MAX,
        r is Some ==> r->0 == spec_encode_int(n) && spec_is_js_semi_int(r->0)
            && spec_decode_int(r->0) == n,
{
    if i32::MIN as i64 <= n && n <= i32::MAX as i64 {
        Some(encode_int(n))
    } else {
        None
    }
}

/// Decode an integer-tagged word back to the integer it encodes. The
/// operation is total over all words; on a well-formed integer-tagged word
/// the result is in the 32-bit range and re-encodes to the same word.
pub fn decode_int(word: u64) -> (n: i64)
    ensures
        n == spec_decode_int(word),
        spec_is_js_semi_int(word) ==> i32::MIN <= n <= i32::MAX && spec_encode_int(n) == word,
{
    let low: u64 = word & 0xffff_ffff;
    proof {
        assert(word & 0xffff_ffff < 0x1_0000_0000) by (bit_vector);
        assert(spec_is_js_semi_int(word) ==> word == INT_MASK + (word & 0xffff_ffff))
            by (bit_vector);
    }
    if low >= 0x8000_0000 {
        (low as i64) - 0x1_0000_0000
    } else {
        low as i64
    }
}

} // verus!
