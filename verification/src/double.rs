//! The double codec: biases raw IEEE-754 bit patterns into the double band
//! of the word layout, and unbiases them again.
//!
//! Both directions use wrapping 64-bit addition on purpose: legitimate
//! double bit patterns occupy the full 64-bit space, so overflow during the
//! bias add is expected and is exactly what produces the tag region. The
//! reinterpretation between `f64` and its bit pattern is the caller's one
//! audited bit cast; this codec works on the bit pattern alone. Genuine NaN
//! payloads must be intercepted upstream and never encoded here: the codec
//! itself is total and does not guard against them.

use crate::layout::DOUBLE_OFFSET;
use crate::tag::spec_is_js_double;
use vstd::prelude::*;

verus! {

/// The word that encodes a raw double bit pattern: the bit pattern plus
/// `DOUBLE_OFFSET`, wrapping modulo `2^64`.
pub open spec fn spec_encode_double(bits: u64) -> u64 {
    if bits + DOUBLE_OFFSET <= u64::MAX {
        (bits + DOUBLE_OFFSET) as u64
    } else {
        (bits + DOUBLE_OFFSET - 0x1_0000_0000_0000_0000) as u64
    }
}

/// The raw double bit pattern held by a word: the word minus
/// `DOUBLE_OFFSET`, wrapping modulo `2^64`.
pub open spec fn spec_decode_double(word: u64) -> u64 {
    if word >= DOUBLE_OFFSET {
        (word - DOUBLE_OFFSET) as u64
    } else {
        (word + 0x1_0000_0000_0000_0000 - DOUBLE_OFFSET) as u64
    }
}

/// Double round-trip: encoding then decoding reproduces every 64-bit
/// pattern identically (so `-0.0`, subnormals and both zero encodings
/// survive bitwise), and decoding then encoding reproduces every word.
pub proof fn lemma_double_round_trip(bits: u64, word: u64)
    ensures
        spec_decode_double(spec_encode_double(bits)) == bits,
        spec_encode_double(spec_decode_double(word)) == word,
{
}

/// Encode a raw IEEE-754 bit pattern as a tagged word.
///
/// The result lands in the double band exactly when the pattern is below
/// `0xFFFC_0000_0000_0000`; the patterns at or above that bound are the
/// high NaN encodings whose spare bits the other categories reuse, and the
/// caller must never pass them.
pub fn encode_double_bits(bits: u64) -> (word: u64)
    ensures
        word == spec_encode_double(bits),
        spec_decode_double(word) == bits,
        spec_is_js_double(word) <==> bits < 0xfffc_0000_0000_0000,
{
    if bits <= u64::MAX - DOUBLE_OFFSET {
        bits + DOUBLE_OFFSET
    } else {
        bits - (u64::MAX - DOUBLE_OFFSET) - 1
    }
}

/// Decode a tagged word back to the raw IEEE-754 bit pattern it encodes.
pub fn decode_double_bits(word: u64) -> (bits: u64)
    ensures
        bits == spec_decode_double(word),
        spec_encode_double(bits) == word,
{
    if word >= DOUBLE_OFFSET {
        word - DOUBLE_OFFSET
    } else {
        word + (u64::MAX - DOUBLE_OFFSET) + 1
    }
}

} // verus!
