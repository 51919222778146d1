//! The tag classifier: determines, by bit inspection alone, which category a
//! 64-bit word belongs to. All operations are pure and total over the full
//! 64-bit domain.

use crate::layout::{
    DOUBLE_OFFSET, INT_MASK, PTR_HIGH_MASK, VAL_DELETED, VAL_EMPTY, VAL_FALSE, VAL_NULL, VAL_TRUE,
    VAL_UNDEFINED, VAL_WASM,
};
use vstd::prelude::*;

verus! {

/// The category of a 64-bit word, as recovered by bit inspection.
///
/// `NotAValue` covers the bit patterns outside every region of the layout:
/// the encoders never produce such a word, but a bare classifier of raw
/// words (a debugger reading memory) must still give them a name.
#[derive(Clone, Copy, Debug, PartialEq, Eq, Structural)]
pub enum Tag {
    Empty,
    Null,
    Wasm,
    Deleted,
    False,
    True,
    Undefined,
    Pointer,
    Double,
    Integer,
    NotAValue,
}

/// A word holds a biased double exactly when it lies in the half-open band
/// `[DOUBLE_OFFSET, INT_MASK)`: a contiguous range test, not a tag-bit test.
pub open spec fn spec_is_js_double(word: u64) -> bool {
    DOUBLE_OFFSET <= word && word < INT_MASK
}

/// A word holds a small integer exactly when its top 16 bits are `FFFE` and
/// its middle 16 bits (bits 32..48) are zero; the low 32 bits are the
/// integer's two's-complement representation.
pub open spec fn spec_is_js_semi_int(word: u64) -> bool {
    word >> 48 == 0xfffe && (word >> 32) & 0xffff == 0
}

/// A word holds a number when it holds either a double or a small integer.
pub open spec fn spec_is_js_num(word: u64) -> bool {
    spec_is_js_double(word) || spec_is_js_semi_int(word)
}

/// A word is one of the seven reserved sentinel constants.
pub open spec fn spec_is_sentinel(word: u64) -> bool {
    ||| word == VAL_EMPTY
    ||| word == VAL_NULL
    ||| word == VAL_WASM
    ||| word == VAL_DELETED
    ||| word == VAL_FALSE
    ||| word == VAL_TRUE
    ||| word == VAL_UNDEFINED
}

/// The category of a word. Sentinels are matched first; any other word whose
/// high 16 bits are zero is read as a pointer payload; then come the double
/// band and the integer tag pattern; everything else is not a valid value.
pub open spec fn spec_classify(word: u64) -> Tag {
    if word == VAL_EMPTY {
        Tag::Empty
    } else if word == VAL_NULL {
        Tag::Null
    } else if word == VAL_WASM {
        Tag::Wasm
    } else if word == VAL_DELETED {
        Tag::Deleted
    } else if word == VAL_FALSE {
        Tag::False
    } else if word == VAL_TRUE {
        Tag::True
    } else if word == VAL_UNDEFINED {
        Tag::Undefined
    } else if word & PTR_HIGH_MASK == 0 {
        Tag::Pointer
    } else if spec_is_js_double(word) {
        Tag::Double
    } else if spec_is_js_semi_int(word) {
        Tag::Integer
    } else {
        Tag::NotAValue
    }
}

/// The regions of the layout are mutually exclusive: no word is both a
/// double and a small integer, a word in the pointer region (high 16 bits
/// zero) is never a number, and every integer-tagged word sits in the narrow
/// band at the very top of the 64-bit space.
pub proof fn lemma_regions_disjoint(word: u64)
    by (bit_vector)
    ensures
        !(spec_is_js_double(word) && spec_is_js_semi_int(word)),
        word & PTR_HIGH_MASK == 0 ==> !spec_is_js_num(word),
        spec_is_js_semi_int(word) ==> INT_MASK <= word && word < INT_MASK + 0x1_0000_0000,
{
}

/// Sentinel uniqueness: the seven sentinel constants are pairwise distinct;
/// no valid double or integer encoding equals a sentinel; and a word
/// classified as a pointer is never a sentinel.
pub proof fn lemma_sentinel_uniqueness(word: u64)
    ensures
        VAL_EMPTY != VAL_NULL,
        VAL_EMPTY != VAL_WASM,
        VAL_EMPTY != VAL_DELETED,
        VAL_EMPTY != VAL_FALSE,
        VAL_EMPTY != VAL_TRUE,
        VAL_EMPTY != VAL_UNDEFINED,
        VAL_NULL != VAL_WASM,
        VAL_NULL != VAL_DELETED,
        VAL_NULL != VAL_FALSE,
        VAL_NULL != VAL_TRUE,
        VAL_NULL != VAL_UNDEFINED,
        VAL_WASM != VAL_DELETED,
        VAL_WASM != VAL_FALSE,
        VAL_WASM != VAL_TRUE,
        VAL_WASM != VAL_UNDEFINED,
        VAL_DELETED != VAL_FALSE,
        VAL_DELETED != VAL_TRUE,
        VAL_DELETED != VAL_UNDEFINED,
        VAL_FALSE != VAL_TRUE,
        VAL_FALSE != VAL_UNDEFINED,
        VAL_TRUE != VAL_UNDEFINED,
        spec_is_js_num(word) ==> !spec_is_sentinel(word),
        spec_classify(word) == Tag::Pointer ==> !spec_is_sentinel(word),
{
    lemma_regions_disjoint(word);
}

/// Is the word a biased double? True exactly on the contiguous band
/// `[DOUBLE_OFFSET, INT_MASK)`.
pub fn is_js_double(word: u64) -> (r: bool)
    ensures
        r == spec_is_js_double(word),
{
    DOUBLE_OFFSET <= word && word < INT_MASK
}

/// Is the word an integer-tagged value? Checks both that the top 16 bits
/// carry the integer tag and that the unused middle 16 bits are zero,
/// rejecting malformed words that merely share the top tag.
pub fn is_js_semi_int(word: u64) -> (r: bool)
    ensures
        r == spec_is_js_semi_int(word),
{
    word >> 48 == 0xfffe && (word >> 32) & 0xffff == 0
}

/// Is the word a number, that is, either a double or a small integer?
pub fn is_js_num(word: u64) -> (r: bool)
    ensures
        r == spec_is_js_num(word),
{
    is_js_double(word) || is_js_semi_int(word)
}

/// Classify a raw word: the bare bit-pattern classifier that a debugging or
/// inspection tool needs to decode a word without the runtime's help.
pub fn classify(word: u64) -> (tag: Tag)
    ensures
        tag == spec_classify(word),
        tag == Tag::Double <==> spec_is_js_double(word),
        tag == Tag::Integer <==> spec_is_js_semi_int(word),
{
    proof {
        lemma_regions_disjoint(word);
    }
    if word == VAL_EMPTY {
        Tag::Empty
    } else if word == VAL_NULL {
        Tag::Null
    } else if word == VAL_WASM {
        Tag::Wasm
    } else if word == VAL_DELETED {
        Tag::Deleted
    } else if word == VAL_FALSE {
        Tag::False
    } else if word == VAL_TRUE {
        Tag::True
    } else if word == VAL_UNDEFINED {
        Tag::Undefined
    } else if word & PTR_HIGH_MASK == 0 {
        Tag::Pointer
    } else if is_js_double(word) {
        Tag::Double
    } else if is_js_semi_int(word) {
        Tag::Integer
    } else {
        Tag::NotAValue
    }
}

} // verus!
