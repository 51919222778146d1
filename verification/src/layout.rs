//! The shared bit-layout constants. Every consumer of a tagged word (codec,
//! interpreter, heap, debugger) must agree on exactly these values: the
//! layout is the interface.

use vstd::prelude::*;

verus! {

/// First bit pattern of the integer tag region: high 16 bits `FFFE`.
/// Also the least word above the double region.
pub const INT_MASK: u64 = 0xfffe_0000_0000_0000;

/// Low 48 bits of a word: the payload of a pointer.
pub const PTR_LOW_MASK: u64 = 0x0000_ffff_ffff_ffff;

/// High 16 bits of a word: the canonical-address signature of a pointer.
pub const PTR_HIGH_MASK: u64 = 0xffff_0000_0000_0000;

/// Bias (`2^49`) added, wrapping, to every raw double bit pattern. It lifts
/// all non-NaN doubles above the sentinel and pointer region (which lies
/// below `2^49`) while keeping them below the integer tag region.
pub const DOUBLE_OFFSET: u64 = 0x0002_0000_0000_0000;

/// Sentinel word: no value at all.
pub const VAL_EMPTY: u64 = 0x0;

/// Sentinel word: the null value.
pub const VAL_NULL: u64 = 0x2;

/// Sentinel word: reserved for Wasm interoperation.
pub const VAL_WASM: u64 = 0x3;

/// Sentinel word: a deleted property marker.
pub const VAL_DELETED: u64 = 0x4;

/// Sentinel word: the boolean false.
pub const VAL_FALSE: u64 = 0x6;

/// Sentinel word: the boolean true.
pub const VAL_TRUE: u64 = 0x7;

/// Sentinel word: the undefined value.
pub const VAL_UNDEFINED: u64 = 0xa;

/// Largest integer exactly representable in an IEEE-754 double: `2^53 - 1`.
pub const MAX_SAFE_INTEGER: i64 = 0x001f_ffff_ffff_ffff;

/// Smallest safe integer: `-(2^53 - 1)`.
pub const MIN_SAFE_INTEGER: i64 = -0x001f_ffff_ffff_ffff;

} // verus!
