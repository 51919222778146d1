//! NaN-boxing value representation: a scheme that packs every dynamically
//! typed runtime value (sentinels such as null and the booleans, IEEE-754
//! doubles, small integers, heap pointers) into a single 64-bit word, using
//! the bit patterns that real doubles leave unused.
//!
//! The word itself is the value: a category is recovered purely by bit
//! inspection, never from a type-level tag. Four cooperating codecs share one
//! bit layout:
//!
//! - [`tag`] classifies a word into its category;
//! - [`double`] biases raw IEEE-754 bit patterns into the double region;
//! - [`integer`] packs 32-bit-range integers into a disjoint tag region;
//! - [`pointer`] packs 48-bit canonical heap addresses, with the shared
//!   high-bits signature held in an explicit context.
//!
//! The shared constants of the layout live in [`layout`].

pub mod double;
pub mod integer;
pub mod layout;
pub mod pointer;
pub mod tag;
