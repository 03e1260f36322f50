//! Structured decode failures.
//!
//! Every failed decode produces a [`FromError`] describing exactly where and
//! why validation failed. Failures inside a field of a block are wrapped in
//! [`FromError::ErrorInField`], so a deeply nested failure carries the full
//! path of field positions from the root value down to the failing leaf.

use vstd::prelude::*;

verus! {

/// Why a decode failed, with enough data to render a precise diagnostic
/// without re-inspecting the original value.
#[derive(Debug, PartialEq, Eq)]
pub enum FromError {
    /// A block was found where an immediate integer was required; carries
    /// the raw bit pattern of the value found.
    ExpectedImmediate(usize),
    /// An immediate was found, but its value does not name one of the
    /// declared nullary variants.
    NullaryVariantTagOutOfRange { max: usize, actual: isize },
    /// An immediate was found where a block was required; carries the
    /// integer found.
    ExpectedBlock(isize),
    /// A block was found, but its field count differs from the one the
    /// target type declares.
    WrongBlockSize { expected: usize, actual: usize },
    /// A block was found, but its tag differs from the one the target
    /// variant declares.
    ExpectedBlockTag { expected: u8, actual: u8 },
    /// A tuple or record (implicit tag `0`) was expected, but the block
    /// carries a nonzero tag.
    ExpectedZeroTag(u8),
    /// Decoding the field at the carried position failed with the carried
    /// cause.
    ErrorInField(usize, Box<FromError>),
}

} // verus!
