//! The outside arena allocator that allocator-aware decoding threads through.
//!
//! Some target types place their decoded data into a caller-supplied arena
//! instead of owning it independently. The decoders in this crate never
//! allocate from the arena themselves; they only hand it on, unchanged, to
//! the target type's own decode logic.

use vstd::prelude::*;

verus! {

/// bumpalo's arena allocator, declared so that a reference to it can be
/// threaded through decoding calls.
#[verifier::external_type_specification]
#[verifier::external_body]
pub struct ExBump<const MIN_ALIGN: usize>(bumpalo::Bump<MIN_ALIGN>);

/// Relies on `bumpalo::Bump::alloc`: it moves `value` into the arena and
/// returns a reference to it, valid for the arena's lifetime. It aborts only
/// if the arena cannot grow (allocation failure).
#[verifier::external_body]
pub(crate) fn alloc_in<'a, T>(alloc: &'a bumpalo::Bump, value: T) -> (r: &'a T)
    ensures
        *r == value,
{
    alloc.alloc(value)
}

} // verus!
