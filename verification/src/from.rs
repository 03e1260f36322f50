//! Shape validators and typed field decoders.
//!
//! A caller decoding a composite type first validates the overall shape of a
//! value (immediate vs block, field count, tag) with the validators here,
//! then decodes each declared field position with [`field`] or [`field_in`],
//! which re-enter the target type's own decode logic and wrap any failure
//! with the field's position. Every operation is a pure, single-pass
//! validate-or-fail function: it fails on the first violated condition and
//! returns the error to its caller unchanged.

use vstd::prelude::*;

use crate::error::FromError;
use crate::value::Block;
use crate::value::Value;

verus! {

/// A type that can be decoded from a [`Value`].
///
/// `decode_spec` is the type's decoding relation: it fixes, for every value,
/// whether decoding succeeds and with what result, or fails and with what
/// error. `from_ocamlrep` is the executable decoder and must return exactly
/// what the relation says.
pub trait FromOcamlRep: Sized {
    /// What decoding `v` as `Self` yields.
    spec fn decode_spec(v: Value) -> Result<Self, FromError>;

    /// Decodes `value` as `Self`.
    fn from_ocamlrep(value: &Value) -> (r: Result<Self, FromError>)
        ensures
            r == Self::decode_spec(*value),
    ;
}

/// A type that can be decoded from a [`Value`], placing decoded data into a
/// caller-supplied arena.
///
/// The decoded result may borrow from the arena, but what it is — success or
/// failure, and with which result — depends on the input value alone, never
/// on the arena.
pub trait FromOcamlRepIn<'a>: Sized {
    /// What decoding `v` as `Self` yields.
    spec fn decode_in_spec(v: Value) -> Result<Self, FromError>;

    /// Decodes `value` as `Self`, placing decoded data into `alloc`.
    fn from_ocamlrep_in(value: &Value, alloc: &'a bumpalo::Bump) -> (r: Result<Self, FromError>)
        ensures
            r == Self::decode_in_spec(*value),
    ;
}

/// Returns the immediate integer held by `value`, and fails with
/// [`FromError::ExpectedImmediate`], carrying the value's raw bit pattern,
/// if the value is a block.
pub fn expect_int(value: &Value) -> (r: Result<isize, FromError>)
    ensures
        (*value) matches Value::Immediate(n) ==> r == Ok::<isize, FromError>(n),
        (*value) is Block ==> r == Err::<isize, FromError>(
            FromError::ExpectedImmediate(value.spec_to_bits()),
        ),
{
    match value.as_int() {
        Some(n) => Ok(n),
        None => Err(FromError::ExpectedImmediate(value.to_bits())),
    }
}

/// Returns the immediate integer held by `value` if it lies in `0 ..= max`,
/// the convention for a parameterless variant of a sum type with `max + 1`
/// nullary cases. Fails with [`FromError::ExpectedImmediate`] on a block and
/// with [`FromError::NullaryVariantTagOutOfRange`] on an immediate outside
/// the range.
pub fn expect_nullary_variant(value: &Value, max: usize) -> (r: Result<isize, FromError>)
    requires
        max <= isize::MAX as usize,
    ensures
        (*value) is Block ==> r == Err::<isize, FromError>(
            FromError::ExpectedImmediate(value.spec_to_bits()),
        ),
        (*value) matches Value::Immediate(n) ==> (0 <= n <= max as int ==> r == Ok::<
            isize,
            FromError,
        >(n)),
        (*value) matches Value::Immediate(n) ==> (!(0 <= n <= max as int) ==> r == Err::<
            isize,
            FromError,
        >(FromError::NullaryVariantTagOutOfRange { max, actual: n })),
{
    let v = expect_int(value)?;
    let max_as_isize: isize = max as isize;
    if 0 <= v && v <= max_as_isize {
        Ok(v)
    } else {
        Err(FromError::NullaryVariantTagOutOfRange { max, actual: v })
    }
}

/// Returns the block referenced by `value`, and fails with
/// [`FromError::ExpectedBlock`], carrying the immediate integer found, if
/// the value is not a block.
pub fn expect_block<'a>(value: &'a Value) -> (r: Result<&'a Block, FromError>)
    ensures
        (*value) matches Value::Block(b) ==> (r matches Ok(rb) && *rb == b),
        (*value) matches Value::Immediate(n) ==> r == Err::<&'a Block, FromError>(
            FromError::ExpectedBlock(n),
        ),
{
    match value {
        Value::Block(b) => Ok(b),
        Value::Immediate(n) => Err(FromError::ExpectedBlock(*n)),
    }
}

/// Succeeds exactly when `block` has `size` fields, and fails with
/// [`FromError::WrongBlockSize`] otherwise.
pub fn expect_block_size(block: &Block, size: usize) -> (r: Result<(), FromError>)
    ensures
        block.spec_size() == size ==> r == Ok::<(), FromError>(()),
        block.spec_size() != size ==> r == Err::<(), FromError>(
            FromError::WrongBlockSize { expected: size, actual: block.spec_size() as usize },
        ),
{
    if block.size() != size {
        return Err(FromError::WrongBlockSize { expected: size, actual: block.size() });
    }
    Ok(())
}

/// Succeeds exactly when `block` carries `tag`, and fails with
/// [`FromError::ExpectedBlockTag`] otherwise.
pub fn expect_block_tag(block: &Block, tag: u8) -> (r: Result<(), FromError>)
    ensures
        block.tag == tag ==> r == Ok::<(), FromError>(()),
        block.tag != tag ==> r == Err::<(), FromError>(
            FromError::ExpectedBlockTag { expected: tag, actual: block.tag },
        ),
{
    if block.tag() != tag {
        return Err(FromError::ExpectedBlockTag { expected: tag, actual: block.tag() });
    }
    Ok(())
}

/// Returns the block referenced by `value` if it has exactly `size` fields
/// and carries `tag`: the canonical validator for a record or for one arm of
/// a tagged sum type. The checks short-circuit in order: block shape first,
/// then size, then tag, and no field is read.
pub fn expect_block_with_size_and_tag<'a>(value: &'a Value, size: usize, tag: u8) -> (r: Result<
    &'a Block,
    FromError,
>)
    ensures
        (*value) matches Value::Immediate(n) ==> r == Err::<&'a Block, FromError>(
            FromError::ExpectedBlock(n),
        ),
        (*value) matches Value::Block(b) ==> (b.spec_size() != size ==> r == Err::<
            &'a Block,
            FromError,
        >(FromError::WrongBlockSize { expected: size, actual: b.spec_size() as usize })),
        (*value) matches Value::Block(b) ==> (b.spec_size() == size && b.tag != tag ==> r == Err::<
            &'a Block,
            FromError,
        >(FromError::ExpectedBlockTag { expected: tag, actual: b.tag })),
        (*value) matches Value::Block(b) ==> (b.spec_size() == size && b.tag == tag ==> (
        r matches Ok(rb) && *rb == b)),
{
    let block = expect_block(value)?;
    expect_block_size(block, size)?;
    expect_block_tag(block, tag)?;
    Ok(block)
}

/// Returns the block referenced by `value` if it has exactly `size` fields
/// and the implicit tuple tag `0`. A nonzero tag is reported with the more
/// specific [`FromError::ExpectedZeroTag`] rather than the generic tag
/// mismatch; size is still checked before the tag.
pub fn expect_tuple<'a>(value: &'a Value, size: usize) -> (r: Result<&'a Block, FromError>)
    ensures
        (*value) matches Value::Immediate(n) ==> r == Err::<&'a Block, FromError>(
            FromError::ExpectedBlock(n),
        ),
        (*value) matches Value::Block(b) ==> (b.spec_size() != size ==> r == Err::<
            &'a Block,
            FromError,
        >(FromError::WrongBlockSize { expected: size, actual: b.spec_size() as usize })),
        (*value) matches Value::Block(b) ==> (b.spec_size() == size && b.tag != 0 ==> r == Err::<
            &'a Block,
            FromError,
        >(FromError::ExpectedZeroTag(b.tag))),
        (*value) matches Value::Block(b) ==> (b.spec_size() == size && b.tag == 0 ==> (
        r matches Ok(rb) && *rb == b)),
{
    let block = expect_block(value)?;
    expect_block_size(block, size)?;
    if block.tag() != 0 {
        return Err(FromError::ExpectedZeroTag(block.tag()));
    }
    Ok(block)
}

/// Decodes the field of `block` at position `index` as `T`, and wraps any
/// failure of that decode in [`FromError::ErrorInField`] carrying the
/// position, so that nested failures record the full path of field positions
/// down to the failing leaf.
pub fn field<T: FromOcamlRep>(block: &Block, index: usize) -> (r: Result<T, FromError>)
    requires
        index < block.spec_size(),
    ensures
        T::decode_spec(block.spec_field(index as int)) matches Ok(v) ==> r == Ok::<T, FromError>(
            v,
        ),
        T::decode_spec(block.spec_field(index as int)) matches Err(e) ==> r == Err::<T, FromError>(
            FromError::ErrorInField(index, Box::new(e)),
        ),
{
    match T::from_ocamlrep(block.get(index)) {
        Ok(v) => Ok(v),
        Err(e) => Err(FromError::ErrorInField(index, Box::new(e))),
    }
}

/// Decodes the field of `block` at position `index` as `T`, placing decoded
/// data into `alloc`, and wraps any failure of that decode in
/// [`FromError::ErrorInField`] carrying the position. The arena is handed
/// on, unchanged, to the target type's decode logic.
pub fn field_in<'a, T: FromOcamlRepIn<'a>>(
    block: &Block,
    index: usize,
    alloc: &'a bumpalo::Bump,
) -> (r: Result<T, FromError>)
    requires
        index < block.spec_size(),
    ensures
        T::decode_in_spec(block.spec_field(index as int)) matches Ok(v) ==> r == Ok::<
            T,
            FromError,
        >(v),
        T::decode_in_spec(block.spec_field(index as int)) matches Err(e) ==> r == Err::<
            T,
            FromError,
        >(FromError::ErrorInField(index, Box::new(e))),
{
    match T::from_ocamlrep_in(block.get(index), alloc) {
        Ok(v) => Ok(v),
        Err(e) => Err(FromError::ErrorInField(index, Box::new(e))),
    }
}

} // verus!
