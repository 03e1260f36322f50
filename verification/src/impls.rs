//! Decodings for basic target types.
//!
//! These implementations follow the representation's conventions: a signed
//! integer is an immediate, a `bool` is the immediate `0` or `1`, and a
//! two-field product is a block with tag `0` and two fields. The pair
//! decoding re-enters the protocol recursively through [`field`], so a
//! failure inside a nested pair carries the full path of field positions.

use vstd::prelude::*;

use crate::arena::alloc_in;
use crate::error::FromError;
use crate::from::expect_int;
use crate::from::expect_nullary_variant;
use crate::from::expect_tuple;
use crate::from::field;
use crate::from::FromOcamlRep;
use crate::from::FromOcamlRepIn;
use crate::value::Block;
use crate::value::Value;

verus! {

impl FromOcamlRep for isize {
    open spec fn decode_spec(v: Value) -> Result<isize, FromError> {
        match v {
            Value::Immediate(n) => Ok(n),
            Value::Block(_) => Err(FromError::ExpectedImmediate(v.spec_to_bits())),
        }
    }

    fn from_ocamlrep(value: &Value) -> (r: Result<isize, FromError>) {
        expect_int(value)
    }
}

impl FromOcamlRep for bool {
    open spec fn decode_spec(v: Value) -> Result<bool, FromError> {
        match v {
            Value::Immediate(n) => if n == 0 {
                Ok(false)
            } else if n == 1 {
                Ok(true)
            } else {
                Err(FromError::NullaryVariantTagOutOfRange { max: 1, actual: n })
            },
            Value::Block(_) => Err(FromError::ExpectedImmediate(v.spec_to_bits())),
        }
    }

    fn from_ocamlrep(value: &Value) -> (r: Result<bool, FromError>) {
        match expect_nullary_variant(value, 1) {
            Ok(n) => Ok(n == 1),
            Err(e) => Err(e),
        }
    }
}

/// A two-field product type, encoded as a block with tag `0` and two fields.
#[derive(Debug, PartialEq, Eq)]
pub struct Pair<T, U> {
    pub fst: T,
    pub snd: U,
}

impl<T: FromOcamlRep, U: FromOcamlRep> FromOcamlRep for Pair<T, U> {
    open spec fn decode_spec(v: Value) -> Result<Pair<T, U>, FromError> {
        match v {
            Value::Immediate(n) => Err(FromError::ExpectedBlock(n)),
            Value::Block(b) => if b.spec_size() != 2 {
                Err(FromError::WrongBlockSize { expected: 2, actual: b.spec_size() as usize })
            } else if b.tag != 0 {
                Err(FromError::ExpectedZeroTag(b.tag))
            } else {
                match T::decode_spec(b.spec_field(0)) {
                    Err(e) => Err(FromError::ErrorInField(0, Box::new(e))),
                    Ok(x) => match U::decode_spec(b.spec_field(1)) {
                        Err(e) => Err(FromError::ErrorInField(1, Box::new(e))),
                        Ok(y) => Ok(Pair { fst: x, snd: y }),
                    },
                }
            },
        }
    }

    fn from_ocamlrep(value: &Value) -> (r: Result<Pair<T, U>, FromError>) {
        let block = expect_tuple(value, 2)?;
        let fst: T = field(block, 0)?;
        let snd: U = field(block, 1)?;
        Ok(Pair { fst, snd })
    }
}

impl<'a> FromOcamlRepIn<'a> for isize {
    open spec fn decode_in_spec(v: Value) -> Result<isize, FromError> {
        <isize as FromOcamlRep>::decode_spec(v)
    }

    fn from_ocamlrep_in(value: &Value, _alloc: &'a bumpalo::Bump) -> (r: Result<
        isize,
        FromError,
    >) {
        expect_int(value)
    }
}

impl<'a, T: FromOcamlRep> FromOcamlRepIn<'a> for &'a T {
    open spec fn decode_in_spec(v: Value) -> Result<&'a T, FromError> {
        match T::decode_spec(v) {
            Ok(x) => Ok(&x),
            Err(e) => Err(e),
        }
    }

    fn from_ocamlrep_in(value: &Value, alloc: &'a bumpalo::Bump) -> (r: Result<&'a T, FromError>) {
        match T::from_ocamlrep(value) {
            Ok(x) => Ok(alloc_in(alloc, x)),
            Err(e) => Err(e),
        }
    }
}

/// Field-decode wrapping: when decoding the first field of a pair block
/// fails with some error, the pair's decoding fails with that error wrapped
/// in [`FromError::ErrorInField`] carrying position `0`.
pub proof fn lemma_pair_first_field_error<T: FromOcamlRep, U: FromOcamlRep>(b: Block, e: FromError)
    requires
        b.spec_size() == 2,
        b.tag == 0,
        T::decode_spec(b.spec_field(0)) == Err::<T, FromError>(e),
    ensures
        Pair::<T, U>::decode_spec(Value::Block(b)) == Err::<Pair<T, U>, FromError>(
            FromError::ErrorInField(0, Box::new(e)),
        ),
{
}

/// Field-decode wrapping: when the first field of a pair block decodes and
/// decoding the second fails with some error, the pair's decoding fails
/// with that error wrapped in [`FromError::ErrorInField`] carrying
/// position `1`.
pub proof fn lemma_pair_second_field_error<T: FromOcamlRep, U: FromOcamlRep>(
    b: Block,
    x: T,
    e: FromError,
)
    requires
        b.spec_size() == 2,
        b.tag == 0,
        T::decode_spec(b.spec_field(0)) == Ok::<T, FromError>(x),
        U::decode_spec(b.spec_field(1)) == Err::<U, FromError>(e),
    ensures
        Pair::<T, U>::decode_spec(Value::Block(b)) == Err::<Pair<T, U>, FromError>(
            FromError::ErrorInField(1, Box::new(e)),
        ),
{
}

/// Field-decode wrapping composes recursively: when a pair block's first
/// field is itself a pair block whose own first field fails to decode with
/// some error, decoding the outer pair fails with that error wrapped once
/// per nesting level, outermost position first.
pub proof fn lemma_nested_field_error<T: FromOcamlRep, U: FromOcamlRep, W: FromOcamlRep>(
    outer: Block,
    inner: Block,
    e: FromError,
)
    requires
        outer.spec_size() == 2,
        outer.tag == 0,
        outer.spec_field(0) == Value::Block(inner),
        inner.spec_size() == 2,
        inner.tag == 0,
        T::decode_spec(inner.spec_field(0)) == Err::<T, FromError>(e),
    ensures
        Pair::<Pair<T, U>, W>::decode_spec(Value::Block(outer)) == Err::<
            Pair<Pair<T, U>, W>,
            FromError,
        >(FromError::ErrorInField(0, Box::new(FromError::ErrorInField(0, Box::new(e))))),
{
    lemma_pair_first_field_error::<T, U>(inner, e);
    lemma_pair_first_field_error::<Pair<T, U>, W>(outer, FromError::ErrorInField(0, Box::new(e)));
}

} // verus!
