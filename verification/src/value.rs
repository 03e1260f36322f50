//! The foreign runtime's value representation.
//!
//! A [`Value`] is either an immediate (unboxed) integer or a heap [`Block`].
//! A block carries a small integer tag, discriminating which case of a sum
//! type it represents, and an ordered sequence of fields, each itself a
//! value. Decoders only ever read values; they never mutate or free them.

use vstd::prelude::*;

verus! {

/// A value of the foreign runtime: an immediate integer or a block.
#[derive(Debug, PartialEq, Eq)]
pub enum Value {
    /// An unboxed signed integer, held without any allocation.
    Immediate(isize),
    /// A reference to a heap-allocated block.
    Block(Block),
}

/// A heap block: a tag and a fixed, ordered sequence of fields.
#[derive(Debug, PartialEq, Eq)]
pub struct Block {
    /// The small integer discriminating which variant this block encodes.
    pub tag: u8,
    /// The block's fields, each itself a value.
    pub fields: Vec<Value>,
}

impl Value {
    /// The raw bit pattern of this value, following the usual tagging
    /// convention of the representation: an immediate integer `n` is the odd
    /// pattern `2 * n + 1` (truncated to the machine word), while a block
    /// reference is even. Blocks carry no address in this model, so every
    /// block reference is reported as the canonical even pattern `0`.
    pub open spec fn spec_to_bits(self) -> usize {
        match self {
            Value::Immediate(n) => ((n as usize) << 1usize) | 1usize,
            Value::Block(_) => 0usize,
        }
    }

    /// The immediate integer held by this value, if it is one.
    pub open spec fn spec_as_int(self) -> Option<isize> {
        match self {
            Value::Immediate(n) => Some(n),
            Value::Block(_) => None,
        }
    }

    /// The raw bit pattern of this value.
    pub fn to_bits(&self) -> (r: usize)
        ensures
            r == self.spec_to_bits(),
    {
        match self {
            Value::Immediate(n) => {
                let u: usize = #[verifier::truncate] (*n as usize);
                (u << 1usize) | 1usize
            }
            Value::Block(_) => 0,
        }
    }

    /// Returns the immediate integer if this value is one, and `None` if it
    /// is a block.
    pub fn as_int(&self) -> (r: Option<isize>)
        ensures
            r == self.spec_as_int(),
    {
        match self {
            Value::Immediate(n) => Some(*n),
            Value::Block(_) => None,
        }
    }

    /// Returns a view of the block if this value is one, and `None` if it is
    /// an immediate.
    pub fn as_block(&self) -> (r: Option<&Block>)
        ensures
            (*self) matches Value::Block(b) ==> (r matches Some(rb) && *rb == b),
            (*self) is Immediate ==> r is None,
    {
        match self {
            Value::Block(b) => Some(b),
            Value::Immediate(_) => None,
        }
    }
}

impl Block {
    /// The number of fields of this block.
    pub open spec fn spec_size(self) -> nat {
        self.fields@.len()
    }

    /// The field at position `i`.
    pub open spec fn spec_field(self, i: int) -> Value {
        self.fields@[i]
    }

    /// Builds a block with the given tag and fields.
    pub fn new(tag: u8, fields: Vec<Value>) -> (r: Block)
        ensures
            r.tag == tag,
            r.fields == fields,
    {
        Block { tag, fields }
    }

    /// The number of fields, fixed at construction.
    pub fn size(&self) -> (r: usize)
        ensures
            r == self.spec_size(),
    {
        self.fields.len()
    }

    /// The block's tag.
    pub fn tag(&self) -> (r: u8)
        ensures
            r == self.tag,
    {
        self.tag
    }

    /// Read-only access to the field at position `index`.
    ///
    /// Indexing past the block's size is a programming error, not a decode
    /// failure: callers must validate the size before indexing.
    pub fn get(&self, index: usize) -> (r: &Value)
        requires
            index < self.spec_size(),
        ensures
            *r == self.spec_field(index as int),
    {
        &self.fields[index]
    }
}

} // verus!
