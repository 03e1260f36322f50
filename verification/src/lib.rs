//! Decoding of values in an OCaml-style runtime representation.
//!
//! The representation encodes every value either as an immediate (unboxed)
//! integer or as a reference to a heap block carrying a small integer tag and
//! an ordered sequence of fields, each itself such a value. This crate offers
//! shape validators that check a value against the shape a target type
//! expects, and typed field decoders that decode one field of a block while
//! recording exactly which field failed and why.

pub mod arena;
pub mod error;
pub mod from;
pub mod impls;
pub mod value;
