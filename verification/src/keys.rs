//! Keys the sketch can count.
//!
//! A sketch instance counts keys of one fixed type. A key type takes part by
//! giving each value a byte encoding; the rows hash those bytes. The spec
//! side of the encoding (`key_bytes`) is what all sketch contracts speak of,
//! and `to_bytes` is its executable twin. Two equal values must encode to the
//! same bytes, which the `ensures` of `to_bytes` pins down: the encoding is a
//! function of the value alone.

use vstd::prelude::*;
use vstd::string::StrSliceExecFns;

verus! {

/// A hashable key: a value with a byte encoding the sketch's rows can hash.
pub trait SketchKey {
    /// The byte encoding of this value, as the contracts see it.
    spec fn key_bytes(&self) -> Seq<u8>;

    /// Produce the byte encoding of this value.
    fn to_bytes(&self) -> (bytes: Vec<u8>)
        ensures
            bytes@ == self.key_bytes(),
    ;
}

impl SketchKey for u64 {
    open spec fn key_bytes(&self) -> Seq<u8> {
        vstd::bytes::spec_u64_to_le_bytes(*self)
    }

    fn to_bytes(&self) -> (bytes: Vec<u8>) {
        vstd::bytes::u64_to_le_bytes(*self)
    }
}

impl SketchKey for usize {
    open spec fn key_bytes(&self) -> Seq<u8> {
        vstd::bytes::spec_u64_to_le_bytes(*self as u64)
    }

    fn to_bytes(&self) -> (bytes: Vec<u8>) {
        vstd::bytes::u64_to_le_bytes(*self as u64)
    }
}

impl SketchKey for String {
    open spec fn key_bytes(&self) -> Seq<u8> {
        vstd::utf8::encode_utf8(self@)
    }

    fn to_bytes(&self) -> (bytes: Vec<u8>) {
        self.as_str().as_bytes_vec()
    }
}

} // verus!
