//! The marshaller capability: converting between a typed value and bytes.
//!
//! A marshaller is a pluggable codec.  The registry is agnostic to the
//! concrete wire format: any implementation of [`Marshaller`] is usable,
//! because every implementation owes the round-trip law
//! (`dec(enc(v)) == Some(v)`) as a proof obligation.

use vstd::prelude::*;
use crate::errors::CallError;

verus! {

/// Converts between values of `T` and byte sequences.
///
/// The mathematical model of a marshaller is the pair of spec functions
/// `enc` and `dec` over the *abstract* value `T::V` of the marshalled type.
/// The executable operations `write` and `read` are pinned to that model,
/// and `lemma_round_trip` obliges every implementation to prove that
/// decoding inverts encoding.
pub trait Marshaller<T: View>: Sized {
    /// The byte sequence that this marshaller produces for the value `v`.
    spec fn enc(&self, v: T::V) -> Seq<u8>;

    /// The value that this marshaller reads from `bytes`, or `None` when
    /// the bytes are malformed for this codec.
    spec fn dec(&self, bytes: Seq<u8>) -> Option<T::V>;

    /// The round-trip law: decoding an encoded value reproduces the value.
    proof fn lemma_round_trip(&self, v: T::V)
        ensures
            self.dec(self.enc(v)) == Some(v),
    ;

    /// Serialize `x` to bytes.
    fn write(&self, x: &T) -> (r: Vec<u8>)
        ensures
            r@ == self.enc(x@),
    ;

    /// Deserialize a value from `bytes`.  Succeeds exactly on the byte
    /// sequences that this codec accepts; malformed bytes are reported as
    /// a decode failure, never a panic.
    fn read(&self, bytes: &[u8]) -> (r: Result<T, CallError>)
        ensures
            match r {
                Ok(v) => self.dec(bytes@) == Some(v@),
                Err(e) => self.dec(bytes@) is None && e == CallError::DecodeFailure,
            },
    ;
}

/// The identity codec on raw bytes: every byte sequence is both a valid
/// encoding and a valid value.  This is the marshaller of the built-in
/// echo route.
pub struct MarshallerBytes;

impl Marshaller<Vec<u8>> for MarshallerBytes {
    open spec fn enc(&self, v: Seq<u8>) -> Seq<u8> {
        v
    }

    open spec fn dec(&self, bytes: Seq<u8>) -> Option<Seq<u8>> {
        Some(bytes)
    }

    proof fn lemma_round_trip(&self, v: Seq<u8>)
    {
    }

    fn write(&self, x: &Vec<u8>) -> (r: Vec<u8>)
    {
        vstd::slice::slice_to_vec(x.as_slice())
    }

    fn read(&self, bytes: &[u8]) -> (r: Result<Vec<u8>, CallError>)
    {
        Ok(vstd::slice::slice_to_vec(bytes))
    }
}

/// A fixed-width codec for `u32`: exactly four little-endian bytes.
/// Any byte sequence of another length is malformed for this codec.
pub struct MarshallerU32;

impl Marshaller<u32> for MarshallerU32 {
    open spec fn enc(&self, v: u32) -> Seq<u8> {
        vstd::bytes::spec_u32_to_le_bytes(v)
    }

    open spec fn dec(&self, bytes: Seq<u8>) -> Option<u32> {
        if bytes.len() == 4 {
            Some(vstd::bytes::spec_u32_from_le_bytes(bytes))
        } else {
            None
        }
    }

    proof fn lemma_round_trip(&self, v: u32)
    {
        vstd::bytes::lemma_auto_spec_u32_to_from_le_bytes();
    }

    fn write(&self, x: &u32) -> (r: Vec<u8>)
    {
        vstd::bytes::u32_to_le_bytes(*x)
    }

    fn read(&self, bytes: &[u8]) -> (r: Result<u32, CallError>)
    {
        if bytes.len() == 4 {
            Ok(vstd::bytes::u32_from_le_bytes(bytes))
        } else {
            Err(CallError::DecodeFailure)
        }
    }
}

} // verus!
