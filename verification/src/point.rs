//! Public keys and signatures in their parsed form, and the two helpers that
//! move a public key between a register and that form.

use crate::constants::{
    PUBLIC_KEY_COMPRESSED_SIZE, PUBLIC_KEY_UNCOMPRESSED_SIZE, SIGNATURE_SIZE, TAG_EVEN,
};
use crate::engine::{curve_point, engine_point_parse, engine_signature_parse};
use crate::error::ErrorKind;
use crate::scalar::is_compact_signature;
use vstd::prelude::*;

verus! {

/// A public key in parsed form: the uncompressed encoding of its point, a tag
/// byte and the two coordinates. A fresh one holds zeros and is no point yet.
pub struct PublicKey {
    bytes: [u8; PUBLIC_KEY_UNCOMPRESSED_SIZE],
}

/// A signature in parsed form: R then S, 32 big-endian bytes each. A fresh one
/// holds zeros.
pub struct Signature {
    bytes: [u8; SIGNATURE_SIZE],
}

impl View for PublicKey {
    type V = Seq<u8>;

    closed spec fn view(&self) -> Seq<u8> {
        self.bytes@
    }
}

impl View for Signature {
    type V = Seq<u8>;

    closed spec fn view(&self) -> Seq<u8> {
        self.bytes@
    }
}

impl PublicKey {
    /// An empty slot for a public key.
    pub fn new() -> (key: Self)
        ensures
            key@.len() == 65,
            forall|i: int| 0 <= i < 65 ==> key@[i] == 0,
    {
        PublicKey { bytes: [0u8; PUBLIC_KEY_UNCOMPRESSED_SIZE] }
    }

    /// The bytes of the parsed form.
    pub fn as_ptr(&self) -> (bytes: &[u8; 65])
        ensures
            bytes@ == self@,
    {
        &self.bytes
    }

    /// The bytes of the parsed form, to be written.
    pub fn as_mut_ptr(&mut self) -> (bytes: &mut [u8; 65])
        ensures
            bytes@ == old(self)@,
            final(self)@ == final(bytes)@,
    {
        &mut self.bytes
    }
}

impl Signature {
    /// An empty slot for a signature.
    pub fn new() -> (signature: Self)
        ensures
            signature@.len() == 64,
            forall|i: int| 0 <= i < 64 ==> signature@[i] == 0,
    {
        Signature { bytes: [0u8; SIGNATURE_SIZE] }
    }

    /// The bytes of the parsed form.
    pub fn as_ptr(&self) -> (bytes: &[u8; 64])
        ensures
            bytes@ == self@,
    {
        &self.bytes
    }

    /// The bytes of the parsed form, to be written.
    pub fn as_mut_ptr(&mut self) -> (bytes: &mut [u8; 64])
        ensures
            bytes@ == old(self)@,
            final(self)@ == final(bytes)@,
    {
        &mut self.bytes
    }
}

/// The point that the first `length` bytes of a register encode: there is one
/// only where `length` is 33 or 65 and the engine takes those bytes for a
/// curve point.
pub open spec fn parsed_point(register: Seq<u8>, length: usize) -> Option<Seq<u8>> {
    if length == PUBLIC_KEY_COMPRESSED_SIZE || length == PUBLIC_KEY_UNCOMPRESSED_SIZE {
        curve_point(register.subrange(0, length as int))
    } else {
        None
    }
}

/// The compressed encoding of a point given by its uncompressed encoding: a
/// tag that tells whether Y is odd, then X.
pub open spec fn compressed_form(point: Seq<u8>) -> Seq<u8> {
    seq![(TAG_EVEN + point[64] % 2) as u8] + point.subrange(1, 33)
}

/// What a 65-byte register holds after the point was written into it at
/// length `length`: for 33 the compressed form with the rest of the register
/// as it was, for any other length the uncompressed encoding.
pub open spec fn serialized_point(point: Seq<u8>, length: usize, before: Seq<u8>) -> Seq<u8> {
    if length == PUBLIC_KEY_COMPRESSED_SIZE {
        compressed_form(point) + before.subrange(33, 65)
    } else {
        point
    }
}

/// Parses the public key that the first `length` bytes of `input` encode.
/// Any failure is a bad point.
pub fn pubkey_parse(input: &[u8; 65], length: usize) -> (r: Result<PublicKey, ErrorKind>)
    ensures
        match r {
            Ok(key) => parsed_point(input@, length) == Some(key@) && key@.len() == 65,
            Err(kind) => kind == ErrorKind::BadPoint && parsed_point(input@, length) is None,
        },
{
    if length != PUBLIC_KEY_COMPRESSED_SIZE && length != PUBLIC_KEY_UNCOMPRESSED_SIZE {
        return Err(ErrorKind::BadPoint);
    }
    let encoding = vstd::slice::slice_subrange(input.as_slice(), 0, length);
    match engine_point_parse(encoding) {
        Some(bytes) => Ok(PublicKey { bytes }),
        None => Err(ErrorKind::BadPoint),
    }
}

/// Parses a compact signature. It parses exactly where R and S are both
/// below the curve order; any failure is a bad signature.
pub fn signature_parse(input: &[u8; 64]) -> (r: Result<Signature, ErrorKind>)
    ensures
        match r {
            Ok(signature) => is_compact_signature(input@) && signature@ == input@,
            Err(kind) => kind == ErrorKind::BadSignature && !is_compact_signature(input@),
        },
{
    match engine_signature_parse(input) {
        Some(bytes) => Ok(Signature { bytes }),
        None => Err(ErrorKind::BadSignature),
    }
}

/// Writes `key` into `output`: compressed into the first 33 bytes where
/// `length` is 33, uncompressed into all 65 bytes for any other length.
pub fn pubkey_serialize(key: &PublicKey, output: &mut [u8; 65], length: usize)
    ensures
        final(output)@ == serialized_point(key@, length, old(output)@),
{
    if length == PUBLIC_KEY_COMPRESSED_SIZE {
        output[0] = TAG_EVEN + key.bytes[64] % 2;
        let mut i: usize = 1;
        while i < PUBLIC_KEY_COMPRESSED_SIZE
            invariant
                1 <= i <= 33,
                output@[0] == (2 + key.bytes@[64] % 2) as u8,
                forall|j: int| 1 <= j < i ==> output@[j] == key.bytes@[j],
                forall|j: int| 33 <= j < 65 ==> output@[j] == old(output)@[j],
            decreases 33 - i,
        {
            output[i] = key.bytes[i];
            i += 1;
        }
        assert(output@ =~= serialized_point(key@, length, old(output)@));
    } else {
        *output = key.bytes;
        assert(output@ =~= key@);
    }
}

} // verus!
