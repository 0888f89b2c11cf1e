//! The operations. Each reads its operands from the registers, has the engine
//! compute, writes the result into a register and returns a status: 1 where
//! it succeeded, 0 where the engine refused. Input that does not parse is
//! reported as an error kind instead.
//!
//! An operation that multiplies by the generator or checks a signature takes
//! the randomized context; the others need none.

use crate::engine::{
    ecdsa_accepts, ecdsa_signature, ecdsa_signature_with_entropy, engine_ecdsa_sign,
    engine_ecdsa_sign_with_entropy, engine_ecdsa_verify, engine_point_combine,
    engine_point_create, engine_point_tweak_add, engine_point_tweak_mul, engine_seckey_negate,
    engine_seckey_tweak_add, engine_signature_normalize,
    point_of_scalar, point_plus_scalar, point_sum, point_times_scalar,
};
use crate::context::Context;
use crate::error::ErrorKind;
use crate::point::{
    parsed_point, pubkey_parse, pubkey_serialize, serialized_point, signature_parse, PublicKey,
    Signature,
};
use crate::registers::Registers;
use crate::scalar::{
    be_bytes, be_value, half_order, is_compact_signature, is_scalar, is_secret_key, is_zero,
    lemma_be_bytes_of_value, lower_s, scalar_sum, signature_r, signature_s, tweak_negation,
};
use vstd::prelude::*;

verus! {

/// How an operation that writes a point ends. Where the operands parsed and
/// the engine gave a point, the status is 1 and the first public key register
/// holds the point at the length asked for. Where the engine gave none, the
/// status is 0. Where an operand did not parse, the error is handed on. In the
/// last two cases the register is as it was. No other register changes.
pub open spec fn point_written(
    before: Registers,
    after: Registers,
    outcome: Result<Option<Seq<u8>>, ErrorKind>,
    outputlen: usize,
    r: Result<i32, ErrorKind>,
) -> bool {
    &&& after.agrees_except_public_key(before)
    &&& match outcome {
        Ok(Some(point)) => r == Ok::<i32, ErrorKind>(1) && after.public_key@ == serialized_point(
            point,
            outputlen,
            before.public_key@,
        ),
        Ok(None) => r == Ok::<i32, ErrorKind>(0) && after.public_key == before.public_key,
        Err(kind) => r == Err::<i32, ErrorKind>(kind) && after.public_key == before.public_key,
    }
}

/// What point addition computes: the sum of the points in the two public key
/// registers, none where the engine has no sum, a bad point where either
/// register does not parse at its length.
pub open spec fn point_add_outcome(registers: Registers, inputlen: usize, inputlen2: usize) -> Result<
    Option<Seq<u8>>,
    ErrorKind,
> {
    match (
        parsed_point(registers.public_key@, inputlen),
        parsed_point(registers.public_key2@, inputlen2),
    ) {
        (Some(first), Some(second)) => Ok(point_sum(first, second)),
        _ => Err(ErrorKind::BadPoint),
    }
}

/// What adding a scalar to a point computes: the point in the first public
/// key register plus the tweak times the generator. There is no result for a
/// tweak that is not below the curve order.
pub open spec fn point_add_scalar_outcome(registers: Registers, inputlen: usize) -> Result<
    Option<Seq<u8>>,
    ErrorKind,
> {
    match parsed_point(registers.public_key@, inputlen) {
        Some(point) => if is_scalar(registers.tweak@) {
            Ok(point_plus_scalar(point, registers.tweak@))
        } else {
            Ok(None)
        },
        None => Err(ErrorKind::BadPoint),
    }
}

/// What multiplying a point computes: the point in the first public key
/// register times the tweak. There is no result for a tweak that is zero or
/// not below the curve order.
pub open spec fn point_multiply_outcome(registers: Registers, inputlen: usize) -> Result<
    Option<Seq<u8>>,
    ErrorKind,
> {
    match parsed_point(registers.public_key@, inputlen) {
        Some(point) => if is_scalar(registers.tweak@) && be_value(registers.tweak@) != 0 {
            Ok(point_times_scalar(point, registers.tweak@))
        } else {
            Ok(None)
        },
        None => Err(ErrorKind::BadPoint),
    }
}

/// What deriving a public key computes: the public point of the private key
/// register, none where that register holds no private key.
pub open spec fn point_from_scalar_outcome(registers: Registers) -> Option<Seq<u8>> {
    if is_secret_key(registers.private_key@) {
        Some(point_of_scalar(registers.private_key@))
    } else {
        None
    }
}

/// The signature that signing writes: for the hash register under the private
/// key register, with the extra entropy register mixed into the nonce exactly
/// where the flag is not zero. There is none where the private key register
/// holds no private key.
pub open spec fn sign_outcome(registers: Registers, extra_data: i32) -> Option<Seq<u8>> {
    if !is_secret_key(registers.private_key@) {
        None
    } else if extra_data == 0 {
        Some(ecdsa_signature(registers.hash@, registers.private_key@))
    } else {
        Some(
            ecdsa_signature_with_entropy(
                registers.hash@,
                registers.private_key@,
                registers.extra_data@,
            ),
        )
    }
}

/// A compact signature in lower-S form: R as it is, S replaced by its
/// negation where it is above half the curve order.
pub open spec fn lower_s_form(signature: Seq<u8>) -> Seq<u8> {
    signature_r(signature) + be_bytes(lower_s(signature_s(signature)), 32)
}

/// Whether the engine accepts a signature as it stands. It accepts none that
/// is not in lower-S form: S must be at least 1 and at most half the curve
/// order.
pub open spec fn accepted_as_given(signature: Seq<u8>, hash: Seq<u8>, point: Seq<u8>) -> bool {
    ecdsa_accepts(signature, hash, point) && 1 <= signature_s(signature) <= half_order()
}

/// What verification decides. A public key register that does not parse is a
/// bad point; after that, a signature register with R or S not below the
/// curve order is a bad signature. Otherwise the engine judges the signature
/// for the hash register under the point: as it stands where `strict` is not
/// zero, in its lower-S form where `strict` is zero.
pub open spec fn verify_outcome(registers: Registers, inputlen: usize, strict: i32) -> Result<
    bool,
    ErrorKind,
> {
    match parsed_point(registers.public_key@, inputlen) {
        None => Err(ErrorKind::BadPoint),
        Some(point) => if !is_compact_signature(registers.signature@) {
            Err(ErrorKind::BadSignature)
        } else if strict == 0 {
            Ok(accepted_as_given(lower_s_form(registers.signature@), registers.hash@, point))
        } else {
            Ok(accepted_as_given(registers.signature@, registers.hash@, point))
        },
    }
}

/// How rewriting a point ends: where the register parses at `inputlen` it
/// holds the same point at length `outputlen`, else a bad point is reported
/// and the register is as it was. No other register changes.
pub open spec fn point_compress_effect(
    before: Registers,
    after: Registers,
    inputlen: usize,
    outputlen: usize,
    r: Result<(), ErrorKind>,
) -> bool {
    &&& after.agrees_except_public_key(before)
    &&& match parsed_point(before.public_key@, inputlen) {
        Some(point) => r is Ok && after.public_key@ == serialized_point(
            point,
            outputlen,
            before.public_key@,
        ),
        None => r == Err::<(), ErrorKind>(ErrorKind::BadPoint) && after.public_key
            == before.public_key,
    }
}

/// How private addition ends: where key and tweak have a sum, the status is 1
/// and the private key register spells the sum; else the status is 0 and the
/// register is as it was. No other register changes.
pub open spec fn private_add_effect(before: Registers, after: Registers, status: i32) -> bool {
    &&& after.agrees_except_private_key(before)
    &&& match scalar_sum(before.private_key@, before.tweak@) {
        Some(sum) => status == 1 && after.private_key@ == be_bytes(sum, 32),
        None => status == 0 && after.private_key == before.private_key,
    }
}

/// How private subtraction ends. Where the tweak has no negation, the status
/// is 0 and nothing changes. Else the tweak register spells the negation,
/// which for a tweak of zero is zero again, and the private key register is
/// added to as by private addition with that tweak.
pub open spec fn private_sub_effect(before: Registers, after: Registers, status: i32) -> bool {
    &&& after.agrees_except_private_key_and_tweak(before)
    &&& match tweak_negation(before.tweak@) {
        None => status == 0 && after.private_key == before.private_key && after.tweak
            == before.tweak,
        Some(negated) => after.tweak@ == be_bytes(negated, 32) && match scalar_sum(
            before.private_key@,
            be_bytes(negated, 32),
        ) {
            Some(difference) => status == 1 && after.private_key@ == be_bytes(difference, 32),
            None => status == 0 && after.private_key == before.private_key,
        },
    }
}

/// How signing ends: where there is a signature to write, the signature
/// register holds it, and it is a compact signature in lower-S form; else a
/// bad private key is reported and the register is as it was. No other
/// register changes.
pub open spec fn sign_effect(
    before: Registers,
    after: Registers,
    extra_data: i32,
    r: Result<(), ErrorKind>,
) -> bool {
    &&& after.agrees_except_signature(before)
    &&& match sign_outcome(before, extra_data) {
        Some(signature) => {
            &&& r is Ok
            &&& after.signature@ == signature
            &&& is_compact_signature(after.signature@)
            &&& 1 <= signature_s(after.signature@) <= half_order()
        },
        None => r == Err::<(), ErrorKind>(ErrorKind::BadPrivate) && after.signature
            == before.signature,
    }
}

/// Takes what the engine gave for a point operation: writes the point, if
/// there is one, into the first public key register at length `outputlen` and
/// gives status 1; gives status 0 and writes nothing where there is none.
pub fn store_point(registers: &mut Registers, point: Option<[u8; 65]>, outputlen: usize) -> (status:
    i32)
    ensures
        final(registers).agrees_except_public_key(*old(registers)),
        match point {
            Some(p) => status == 1 && final(registers).public_key@ == serialized_point(
                p@,
                outputlen,
                old(registers).public_key@,
            ),
            None => status == 0 && final(registers).public_key == old(registers).public_key,
        },
{
    match point {
        Some(bytes) => {
            let mut key = PublicKey::new();
            *key.as_mut_ptr() = bytes;
            pubkey_serialize(&key, &mut registers.public_key, outputlen);
            1
        },
        None => 0,
    }
}

/// Takes what the engine gave for a private key operation: writes the key,
/// if there is one, into the private key register and gives status 1; gives
/// status 0 and writes nothing where there is none.
pub fn store_private_key(registers: &mut Registers, key: Option<[u8; 32]>) -> (status: i32)
    ensures
        final(registers).agrees_except_private_key(*old(registers)),
        match key {
            Some(k) => status == 1 && final(registers).private_key == k,
            None => status == 0 && final(registers).private_key == old(registers).private_key,
        },
{
    match key {
        Some(bytes) => {
            registers.private_key = bytes;
            1
        },
        None => 0,
    }
}

/// Takes what the engine gave for signing: writes the signature, if there is
/// one, into the signature register; reports a bad private key and writes
/// nothing where there is none.
pub fn store_signature(registers: &mut Registers, created: Option<[u8; 64]>) -> (r: Result<
    (),
    ErrorKind,
>)
    ensures
        final(registers).agrees_except_signature(*old(registers)),
        match created {
            Some(s) => r is Ok && final(registers).signature == s,
            None => r == Err::<(), ErrorKind>(ErrorKind::BadPrivate)
                && final(registers).signature == old(registers).signature,
        },
{
    match created {
        Some(bytes) => {
            let mut signature = Signature::new();
            *signature.as_mut_ptr() = bytes;
            registers.signature = *signature.as_ptr();
            Ok(())
        },
        None => Err(ErrorKind::BadPrivate),
    }
}

/// Whether the first `inputlen` bytes of the first public key register encode
/// a curve point: 1 if so, 0 if not.
pub fn is_point(registers: &Registers, inputlen: usize) -> (status: usize)
    ensures
        status == if parsed_point(registers.public_key@, inputlen) is Some {
            1usize
        } else {
            0usize
        },
{
    match pubkey_parse(&registers.public_key, inputlen) {
        Ok(_) => 1,
        Err(_) => 0,
    }
}

/// Adds the points in the two public key registers and writes the sum over
/// the first, at length `outputlen`.
pub fn point_add(
    registers: &mut Registers,
    inputlen: usize,
    inputlen2: usize,
    outputlen: usize,
) -> (r: Result<i32, ErrorKind>)
    ensures
        point_written(
            *old(registers),
            *final(registers),
            point_add_outcome(*old(registers), inputlen, inputlen2),
            outputlen,
            r,
        ),
{
    let first = match pubkey_parse(&registers.public_key, inputlen) {
        Ok(key) => key,
        Err(kind) => { return Err(kind); },
    };
    let second = match pubkey_parse(&registers.public_key2, inputlen2) {
        Ok(key) => key,
        Err(kind) => { return Err(kind); },
    };
    let sum = engine_point_combine(first.as_ptr(), second.as_ptr());
    Ok(store_point(registers, sum, outputlen))
}

/// Adds the tweak times the generator to the point in the first public key
/// register and writes the result over it, at length `outputlen`.
pub fn point_add_scalar(
    context: &Context,
    registers: &mut Registers,
    inputlen: usize,
    outputlen: usize,
) -> (r: Result<i32, ErrorKind>)
    ensures
        point_written(
            *old(registers),
            *final(registers),
            point_add_scalar_outcome(*old(registers), inputlen),
            outputlen,
            r,
        ),
{
    let key = match pubkey_parse(&registers.public_key, inputlen) {
        Ok(key) => key,
        Err(kind) => { return Err(kind); },
    };
    let tweaked = engine_point_tweak_add(context.handle(), key.as_ptr(), &registers.tweak);
    Ok(store_point(registers, tweaked, outputlen))
}

/// Rewrites the point in the first public key register at length
/// `outputlen`: compresses, decompresses, or leaves the form as it is.
pub fn point_compress(registers: &mut Registers, inputlen: usize, outputlen: usize) -> (r: Result<
    (),
    ErrorKind,
>)
    ensures
        point_compress_effect(*old(registers), *final(registers), inputlen, outputlen, r),
{
    let key = match pubkey_parse(&registers.public_key, inputlen) {
        Ok(key) => key,
        Err(kind) => { return Err(kind); },
    };
    pubkey_serialize(&key, &mut registers.public_key, outputlen);
    Ok(())
}

/// Derives the public key of the private key register and writes it into the
/// first public key register, at length `outputlen`.
pub fn point_from_scalar(context: &Context, registers: &mut Registers, outputlen: usize) -> (status:
    i32)
    ensures
        point_written(
            *old(registers),
            *final(registers),
            Ok(point_from_scalar_outcome(*old(registers))),
            outputlen,
            Ok(status),
        ),
{
    let point = engine_point_create(context.handle(), &registers.private_key);
    store_point(registers, point, outputlen)
}

/// Multiplies the point in the first public key register by the tweak and
/// writes the result over it, at length `outputlen`.
pub fn point_multiply(
    context: &Context,
    registers: &mut Registers,
    inputlen: usize,
    outputlen: usize,
) -> (r: Result<i32, ErrorKind>)
    ensures
        point_written(
            *old(registers),
            *final(registers),
            point_multiply_outcome(*old(registers), inputlen),
            outputlen,
            r,
        ),
{
    let key = match pubkey_parse(&registers.public_key, inputlen) {
        Ok(key) => key,
        Err(kind) => { return Err(kind); },
    };
    let product = engine_point_tweak_mul(context.handle(), key.as_ptr(), &registers.tweak);
    Ok(store_point(registers, product, outputlen))
}

/// Adds the tweak to the private key register, modulo the curve order.
pub fn private_add(registers: &mut Registers) -> (status: i32)
    ensures
        private_add_effect(*old(registers), *final(registers), status),
{
    let sum = engine_seckey_tweak_add(&registers.private_key, &registers.tweak);
    proof {
        if sum is Some {
            lemma_be_bytes_of_value(sum->0@);
        }
    }
    store_private_key(registers, sum)
}

/// Subtracts the tweak from the private key register, modulo the curve order:
/// negates the tweak in its register, then adds it. A tweak of zero is its own
/// negation and is added as it stands. Where the tweak has no negation nothing
/// changes; where only the sum fails the tweak register keeps the negation.
pub fn private_sub(registers: &mut Registers) -> (status: i32)
    ensures
        private_sub_effect(*old(registers), *final(registers), status),
{
    if is_zero(&registers.tweak) {
        proof {
            lemma_be_bytes_of_value(registers.tweak@);
        }
        private_add(registers)
    } else {
        match engine_seckey_negate(&registers.tweak) {
            Some(negated) => {
                proof {
                    lemma_be_bytes_of_value(negated@);
                }
                registers.tweak = negated;
                private_add(registers)
            },
            None => 0,
        }
    }
}

/// Signs the hash register with the private key register and writes the
/// compact signature into the signature register. The extra entropy register
/// is read only where `extra_data` is not zero.
pub fn sign(context: &Context, registers: &mut Registers, extra_data: i32) -> (r: Result<
    (),
    ErrorKind,
>)
    ensures
        sign_effect(*old(registers), *final(registers), extra_data, r),
{
    let created = if extra_data == 0 {
        engine_ecdsa_sign(context.handle(), &registers.hash, &registers.private_key)
    } else {
        engine_ecdsa_sign_with_entropy(
            context.handle(),
            &registers.hash,
            &registers.private_key,
            &registers.extra_data,
        )
    };
    store_signature(registers, created)
}

/// Checks the signature register against the hash register under the point
/// in the first public key register: 1 where the engine accepts it, 0 where
/// it does not. With `strict` zero the signature is brought into lower-S form
/// first, so that both forms of a signature pass.
pub fn verify(context: &Context, registers: &Registers, inputlen: usize, strict: i32) -> (r: Result<
    i32,
    ErrorKind,
>)
    ensures
        match verify_outcome(*registers, inputlen, strict) {
            Ok(accepted) => r == Ok::<i32, ErrorKind>(if accepted { 1i32 } else { 0i32 }),
            Err(kind) => r == Err::<i32, ErrorKind>(kind),
        },
{
    let key = match pubkey_parse(&registers.public_key, inputlen) {
        Ok(key) => key,
        Err(kind) => { return Err(kind); },
    };
    let mut signature = match signature_parse(&registers.signature) {
        Ok(signature) => signature,
        Err(kind) => { return Err(kind); },
    };
    if strict == 0 {
        match engine_signature_normalize(signature.as_ptr()) {
            Some(normal) => {
                proof {
                    lemma_be_bytes_of_value(normal@.subrange(32, 64));
                    assert(normal@ =~= lower_s_form(registers.signature@));
                }
                *signature.as_mut_ptr() = normal;
            },
            None => {},
        }
    }
    if engine_ecdsa_verify(context.handle(), signature.as_ptr(), &registers.hash, key.as_ptr()) {
        Ok(1)
    } else {
        Ok(0)
    }
}

} // verus!
