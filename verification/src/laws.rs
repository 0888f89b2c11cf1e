//! What holds of the operations taken together.
//!
//! The laws of the scalar operations and of the two ways of verifying are
//! proved outright. The laws that rest on the arithmetic of the curve are
//! proved as far as this library reaches: the engine computes that
//! arithmetic, the library names its results and defines none of them, and so
//! a law of this kind states as a condition what it needs of the engine.

use crate::engine::{curve_point, ecdsa_accepts, point_of_scalar, point_plus_scalar};
use crate::error::ErrorKind;
use crate::ops::{
    lower_s_form, point_add_scalar_outcome, point_compress_effect,
    point_from_scalar_outcome, point_written, private_add_effect, private_sub_effect,
    sign_effect, sign_outcome, verify_outcome,
};
use crate::point::{compressed_form, parsed_point, serialized_point};
use crate::registers::Registers;
use crate::scalar::{
    be_bytes, be_value, curve_order, half_order, is_compact_signature, is_scalar, is_secret_key,
    lemma_be_bytes_of_value, lemma_be_value_of_bytes, lemma_half_order, lemma_order_fits,
    lemma_sum_then_negated_sum, lower_s, scalar_sum, signature_r, signature_s, tweak_negation,
};
use vstd::prelude::*;

verus! {

/// Whether the engine reads `point` back from both of its encodings: from the
/// 65 bytes themselves and from their compressed form. Every point that the
/// engine hands out is meant to be read back so; that is a fact of the curve
/// and is not proved here.
pub open spec fn reads_back(point: Seq<u8>) -> bool {
    &&& point.len() == 65
    &&& curve_point(point) == Some(point)
    &&& curve_point(compressed_form(point)) == Some(point)
}

/// The first `length` bytes of a register that holds `point` at that length.
pub open spec fn encoding(point: Seq<u8>, length: usize) -> Seq<u8> {
    if length == 33 {
        compressed_form(point)
    } else {
        point
    }
}

/// Only a register read at length 33 or 65 can hold a point: at any other
/// length the point test gives 0.
pub proof fn law_point_lengths(register: Seq<u8>, length: usize)
    ensures
        parsed_point(register, length) is Some ==> length == 33 || length == 65,
{
}

/// A register that a point was written into at length 33 or 65 starts with
/// the encoding of that length, and parses at that length wherever the engine
/// reads the point back.
pub proof fn lemma_written_point_parses(point: Seq<u8>, length: usize, before: Seq<u8>)
    requires
        length == 33 || length == 65,
        point.len() == 65,
        before.len() == 65,
    ensures
        serialized_point(point, length, before).len() == 65,
        serialized_point(point, length, before).subrange(0, length as int) == encoding(
            point,
            length,
        ),
        reads_back(point) ==> parsed_point(serialized_point(point, length, before), length)
            == Some(point),
{
    let written = serialized_point(point, length, before);
    assert(written.subrange(0, length as int) =~= encoding(point, length));
}

/// Compressing the first public key register in place and decompressing it
/// again: where the register held a point in uncompressed form that the
/// engine reads back, the compressed register parses as that point, and the
/// decompressed register holds the 65 bytes that it held at the start.
pub proof fn law_compress_then_decompress(
    start: Registers,
    compressed: Registers,
    ended: Registers,
    first: Result<(), ErrorKind>,
    second: Result<(), ErrorKind>,
)
    requires
        point_compress_effect(start, compressed, 65, 33, first),
        point_compress_effect(compressed, ended, 33, 65, second),
    ensures
        reads_back(start.public_key@) ==> first is Ok && second is Ok,
        reads_back(start.public_key@) ==> parsed_point(compressed.public_key@, 33) == Some(
            start.public_key@,
        ),
        reads_back(start.public_key@) ==> ended.public_key == start.public_key,
        ended.agrees_except_public_key(start),
{
    let point = start.public_key@;
    if reads_back(point) {
        assert(point.subrange(0, 65) =~= point);
        lemma_written_point_parses(point, 33, point);
        assert(ended.public_key@ =~= point);
    }
}

/// Whether the engine takes `inverse` to undo `tweak` at `point`: both are
/// scalars, adding `tweak` gives a point that the engine reads back, and
/// adding `inverse` to that point gives `point` again. For a tweak and its negation modulo the
/// curve order this is the group law of the curve, which is not proved here.
pub open spec fn tweak_undone(point: Seq<u8>, tweak: Seq<u8>, inverse: Seq<u8>) -> bool {
    let moved = point_plus_scalar(point, tweak);
    &&& is_scalar(tweak)
    &&& is_scalar(inverse)
    &&& point.len() == 65
    &&& moved is Some
    &&& reads_back(moved->0)
    &&& point_plus_scalar(moved->0, inverse) == Some(point)
}

/// Adding a tweak to the point in the first public key register, writing
/// another tweak into the tweak register and adding again: where the engine
/// takes the second tweak to undo the first, both additions succeed and the
/// register ends with the encoding, at the length asked for, of the point
/// that it started with.
pub proof fn law_add_scalar_then_inverse(
    start: Registers,
    tweaked: Registers,
    retuned: Registers,
    ended: Registers,
    length: usize,
    first: Result<i32, ErrorKind>,
    second: Result<i32, ErrorKind>,
)
    requires
        length == 33 || length == 65,
        parsed_point(start.public_key@, length) is Some,
        point_written(start, tweaked, point_add_scalar_outcome(start, length), length, first),
        retuned.public_key == tweaked.public_key,
        point_written(retuned, ended, point_add_scalar_outcome(retuned, length), length, second),
    ensures
        ({
            let point = parsed_point(start.public_key@, length)->0;
            tweak_undone(point, start.tweak@, retuned.tweak@) ==> {
                &&& first == Ok::<i32, ErrorKind>(1)
                &&& second == Ok::<i32, ErrorKind>(1)
                &&& ended.public_key@.subrange(0, length as int) == encoding(point, length)
            }
        }),
{
    let point = parsed_point(start.public_key@, length)->0;
    if tweak_undone(point, start.tweak@, retuned.tweak@) {
        let moved = point_plus_scalar(point, start.tweak@)->0;
        lemma_written_point_parses(moved, length, start.public_key@);
        lemma_written_point_parses(point, length, retuned.public_key@);
    }
}

/// Private addition that succeeded, followed by private subtraction with the
/// tweak register untouched in between, succeeds and leaves the private key
/// register as it was before the addition. This holds of every tweak that the
/// addition took, zero among them.
pub proof fn law_private_add_then_sub(
    start: Registers,
    added: Registers,
    ended: Registers,
    status: i32,
)
    requires
        private_add_effect(start, added, 1),
        private_sub_effect(added, ended, status),
    ensures
        status == 1,
        ended.private_key == start.private_key,
{
    let key = start.private_key@;
    let tweak = start.tweak@;
    let n = curve_order();
    let sum = scalar_sum(key, tweak)->0;
    let negated = tweak_negation(tweak)->0;
    lemma_order_fits();
    lemma_be_value_of_bytes(sum, 32);
    lemma_be_value_of_bytes(negated, 32);
    lemma_be_bytes_of_value(key);
    vstd::arithmetic::div_mod::lemma_mod_bound(
        (be_value(key) + be_value(tweak)) as int,
        n as int,
    );
    assert(be_value(added.private_key@) == sum);
    lemma_sum_then_negated_sum(key, tweak, added.private_key@, be_bytes(negated, 32));
    assert(ended.private_key@ =~= start.private_key@);
}

/// Signing with a private key succeeds and writes a compact signature in
/// lower-S form, and deriving the public key afterwards succeeds too.
/// Verifying strictly then gives 1 wherever the engine reads the public point
/// back and accepts the signature that it made: the three operations meet in
/// the registers as they should. That the engine accepts its own signatures
/// is the condition, not the claim.
pub proof fn law_sign_then_verify(
    start: Registers,
    signed: Registers,
    keyed: Registers,
    extra_data: i32,
    length: usize,
    outcome: Result<(), ErrorKind>,
    status: i32,
)
    requires
        length == 33 || length == 65,
        is_secret_key(start.private_key@),
        sign_effect(start, signed, extra_data, outcome),
        point_written(
            signed,
            keyed,
            Ok(point_from_scalar_outcome(signed)),
            length,
            Ok(status),
        ),
    ensures
        outcome is Ok,
        status == 1,
        Some(keyed.signature@) == sign_outcome(start, extra_data),
        is_compact_signature(keyed.signature@),
        1 <= signature_s(keyed.signature@) <= half_order(),
        ({
            let point = point_of_scalar(start.private_key@);
            reads_back(point) && ecdsa_accepts(keyed.signature@, start.hash@, point)
                ==> verify_outcome(keyed, length, 1) == Ok::<bool, ErrorKind>(true)
        }),
{
    let point = point_of_scalar(start.private_key@);
    if reads_back(point) {
        lemma_written_point_parses(point, length, signed.public_key@);
    }
}

/// Whatever strict verification accepts, lax verification accepts too: a
/// signature in lower-S form is its own lower-S form.
pub proof fn law_lax_accepts_what_strict_accepts(registers: Registers, inputlen: usize)
    requires
        verify_outcome(registers, inputlen, 1) == Ok::<bool, ErrorKind>(true),
    ensures
        verify_outcome(registers, inputlen, 0) == Ok::<bool, ErrorKind>(true),
{
    lemma_be_bytes_of_value(registers.signature@.subrange(32, 64));
    assert(lower_s_form(registers.signature@) =~= registers.signature@);
}

/// A signature that strict verification accepts is still accepted, by lax
/// verification, once its S is replaced by the curve order less S, and is
/// then refused by strict verification.
pub proof fn law_high_s_counterpart(low: Registers, high: Registers, inputlen: usize)
    requires
        high.agrees_except_signature(low),
        signature_r(high.signature@) == signature_r(low.signature@),
        signature_s(high.signature@) == curve_order() - signature_s(low.signature@),
        verify_outcome(low, inputlen, 1) == Ok::<bool, ErrorKind>(true),
    ensures
        verify_outcome(high, inputlen, 0) == Ok::<bool, ErrorKind>(true),
        verify_outcome(high, inputlen, 1) == Ok::<bool, ErrorKind>(false),
{
    lemma_half_order();
    let s = signature_s(low.signature@);
    assert(lower_s(signature_s(high.signature@)) == s);
    lemma_be_bytes_of_value(low.signature@.subrange(32, 64));
    assert(lower_s_form(high.signature@) =~= low.signature@);
}

} // verus!
