//! The curve engine: what this library takes from the `secp256k1` crate.
//!
//! Nothing in this file is proved. Each function here makes calls into
//! `secp256k1` and carries a contract that is taken on trust. A point crosses
//! this boundary as its 65-byte uncompressed encoding, a scalar as 32
//! big-endian bytes, a signature in its 64-byte compact form.
//!
//! What the curve arithmetic returns is given a name and no definition. The
//! scalar arithmetic modulo the curve order is stated in full, over
//! [`crate::scalar`].

use crate::scalar::{
    be_value, half_order, is_compact_signature, is_scalar, is_secret_key, lower_s,
    scalar_negation, scalar_sum, signature_r, signature_s,
};
use vstd::prelude::*;

verus! {

/// A context object of the engine, able to sign and to verify. The engine
/// keeps it in a region that it sizes and allocates itself. It is opaque
/// here: Verus does not take the declaration of `secp256k1::Secp256k1`, whose
/// parameter is bound by a trait of that crate.
#[verifier::external_body]
pub struct Handle {
    inner: secp256k1::Secp256k1<secp256k1::All>,
}

/// The seed that a context of the engine was last blinded with by
/// `secp256k1::Secp256k1::seeded_randomize`; none where nothing is known of
/// its blinding.
pub uninterp spec fn handle_blinding(handle: Handle) -> Option<Seq<u8>>;

/// The point that `encoding` stands for, as its uncompressed encoding; none
/// where `encoding` is not a valid encoding of a curve point. This is what
/// `secp256k1::PublicKey::from_slice` accepts.
pub uninterp spec fn curve_point(encoding: Seq<u8>) -> Option<Seq<u8>>;

/// The sum of two points that `secp256k1::PublicKey::combine` computes; none
/// where the sum is the point at infinity or an operand is no point.
pub uninterp spec fn point_sum(first: Seq<u8>, second: Seq<u8>) -> Option<Seq<u8>>;

/// `point` plus `tweak` times the generator, as
/// `secp256k1::PublicKey::add_exp_tweak` computes it; none where the engine
/// refuses the operands or the result.
pub uninterp spec fn point_plus_scalar(point: Seq<u8>, tweak: Seq<u8>) -> Option<Seq<u8>>;

/// `point` times `tweak`, as `secp256k1::PublicKey::mul_tweak` computes it;
/// none where the engine refuses the operands or the result.
pub uninterp spec fn point_times_scalar(point: Seq<u8>, tweak: Seq<u8>) -> Option<Seq<u8>>;

/// The public point of the private key `key`, as
/// `secp256k1::PublicKey::from_secret_key` computes it.
pub uninterp spec fn point_of_scalar(key: Seq<u8>) -> Seq<u8>;

/// The compact signature that `secp256k1::Secp256k1::sign_ecdsa` gives for
/// `hash` under the private key `key`.
pub uninterp spec fn ecdsa_signature(hash: Seq<u8>, key: Seq<u8>) -> Seq<u8>;

/// The compact signature that `secp256k1::Secp256k1::sign_ecdsa_with_noncedata`
/// gives for `hash` under `key` when `extra` is mixed into the nonce.
pub uninterp spec fn ecdsa_signature_with_entropy(
    hash: Seq<u8>,
    key: Seq<u8>,
    extra: Seq<u8>,
) -> Seq<u8>;

/// Whether `secp256k1::Secp256k1::verify_ecdsa` accepts the compact signature
/// `signature` for `hash` under the point `point`.
pub uninterp spec fn ecdsa_accepts(signature: Seq<u8>, hash: Seq<u8>, point: Seq<u8>) -> bool;

/// Makes a context for signing and verification: `Secp256k1::new`, which
/// sizes the region that the context needs, allocates it and creates the
/// context in it. Nothing is claimed of the handle.
#[verifier::external_body]
pub(crate) fn engine_context_new() -> (handle: Handle) {
    Handle { inner: secp256k1::Secp256k1::new() }
}

/// Blinds a context with a seed: `Secp256k1::seeded_randomize`. Claims that
/// the context is afterwards blinded with `seed`. The blinding changes no
/// result of the engine.
#[verifier::external_body]
pub(crate) fn engine_context_randomize(handle: &mut Handle, seed: &[u8; 32])
    ensures
        handle_blinding(*final(handle)) == Some(seed@),
{
    handle.inner.seeded_randomize(seed)
}

/// Parses a public key: `PublicKey::from_slice`, and `serialize_uncompressed`
/// to hand the point back as bytes. Claims that the result is `curve_point`
/// of the input.
#[verifier::external_body]
pub(crate) fn engine_point_parse(input: &[u8]) -> (r: Option<[u8; 65]>)
    ensures
        match r {
            Some(p) => curve_point(input@) == Some(p@),
            None => curve_point(input@) is None,
        },
{
    match secp256k1::PublicKey::from_slice(input) {
        Ok(point) => Some(point.serialize_uncompressed()),
        Err(_) => None,
    }
}

/// Adds two points: `PublicKey::combine`, between `PublicKey::from_slice` and
/// `serialize_uncompressed`. Claims that the result is `point_sum` of the
/// operands.
#[verifier::external_body]
pub(crate) fn engine_point_combine(first: &[u8; 65], second: &[u8; 65]) -> (r: Option<[u8; 65]>)
    ensures
        match r {
            Some(p) => point_sum(first@, second@) == Some(p@),
            None => point_sum(first@, second@) is None,
        },
{
    let Ok(a) = secp256k1::PublicKey::from_slice(first) else { return None; };
    let Ok(b) = secp256k1::PublicKey::from_slice(second) else { return None; };
    match a.combine(&b) {
        Ok(sum) => Some(sum.serialize_uncompressed()),
        Err(_) => None,
    }
}

/// Adds `tweak` times the generator to a point: `PublicKey::add_exp_tweak`,
/// with `PublicKey::from_slice` and `Scalar::from_be_bytes` before it and
/// `serialize_uncompressed` after. Claims that the result is
/// `point_plus_scalar` of the operands, whatever seed blinded the context,
/// and that there is a result only for a tweak below the curve order.
#[verifier::external_body]
pub(crate) fn engine_point_tweak_add(
    handle: &Handle,
    point: &[u8; 65],
    tweak: &[u8; 32],
) -> (r: Option<[u8; 65]>)
    ensures
        match r {
            Some(p) => point_plus_scalar(point@, tweak@) == Some(p@),
            None => point_plus_scalar(point@, tweak@) is None,
        },
        r is Some ==> is_scalar(tweak@),
{
    let Ok(p) = secp256k1::PublicKey::from_slice(point) else { return None; };
    let Ok(t) = secp256k1::Scalar::from_be_bytes(*tweak) else { return None; };
    match p.add_exp_tweak(&handle.inner, &t) {
        Ok(q) => Some(q.serialize_uncompressed()),
        Err(_) => None,
    }
}

/// Multiplies a point by `tweak`: `PublicKey::mul_tweak`, with
/// `PublicKey::from_slice` and `Scalar::from_be_bytes` before it and
/// `serialize_uncompressed` after. Claims that the result is
/// `point_times_scalar` of the operands, whatever seed blinded the context,
/// and that there is a result exactly where the point parses and the tweak is
/// below the curve order and not zero.
#[verifier::external_body]
pub(crate) fn engine_point_tweak_mul(
    handle: &Handle,
    point: &[u8; 65],
    tweak: &[u8; 32],
) -> (r: Option<[u8; 65]>)
    ensures
        match r {
            Some(p) => point_times_scalar(point@, tweak@) == Some(p@),
            None => point_times_scalar(point@, tweak@) is None,
        },
        r is Some <==> (curve_point(point@) is Some && is_scalar(tweak@) && be_value(tweak@) != 0),
{
    let Ok(p) = secp256k1::PublicKey::from_slice(point) else { return None; };
    let Ok(t) = secp256k1::Scalar::from_be_bytes(*tweak) else { return None; };
    match p.mul_tweak(&handle.inner, &t) {
        Ok(q) => Some(q.serialize_uncompressed()),
        Err(_) => None,
    }
}

/// Derives the public point of a private key: `PublicKey::from_secret_key`,
/// between `SecretKey::from_slice` and `serialize_uncompressed`. Claims that
/// there is a result exactly for a private key, that is 32 bytes which spell a
/// number other than zero and below the curve order, and that it is
/// `point_of_scalar` of the key.
#[verifier::external_body]
pub(crate) fn engine_point_create(
    handle: &Handle,
    key: &[u8; 32],
) -> (r: Option<[u8; 65]>)
    ensures
        r is Some <==> is_secret_key(key@),
        r matches Some(p) ==> p@ == point_of_scalar(key@),
{
    let Ok(k) = secp256k1::SecretKey::from_slice(key) else { return None; };
    Some(secp256k1::PublicKey::from_secret_key(&handle.inner, &k).serialize_uncompressed())
}

/// Negates a private key modulo the curve order: `SecretKey::negate`, between
/// `SecretKey::from_slice` and `secret_bytes`. Claims that there is a result
/// exactly for a private key, and that it spells the curve order less the key.
#[verifier::external_body]
pub(crate) fn engine_seckey_negate(key: &[u8; 32]) -> (r: Option<[u8; 32]>)
    ensures
        match r {
            Some(n) => scalar_negation(key@) == Some(be_value(n@)),
            None => scalar_negation(key@) is None,
        },
{
    let Ok(k) = secp256k1::SecretKey::from_slice(key) else { return None; };
    Some(k.negate().secret_bytes())
}

/// Adds a tweak to a private key modulo the curve order:
/// `SecretKey::add_tweak`, with `SecretKey::from_slice` and
/// `Scalar::from_be_bytes` before it and `secret_bytes` after. Claims that
/// there is a result exactly where the key is a private key, the tweak is
/// below the curve order and their sum is not zero modulo the order, and that
/// the result spells that sum.
#[verifier::external_body]
pub(crate) fn engine_seckey_tweak_add(key: &[u8; 32], tweak: &[u8; 32]) -> (r: Option<[u8; 32]>)
    ensures
        match r {
            Some(s) => scalar_sum(key@, tweak@) == Some(be_value(s@)),
            None => scalar_sum(key@, tweak@) is None,
        },
{
    let Ok(k) = secp256k1::SecretKey::from_slice(key) else { return None; };
    let Ok(t) = secp256k1::Scalar::from_be_bytes(*tweak) else { return None; };
    match k.add_tweak(&t) {
        Ok(sum) => Some(sum.secret_bytes()),
        Err(_) => None,
    }
}

/// Parses a compact signature: `ecdsa::Signature::from_compact`, and
/// `serialize_compact` to hand it back as bytes. Claims that there is a
/// result exactly where R and S are both below the curve order, and that it
/// is the input again.
#[verifier::external_body]
pub(crate) fn engine_signature_parse(input: &[u8; 64]) -> (r: Option<[u8; 64]>)
    ensures
        r is Some <==> is_compact_signature(input@),
        r matches Some(s) ==> s@ == input@,
{
    match secp256k1::ecdsa::Signature::from_compact(input) {
        Ok(signature) => Some(signature.serialize_compact()),
        Err(_) => None,
    }
}

/// Brings a compact signature into lower-S form:
/// `ecdsa::Signature::normalize_s`, between `from_compact` and
/// `serialize_compact`. Claims that there is a result exactly where the input
/// parses, that R is kept, and that S is kept where it is at most half the
/// curve order and replaced by the order less S otherwise.
#[verifier::external_body]
pub(crate) fn engine_signature_normalize(signature: &[u8; 64]) -> (r: Option<[u8; 64]>)
    ensures
        r is Some <==> is_compact_signature(signature@),
        r matches Some(n) ==> signature_r(n@) == signature_r(signature@),
        r matches Some(n) ==> signature_s(n@) == lower_s(signature_s(signature@)),
{
    let Ok(mut parsed) = secp256k1::ecdsa::Signature::from_compact(signature) else { return None; };
    parsed.normalize_s();
    Some(parsed.serialize_compact())
}

/// Signs a hash with the nonce of RFC 6979: `Secp256k1::sign_ecdsa`, with
/// `SecretKey::from_slice` and `Message::from_digest` before it and
/// `serialize_compact` after. Claims that there is a result exactly for a
/// private key, that it is `ecdsa_signature` of hash and key, whatever seed
/// blinded the context, and that it is a compact signature in lower-S form:
/// R and S below the curve order, S at least 1 and at most half the order.
#[verifier::external_body]
pub(crate) fn engine_ecdsa_sign(
    handle: &Handle,
    hash: &[u8; 32],
    key: &[u8; 32],
) -> (r: Option<[u8; 64]>)
    ensures
        r is Some <==> is_secret_key(key@),
        r matches Some(s) ==> s@ == ecdsa_signature(hash@, key@),
        r matches Some(s) ==> is_compact_signature(s@),
        r matches Some(s) ==> 1 <= signature_s(s@) <= half_order(),
{
    let Ok(k) = secp256k1::SecretKey::from_slice(key) else { return None; };
    let message = secp256k1::Message::from_digest(*hash);
    Some(handle.inner.sign_ecdsa(&message, &k).serialize_compact())
}

/// Signs a hash with extra entropy in the nonce:
/// `Secp256k1::sign_ecdsa_with_noncedata`, with `SecretKey::from_slice` and
/// `Message::from_digest` before it and `serialize_compact` after. Claims
/// that there is a result exactly for a private key, that it is
/// `ecdsa_signature_with_entropy` of hash, key and entropy, and that it is a
/// compact signature in lower-S form: R and S below the curve order, S at
/// least 1 and at most half the order.
#[verifier::external_body]
pub(crate) fn engine_ecdsa_sign_with_entropy(
    handle: &Handle,
    hash: &[u8; 32],
    key: &[u8; 32],
    extra: &[u8; 32],
) -> (r: Option<[u8; 64]>)
    ensures
        r is Some <==> is_secret_key(key@),
        r matches Some(s) ==> s@ == ecdsa_signature_with_entropy(hash@, key@, extra@),
        r matches Some(s) ==> is_compact_signature(s@),
        r matches Some(s) ==> 1 <= signature_s(s@) <= half_order(),
{
    let Ok(k) = secp256k1::SecretKey::from_slice(key) else { return None; };
    let message = secp256k1::Message::from_digest(*hash);
    Some(handle.inner.sign_ecdsa_with_noncedata(&message, &k, extra).serialize_compact())
}

/// Verifies a signature: `Secp256k1::verify_ecdsa`, with
/// `ecdsa::Signature::from_compact`, `Message::from_digest` and
/// `PublicKey::from_slice` before it. Claims that the result is
/// `ecdsa_accepts` of the operands, and that a signature is accepted only in
/// lower-S form: with S at least 1 and at most half the curve order.
#[verifier::external_body]
pub(crate) fn engine_ecdsa_verify(
    handle: &Handle,
    signature: &[u8; 64],
    hash: &[u8; 32],
    point: &[u8; 65],
) -> (r: bool)
    ensures
        r == ecdsa_accepts(signature@, hash@, point@),
        r ==> 1 <= signature_s(signature@) <= half_order(),
{
    let Ok(s) = secp256k1::ecdsa::Signature::from_compact(signature) else { return false; };
    let Ok(p) = secp256k1::PublicKey::from_slice(point) else { return false; };
    let message = secp256k1::Message::from_digest(*hash);
    handle.inner.verify_ecdsa(&message, &s, &p).is_ok()
}

} // verus!
