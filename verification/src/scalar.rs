//! Scalars of secp256k1 as numbers: what 32 big-endian bytes stand for, which
//! of them are valid keys and tweaks, and the sums and negations that the
//! private key operations compute modulo the curve order.

use vstd::prelude::*;

verus! {

/// The number that `bytes` spell, most significant byte first.
pub open spec fn be_value(bytes: Seq<u8>) -> nat
    decreases bytes.len(),
{
    if bytes.len() == 0 {
        0
    } else {
        be_value(bytes.drop_last()) * 256 + bytes.last() as nat
    }
}

/// The `len` bytes that spell `value`, most significant byte first. Where
/// `value` does not fit, its high part is dropped.
pub open spec fn be_bytes(value: nat, len: nat) -> Seq<u8>
    decreases len,
{
    if len == 0 {
        Seq::empty()
    } else {
        be_bytes(value / 256, (len - 1) as nat).push((value % 256) as u8)
    }
}

/// The number of values that `len` bytes can spell: 256 to the power `len`.
pub open spec fn radix(len: nat) -> nat
    decreases len,
{
    if len == 0 {
        1
    } else {
        256 * radix((len - 1) as nat)
    }
}

/// The order of the secp256k1 group.
pub open spec fn curve_order() -> nat {
    0xFFFFFFFFFFFFFFFFFFFFFFFFFFFFFFFEBAAEDCE6AF48A03BBFD25E8CD0364141nat
}

/// The largest S of a signature in lower-S form: half the curve order,
/// rounded down.
pub open spec fn half_order() -> nat {
    0x7FFFFFFFFFFFFFFFFFFFFFFFFFFFFFFF5D576E7357A4501DDFE92F46681B20A0nat
}

/// A tweak, or a component of a signature: 32 bytes that spell a number below
/// the curve order. Zero is one.
pub open spec fn is_scalar(bytes: Seq<u8>) -> bool {
    bytes.len() == 32 && be_value(bytes) < curve_order()
}

/// A private key: a scalar other than zero.
pub open spec fn is_secret_key(bytes: Seq<u8>) -> bool {
    is_scalar(bytes) && be_value(bytes) != 0
}

/// The R of a compact signature: its first 32 bytes.
pub open spec fn signature_r(signature: Seq<u8>) -> Seq<u8> {
    signature.subrange(0, 32)
}

/// The S of a compact signature, as a number: what its last 32 bytes spell.
pub open spec fn signature_s(signature: Seq<u8>) -> nat {
    be_value(signature.subrange(32, 64))
}

/// A compact signature that parses: 64 bytes whose halves are both scalars.
pub open spec fn is_compact_signature(signature: Seq<u8>) -> bool {
    &&& signature.len() == 64
    &&& is_scalar(signature.subrange(0, 32))
    &&& is_scalar(signature.subrange(32, 64))
}

/// The key that adding `tweak` to `key` gives, as a number: their sum modulo
/// the curve order. There is none where `key` is no private key, `tweak` no
/// scalar, or the sum is zero.
pub open spec fn scalar_sum(key: Seq<u8>, tweak: Seq<u8>) -> Option<nat> {
    let sum = (be_value(key) + be_value(tweak)) % curve_order();
    if is_secret_key(key) && is_scalar(tweak) && sum != 0 {
        Some(sum)
    } else {
        None
    }
}

/// The negation of `key` modulo the curve order, as a number. Only a private
/// key has one.
pub open spec fn scalar_negation(key: Seq<u8>) -> Option<nat> {
    if is_secret_key(key) {
        Some((curve_order() - be_value(key)) as nat)
    } else {
        None
    }
}

/// The negation of a tweak modulo the curve order, as a number: zero for
/// zero, the curve order less the tweak for any other scalar. Bytes that are
/// no scalar have none.
pub open spec fn tweak_negation(tweak: Seq<u8>) -> Option<nat> {
    if !is_scalar(tweak) {
        None
    } else if be_value(tweak) == 0 {
        Some(0)
    } else {
        Some((curve_order() - be_value(tweak)) as nat)
    }
}

/// The S of a signature after normalizing: S itself in lower-S form, its
/// negation otherwise.
pub open spec fn lower_s(s: nat) -> nat {
    if s > half_order() {
        (curve_order() - s) as nat
    } else {
        s
    }
}

/// Half the curve order is what its name says.
pub proof fn lemma_half_order()
    ensures
        curve_order() == 2 * half_order() + 1,
{
}

/// Spelling the number of a byte string at the same length gives the string.
pub proof fn lemma_be_bytes_of_value(bytes: Seq<u8>)
    ensures
        be_bytes(be_value(bytes), bytes.len()) == bytes,
    decreases bytes.len(),
{
    if bytes.len() == 0 {
        assert(be_bytes(be_value(bytes), bytes.len()) =~= bytes);
    } else {
        let front = bytes.drop_last();
        let value = be_value(bytes);
        assert(value == be_value(front) * 256 + bytes.last() as nat);
        assert(value / 256 == be_value(front) && value % 256 == bytes.last() as nat)
            by (nonlinear_arith)
            requires
                value == be_value(front) * 256 + bytes.last() as nat,
                bytes.last() < 256,
        ;
        lemma_be_bytes_of_value(front);
        assert(bytes =~= front.push(bytes.last()));
    }
}

/// The bytes that spell a number which fits spell that number.
pub proof fn lemma_be_value_of_bytes(value: nat, len: nat)
    requires
        value < radix(len),
    ensures
        be_value(be_bytes(value, len)) == value,
    decreases len,
{
    if len > 0 {
        let front = be_bytes(value / 256, (len - 1) as nat);
        assert(value / 256 < radix((len - 1) as nat)) by (nonlinear_arith)
            requires
                value < 256 * radix((len - 1) as nat),
        ;
        lemma_be_value_of_bytes(value / 256, (len - 1) as nat);
        assert(be_bytes(value, len).drop_last() =~= front);
        assert(be_bytes(value, len).last() == (value % 256) as u8);
        assert((value / 256) * 256 + value % 256 == value) by (nonlinear_arith);
    }
}

/// Every number below the curve order fits in 32 bytes.
pub proof fn lemma_order_fits()
    ensures
        curve_order() < radix(32),
{
    reveal_with_fuel(radix, 33);
}

/// Two byte strings of one length that spell the same number are the same.
pub proof fn law_be_value_injective(a: Seq<u8>, b: Seq<u8>)
    requires
        a.len() == b.len(),
        be_value(a) == be_value(b),
    ensures
        a == b,
{
    lemma_be_bytes_of_value(a);
    lemma_be_bytes_of_value(b);
}

/// Bytes spell zero exactly where every one of them is zero.
pub proof fn lemma_zero_value(bytes: Seq<u8>)
    ensures
        be_value(bytes) == 0 <==> forall|i: int| 0 <= i < bytes.len() ==> bytes[i] == 0,
    decreases bytes.len(),
{
    if bytes.len() > 0 {
        let front = bytes.drop_last();
        lemma_zero_value(front);
        if be_value(bytes) == 0 {
            assert(be_value(front) == 0 && bytes.last() == 0) by (nonlinear_arith)
                requires
                    be_value(front) * 256 + bytes.last() as nat == 0,
            ;
            assert forall|i: int| 0 <= i < bytes.len() implies bytes[i] == 0 by {
                if i < bytes.len() - 1 {
                    assert(bytes[i] == front[i]);
                }
            }
        }
        if forall|i: int| 0 <= i < bytes.len() ==> bytes[i] == 0 {
            assert forall|i: int| 0 <= i < front.len() implies front[i] == 0 by {
                assert(front[i] == bytes[i]);
            }
            assert(bytes.last() == bytes[bytes.len() - 1]);
        }
    }
}

/// Whether 32 bytes spell zero.
pub fn is_zero(bytes: &[u8; 32]) -> (zero: bool)
    ensures
        zero == (be_value(bytes@) == 0),
{
    let mut i: usize = 0;
    while i < 32
        invariant
            0 <= i <= 32,
            forall|j: int| 0 <= j < i ==> bytes@[j] == 0,
        decreases 32 - i,
    {
        if bytes[i] != 0 {
            proof {
                lemma_zero_value(bytes@);
            }
            return false;
        }
        i += 1;
    }
    proof {
        lemma_zero_value(bytes@);
    }
    true
}

/// Adding a tweak and then its negation gives the first key again.
pub proof fn lemma_sum_then_negated_sum(
    key: Seq<u8>,
    tweak: Seq<u8>,
    sum: Seq<u8>,
    negated: Seq<u8>,
)
    requires
        sum.len() == 32,
        negated.len() == 32,
        scalar_sum(key, tweak) == Some(be_value(sum)),
        tweak_negation(tweak) == Some(be_value(negated)),
    ensures
        scalar_sum(sum, negated) == Some(be_value(key)),
{
    let n = curve_order() as int;
    let k = be_value(key) as int;
    let t = be_value(tweak) as int;
    let s = be_value(sum) as int;
    let m = be_value(negated) as int;
    assert(s == (k + t) % n);
    assert(m == if t == 0 { 0 } else { n - t });
    assert(s == if k + t < n { k + t } else { k + t - n }) by {
        if k + t < n {
            vstd::arithmetic::div_mod::lemma_small_mod((k + t) as nat, n as nat);
        } else {
            vstd::arithmetic::div_mod::lemma_mod_sub_multiples_vanish(k + t, n);
            vstd::arithmetic::div_mod::lemma_small_mod((k + t - n) as nat, n as nat);
        }
    }
    assert((s + m) % n == k) by {
        if t == 0 {
            assert(s + m == k);
            vstd::arithmetic::div_mod::lemma_small_mod(k as nat, n as nat);
        } else if k + t < n {
            assert(s + m == k + n);
            vstd::arithmetic::div_mod::lemma_mod_sub_multiples_vanish(k + n, n);
            vstd::arithmetic::div_mod::lemma_small_mod(k as nat, n as nat);
        } else {
            assert(s + m == k);
            vstd::arithmetic::div_mod::lemma_small_mod(k as nat, n as nat);
        }
    }
}

} // verus!
