//! The register bank: the fixed-size buffers through which every operand and
//! every result passes.

use crate::constants::{
    EXTRA_DATA_SIZE, HASH_SIZE, PRIVATE_KEY_SIZE, PUBLIC_KEY_UNCOMPRESSED_SIZE, SIGNATURE_SIZE,
    TWEAK_SIZE,
};
use vstd::prelude::*;

verus! {

/// One buffer per role. A caller writes operands here, runs an operation, and
/// reads the result from the same place.
pub struct Registers {
    /// Private key: operand of signing and key derivation, operand and result
    /// of the private tweaks.
    pub private_key: [u8; PRIVATE_KEY_SIZE],
    /// First public key: operand and result of the point operations. Holds a
    /// 33-byte or a 65-byte encoding at its start.
    pub public_key: [u8; PUBLIC_KEY_UNCOMPRESSED_SIZE],
    /// Second public key: the other operand of point addition.
    pub public_key2: [u8; PUBLIC_KEY_UNCOMPRESSED_SIZE],
    /// Scalar tweak. Private subtraction leaves its negation here.
    pub tweak: [u8; TWEAK_SIZE],
    /// Message hash.
    pub hash: [u8; HASH_SIZE],
    /// Extra entropy for signing.
    pub extra_data: [u8; EXTRA_DATA_SIZE],
    /// Compact signature: result of signing, operand of verification.
    pub signature: [u8; SIGNATURE_SIZE],
}

impl Registers {
    /// Whether every register holds zeros only.
    pub open spec fn is_zeroed(&self) -> bool {
        &&& forall|i: int| 0 <= i < 32 ==> #[trigger] self.private_key@[i] == 0
        &&& forall|i: int| 0 <= i < 65 ==> #[trigger] self.public_key@[i] == 0
        &&& forall|i: int| 0 <= i < 65 ==> #[trigger] self.public_key2@[i] == 0
        &&& forall|i: int| 0 <= i < 32 ==> #[trigger] self.tweak@[i] == 0
        &&& forall|i: int| 0 <= i < 32 ==> #[trigger] self.hash@[i] == 0
        &&& forall|i: int| 0 <= i < 32 ==> #[trigger] self.extra_data@[i] == 0
        &&& forall|i: int| 0 <= i < 64 ==> #[trigger] self.signature@[i] == 0
    }

    /// Whether `self` and `other` hold the same in every register but the
    /// first public key.
    pub open spec fn agrees_except_public_key(&self, other: Registers) -> bool {
        &&& self.private_key == other.private_key
        &&& self.public_key2 == other.public_key2
        &&& self.tweak == other.tweak
        &&& self.hash == other.hash
        &&& self.extra_data == other.extra_data
        &&& self.signature == other.signature
    }

    /// Whether `self` and `other` hold the same in every register but the
    /// private key.
    pub open spec fn agrees_except_private_key(&self, other: Registers) -> bool {
        &&& self.public_key == other.public_key
        &&& self.public_key2 == other.public_key2
        &&& self.tweak == other.tweak
        &&& self.hash == other.hash
        &&& self.extra_data == other.extra_data
        &&& self.signature == other.signature
    }

    /// Whether `self` and `other` hold the same in every register but the
    /// private key and the tweak.
    pub open spec fn agrees_except_private_key_and_tweak(&self, other: Registers) -> bool {
        &&& self.public_key == other.public_key
        &&& self.public_key2 == other.public_key2
        &&& self.hash == other.hash
        &&& self.extra_data == other.extra_data
        &&& self.signature == other.signature
    }

    /// Whether `self` and `other` hold the same in every register but the
    /// signature.
    pub open spec fn agrees_except_signature(&self, other: Registers) -> bool {
        &&& self.private_key == other.private_key
        &&& self.public_key == other.public_key
        &&& self.public_key2 == other.public_key2
        &&& self.tweak == other.tweak
        &&& self.hash == other.hash
        &&& self.extra_data == other.extra_data
    }

    /// A bank as it is at start: all zeros.
    pub fn new() -> (regs: Self)
        ensures
            regs.is_zeroed(),
    {
        Registers {
            private_key: [0u8; PRIVATE_KEY_SIZE],
            public_key: [0u8; PUBLIC_KEY_UNCOMPRESSED_SIZE],
            public_key2: [0u8; PUBLIC_KEY_UNCOMPRESSED_SIZE],
            tweak: [0u8; TWEAK_SIZE],
            hash: [0u8; HASH_SIZE],
            extra_data: [0u8; EXTRA_DATA_SIZE],
            signature: [0u8; SIGNATURE_SIZE],
        }
    }
}

} // verus!
