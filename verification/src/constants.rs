//! Sizes of the registers and of the encodings they hold.

use vstd::prelude::*;

verus! {

/// Bytes of a private key.
pub const PRIVATE_KEY_SIZE: usize = 32;

/// Bytes of a compressed public key: a parity tag and the X coordinate.
pub const PUBLIC_KEY_COMPRESSED_SIZE: usize = 33;

/// Bytes of an uncompressed public key: a tag and both coordinates.
pub const PUBLIC_KEY_UNCOMPRESSED_SIZE: usize = 65;

/// Bytes of a scalar tweak.
pub const TWEAK_SIZE: usize = 32;

/// Bytes of a message hash.
pub const HASH_SIZE: usize = 32;

/// Bytes of the extra entropy that signing may mix into its nonce.
pub const EXTRA_DATA_SIZE: usize = 32;

/// Bytes of a compact signature: R then S, 32 bytes each.
pub const SIGNATURE_SIZE: usize = 64;

/// Bytes of the seed that randomizes the context.
pub const SEED_SIZE: usize = 32;

/// Number of 32-bit values drawn from the entropy source for one seed.
pub const ENTROPY_DRAWS: usize = 8;

/// Tag of a compressed encoding whose Y coordinate is even. The tag for an
/// odd Y is one more.
pub const TAG_EVEN: u8 = 2;

} // verus!
