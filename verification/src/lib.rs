//! Elliptic-curve key and signature operations on secp256k1, offered through a
//! bank of fixed-size registers: a caller writes operand bytes into the
//! registers, runs one operation with nothing but small integers as arguments,
//! and reads the result back from the registers.
//!
//! The curve arithmetic itself is done by the `secp256k1` crate, behind the
//! contracts of [`engine`]. What is proved here is the protocol around it:
//! which registers each operation reads and writes, when it succeeds, which
//! error it reports, how the randomized context comes to be, and what follows
//! for operations run one after another.

pub mod callback;
pub mod constants;
pub mod context;
pub mod engine;
pub mod error;
pub mod laws;
pub mod ops;
pub mod point;
pub mod registers;
pub mod scalar;
