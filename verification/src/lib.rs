//! Deterministic subkeys from one parent key.
//!
//! A subkey is a function of a secret parent key, a 64-bit index and an
//! eight-byte context tag, so a whole hierarchy of keys can be regenerated on
//! demand from the one secret that is kept. The bytes are computed by
//! libsodium's keyed BLAKE2b construction; the lengths are checked, the
//! buffers are locked and released, and the result is surfaced here.
//!
//! * [`kdf`] holds the derivation: the length check, the call and `derive`.
//! * [`secbuf`] holds the buffer that carries key bytes and its access state.
//! * [`error`] holds the error type.
//! * [`util`] holds the length test and the decimal rendering of a length.

pub mod error;
pub mod kdf;
pub mod secbuf;
pub mod util;
