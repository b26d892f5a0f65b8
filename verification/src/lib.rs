//! Password-based file encryption library.
//!
//! Given a payload and a filename plus a password, `crypto::encrypt` produces a
//! self-contained encrypted container; `crypto::decrypt` recovers the payload
//! and filename from the container bytes and the matching password.
//!
//! The pipeline is: derive a key from the password and a fresh random salt
//! (Argon2), encrypt the serialized record with AES-256 in CBC mode under a
//! fresh random IV, authenticate the serialized body with HMAC-SHA-512 under
//! the same derived key, and bind everything together in a deterministic
//! binary container format. Decryption verifies the tag before any decryption
//! is attempted.

pub mod aescbc;
pub mod auth;
pub mod bytes_util;
pub mod codec;
pub mod crypto;
pub mod errors;
pub mod kdf;
pub mod record;
pub mod rng;

pub use codec::{EncFile, EncFileBody};
pub use crypto::{decrypt, encrypt};
pub use errors::CryptoError;
pub use record::PlainData;
