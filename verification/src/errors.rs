use vstd::prelude::*;

verus! {

/// The errors a decryption or encryption call can surface.
///
/// `Authentication` deliberately conflates a wrong password with a tampered
/// container: both manifest as a key or data mismatch and are
/// indistinguishable by design.
#[derive(Clone, Copy, Debug, PartialEq, Eq, Structural)]
pub enum CryptoError {
    /// The container bytes are truncated or do not match the structural shape.
    CorruptContainer,
    /// The integrity tag does not match the container body under the derived key.
    Authentication,
    /// The decrypted final block does not carry consistent padding.
    Padding,
    /// The key-derivation function rejected its inputs.
    KeyDerivation,
}

impl CryptoError {
    /// A human-readable description, for callers that report the failure.
    pub fn message(&self) -> &'static str {
        match self {
            CryptoError::CorruptContainer => "the container is corrupted",
            CryptoError::Authentication => "wrong password, or the container is corrupted",
            CryptoError::Padding => "the decrypted data carries invalid padding",
            CryptoError::KeyDerivation => "the key-derivation parameters were rejected",
        }
    }
}

} // verus!
