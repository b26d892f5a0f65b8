use vstd::prelude::*;

verus! {

/// The 32-byte key that Argon2, under its default parameters, derives from a
/// password and a salt. The result depends on the password and salt alone.
pub uninterp spec fn argon2_key_of(password: Seq<u8>, salt: Seq<u8>) -> Seq<u8>;

/// Whether Argon2 accepts a password and salt pair at all: the password may
/// not exceed, and the salt must lie within, the lengths the algorithm fixes.
pub open spec fn argon2_accepts(password: Seq<u8>, salt: Seq<u8>) -> bool {
    &&& password.len() <= 0xFFFFFFFF
    &&& 8 <= salt.len() <= 0xFFFFFFFF
}

/// Relies on `argon2::Argon2::hash_password_into` with default parameters and
/// a 32-byte output: it fills the output deterministically from the password
/// and salt alone, and rejects exactly the passwords longer than 2^32 - 1
/// bytes and the salts shorter than 8 or longer than 2^32 - 1 bytes.
#[verifier::external_body]
pub(crate) fn derive_key(password: &[u8], salt: &[u8]) -> (r: Option<Vec<u8>>)
    ensures
        r is Some <==> argon2_accepts(password@, salt@),
        r matches Some(k) ==> k@ == argon2_key_of(password@, salt@) && k@.len() == 32,
{
    let mut out = vec![0u8; 32];
    match argon2::Argon2::default().hash_password_into(password, salt, &mut out) {
        Ok(()) => Some(out),
        Err(_) => None,
    }
}

} // verus!
