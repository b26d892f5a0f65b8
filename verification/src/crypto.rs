use vstd::prelude::*;

use crate::aescbc::{aes256_cbc_dec, aes256_cbc_enc, decrypt_aes256_cbc, encrypt_aes256_cbc};
use crate::auth::{hmac_sha512, hmac_sha512_of, verify_tag};
use crate::codec::{
    body_bytes, container_bytes, decode_container, encode_body, lemma_container_round_trip,
    lemma_truncated_rejected, parse_container, EncFile, EncFileBody,
};
use crate::errors::CryptoError;
use crate::kdf::{argon2_accepts, argon2_key_of, derive_key};
use crate::record::{
    decode_record, encode_record, lemma_record_round_trip, parse_record, record_bytes, PlainData,
};
use crate::rng::random_bytes;

verus! {

/// What decryption returns for given container bytes and password, as a
/// mathematical function of the two: the structural parse is checked first,
/// then the key is derived from the password and the stored salt, then the
/// tag is verified over the exact serialized body — strictly before any
/// decryption — and only then is the ciphertext decrypted and the record
/// deserialized.
pub open spec fn decrypt_spec(bytes: Seq<u8>, password: Seq<u8>) -> Result<
    (Seq<u8>, Seq<u8>),
    CryptoError,
> {
    match parse_container(bytes) {
        None => Err(CryptoError::CorruptContainer),
        Some((ct, salt, iv, tag)) => if !argon2_accepts(password, salt) {
            Err(CryptoError::KeyDerivation)
        } else {
            let key = argon2_key_of(password, salt);
            if tag != hmac_sha512_of(key, body_bytes(ct, salt, iv)) {
                Err(CryptoError::Authentication)
            } else {
                match aes256_cbc_dec(key, iv, ct) {
                    None => Err(CryptoError::Padding),
                    Some(pt) => match parse_record(pt) {
                        None => Err(CryptoError::CorruptContainer),
                        Some((payload, name)) => Ok((payload, name)),
                    },
                }
            }
        },
    }
}

/// A container stands in this relation to a record and a password when its
/// fields are exactly what the encryption pipeline produces for them: a
/// 16-byte salt and IV, the ciphertext of the serialized record under the
/// derived key, and the tag of the serialized body under that same key.
pub open spec fn is_encryption_of(
    ef: EncFile,
    payload: Seq<u8>,
    name: Seq<u8>,
    password: Seq<u8>,
) -> bool {
    let key = argon2_key_of(password, ef.body.salt@);
    &&& ef.body.salt@.len() == 16
    &&& ef.body.iv@.len() == 16
    &&& ef.body.data@ == aes256_cbc_enc(key, ef.body.iv@, record_bytes(payload, name))
    &&& ef.hmac@ == hmac_sha512_of(key, body_bytes(ef.body.data@, ef.body.salt@, ef.body.iv@))
}

/// Encrypts a record under a password: a fresh random 16-byte salt feeds the
/// key derivation, a fresh random 16-byte IV feeds AES-256-CBC over the
/// serialized record, and the serialized body is authenticated with
/// HMAC-SHA-512 under the same derived key.
///
/// The final clause is the round-trip law: decrypting the serialized result
/// with the same password recovers exactly the payload and filename.
/// Key derivation is owed to succeed for every password the algorithm
/// accepts; the salt being internal, only an oversized password is refused.
pub fn encrypt(plain: &PlainData, password: &[u8]) -> (r: Result<EncFile, CryptoError>)
    requires
        plain.data@.len() + plain.file_name@.len() + 200 <= usize::MAX,
    ensures
        match r {
            Ok(ef) => is_encryption_of(ef, plain.data@, plain.file_name@, password@)
                && decrypt_spec(
                container_bytes(ef.body.data@, ef.body.salt@, ef.body.iv@, ef.hmac@),
                password@,
            ) == Ok::<(Seq<u8>, Seq<u8>), CryptoError>((plain.data@, plain.file_name@)),
            Err(e) => e == CryptoError::KeyDerivation && password@.len() > 0xFFFFFFFF,
        },
{
    let rec_bytes = encode_record(plain);
    let salt = random_bytes(16);
    let key = match derive_key(password, salt.as_slice()) {
        Some(k) => k,
        None => {
            return Err(CryptoError::KeyDerivation);
        },
    };
    let iv = random_bytes(16);
    let ct = encrypt_aes256_cbc(key.as_slice(), iv.as_slice(), rec_bytes.as_slice());
    let body = EncFileBody { data: ct, salt, iv };
    let body_ser = encode_body(&body);
    let tag = hmac_sha512(key.as_slice(), body_ser.as_slice());
    let ef = EncFile { body, hmac: tag };
    proof {
        lemma_container_round_trip(ef.body.data@, ef.body.salt@, ef.body.iv@, ef.hmac@);
        lemma_record_round_trip(plain.data@, plain.file_name@);
    }
    Ok(ef)
}

/// Decrypts container bytes under a password, returning exactly what the
/// model `decrypt_spec` says: `CorruptContainer` on a failed structural
/// parse (before any key derivation), `KeyDerivation` on a salt or password
/// the hash rejects, `Authentication` on a tag mismatch (before any
/// decryption; a wrong password and a tampered container are
/// indistinguishable here by design), `Padding` on inconsistent decrypted
/// padding, and the recovered record otherwise. A decrypted record that does
/// not itself parse counts as corruption; with the tag checked first, that
/// case and `Padding` are defensive only.
pub fn decrypt(container: &[u8], password: &[u8]) -> (r: Result<PlainData, CryptoError>)
    ensures
        match r {
            Ok(p) => decrypt_spec(container@, password@) == Ok::<
                (Seq<u8>, Seq<u8>),
                CryptoError,
            >((p.data@, p.file_name@)),
            Err(e) => decrypt_spec(container@, password@) == Err::<
                (Seq<u8>, Seq<u8>),
                CryptoError,
            >(e),
        },
{
    let ef = match decode_container(container) {
        Ok(ef) => ef,
        Err(e) => {
            return Err(e);
        },
    };
    let total_len = container.len();
    proof {
        assert(total_len == 16 + ef.body.data@.len() + ef.body.salt@.len() + 80);
    }
    let key = match derive_key(password, ef.body.salt.as_slice()) {
        Some(k) => k,
        None => {
            return Err(CryptoError::KeyDerivation);
        },
    };
    let body_ser = encode_body(&ef.body);
    if !verify_tag(key.as_slice(), body_ser.as_slice(), ef.hmac.as_slice()) {
        return Err(CryptoError::Authentication);
    }
    let pt = match decrypt_aes256_cbc(
        key.as_slice(),
        ef.body.iv.as_slice(),
        ef.body.data.as_slice(),
    ) {
        Some(p) => p,
        None => {
            return Err(CryptoError::Padding);
        },
    };
    match decode_record(pt.as_slice()) {
        Some(rec) => Ok(rec),
        None => Err(CryptoError::CorruptContainer),
    }
}

/// Law: the authentication gate. Any container whose stored tag is not the
/// HMAC of its exact serialized body under the key derived from the password
/// is rejected with `Authentication` — whether the tag, the body or the
/// password is the part that does not fit — and this happens before any
/// decryption or padding check is reached.
pub proof fn lemma_authentication_gate(
    ct: Seq<u8>,
    salt: Seq<u8>,
    iv: Seq<u8>,
    tag: Seq<u8>,
    password: Seq<u8>,
)
    requires
        iv.len() == 16,
        tag.len() == 64,
        ct.len() + salt.len() + 96 <= u64::MAX,
        argon2_accepts(password, salt),
        tag != hmac_sha512_of(argon2_key_of(password, salt), body_bytes(ct, salt, iv)),
    ensures
        decrypt_spec(container_bytes(ct, salt, iv, tag), password) == Err::<
            (Seq<u8>, Seq<u8>),
            CryptoError,
        >(CryptoError::Authentication),
{
    lemma_container_round_trip(ct, salt, iv, tag);
}

/// Law: structural corruption is decided first. Bytes that fail the
/// structural parse are rejected with `CorruptContainer`, whatever the
/// password — no key derivation and no tag check is ever reached for them.
pub proof fn lemma_structural_corruption(bytes: Seq<u8>, password: Seq<u8>)
    requires
        parse_container(bytes) is None,
    ensures
        decrypt_spec(bytes, password) == Err::<(Seq<u8>, Seq<u8>), CryptoError>(
            CryptoError::CorruptContainer,
        ),
{
}

/// Law: truncation is structural corruption. Container bytes shorter than
/// the smallest well-shaped container are rejected with `CorruptContainer`.
pub proof fn lemma_truncation_rejected(bytes: Seq<u8>, password: Seq<u8>)
    requires
        bytes.len() < 96,
    ensures
        decrypt_spec(bytes, password) == Err::<(Seq<u8>, Seq<u8>), CryptoError>(
            CryptoError::CorruptContainer,
        ),
{
    lemma_truncated_rejected(bytes);
}

} // verus!
