use aes::cipher::{BlockDecryptMut, BlockEncryptMut, KeyIvInit};
use vstd::prelude::*;

verus! {

/// The ciphertext that AES-256 in CBC mode with PKCS#7 padding produces from
/// a 32-byte key, a 16-byte IV and a plaintext. The result depends on the
/// three arguments alone.
pub uninterp spec fn aes256_cbc_enc(key: Seq<u8>, iv: Seq<u8>, plain: Seq<u8>) -> Seq<u8>;

/// What AES-256 CBC decryption with PKCS#7 unpadding recovers from a 32-byte
/// key, a 16-byte IV and a ciphertext: `None` when the ciphertext length is
/// not a positive multiple of the block size or the final decrypted block
/// does not carry consistent padding, `Some(plaintext)` otherwise. The result
/// depends on the three arguments alone.
pub uninterp spec fn aes256_cbc_dec(key: Seq<u8>, iv: Seq<u8>, cipher: Seq<u8>) -> Option<Seq<u8>>;

/// Relies on `cbc::Encryptor::<aes::Aes256>` with
/// `cipher::BlockEncryptMut::encrypt_padded_b2b_mut::<Pkcs7>`: it pads the
/// plaintext to the next 16-byte boundary (always adding at least one byte)
/// and encrypts it deterministically from key, IV and plaintext; and PKCS#7
/// padding is self-describing, so CBC decryption of the result under the same
/// key and IV unpads back to exactly the plaintext.
#[verifier::external_body]
pub(crate) fn encrypt_aes256_cbc(key: &[u8], iv: &[u8], plain: &[u8]) -> (r: Vec<u8>)
    requires
        key@.len() == 32,
        iv@.len() == 16,
        plain@.len() + 16 <= usize::MAX,
    ensures
        r@ == aes256_cbc_enc(key@, iv@, plain@),
        r@.len() == plain@.len() + 16 - (plain@.len() % 16),
        aes256_cbc_dec(key@, iv@, r@) == Some(plain@),
{
    let padded_len = plain.len() + (16 - plain.len() % 16);
    let mut buf = vec![0u8; padded_len];
    let enc = cbc::Encryptor::<aes::Aes256>::new_from_slices(key, iv)
        .expect("key and IV lengths are fixed");
    let n = enc
        .encrypt_padded_b2b_mut::<aes::cipher::block_padding::Pkcs7>(plain, &mut buf)
        .expect("the buffer is sized to the padded length")
        .len();
    buf.truncate(n);
    buf
}

/// Relies on `cbc::Decryptor::<aes::Aes256>` with
/// `cipher::BlockDecryptMut::decrypt_padded_b2b_mut::<Pkcs7>`: it fails
/// exactly when the ciphertext length is not a positive multiple of 16 bytes
/// or the decrypted final block carries malformed padding, and otherwise
/// returns the unpadded plaintext, deterministically from key, IV and
/// ciphertext.
#[verifier::external_body]
pub(crate) fn decrypt_aes256_cbc(key: &[u8], iv: &[u8], cipher: &[u8]) -> (r: Option<Vec<u8>>)
    requires
        key@.len() == 32,
        iv@.len() == 16,
    ensures
        match r {
            Some(p) => aes256_cbc_dec(key@, iv@, cipher@) == Some(p@),
            None => aes256_cbc_dec(key@, iv@, cipher@) is None,
        },
{
    let mut buf = vec![0u8; cipher.len()];
    let dec = cbc::Decryptor::<aes::Aes256>::new_from_slices(key, iv)
        .expect("key and IV lengths are fixed");
    match dec.decrypt_padded_b2b_mut::<aes::cipher::block_padding::Pkcs7>(cipher, &mut buf) {
        Ok(p) => Some(p.to_vec()),
        Err(_) => None,
    }
}

} // verus!
