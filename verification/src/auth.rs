use hmac::Mac;
use vstd::prelude::*;

use crate::bytes_util::ct_bytes_eq;

verus! {

/// The 64-byte HMAC-SHA-512 tag of a message under a key. The result depends
/// on the key and message alone.
pub uninterp spec fn hmac_sha512_of(key: Seq<u8>, msg: Seq<u8>) -> Seq<u8>;

/// Relies on `hmac::Hmac::<sha2::Sha512>`: `new_from_slice` accepts a key of
/// any length, and `finalize` yields the 64-byte tag, deterministically from
/// the key and the processed message alone.
#[verifier::external_body]
pub(crate) fn hmac_sha512(key: &[u8], msg: &[u8]) -> (r: Vec<u8>)
    ensures
        r@ == hmac_sha512_of(key@, msg@),
        r@.len() == 64,
{
    let mut mac =
        <hmac::Hmac<sha2::Sha512> as Mac>::new_from_slice(key).expect("any key length is accepted");
    mac.update(msg);
    mac.finalize().into_bytes().to_vec()
}

/// Recomputes the tag of `msg` under `key` and compares it against `tag`
/// without an early exit, so that the comparison's running time does not
/// depend on where a forged tag first differs.
pub fn verify_tag(key: &[u8], msg: &[u8], tag: &[u8]) -> (r: bool)
    ensures
        r == (tag@ == hmac_sha512_of(key@, msg@)),
{
    let expected = hmac_sha512(key, msg);
    ct_bytes_eq(tag, expected.as_slice())
}

} // verus!
