use vstd::prelude::*;

use crate::bytes_util::push_bytes;
use crate::errors::CryptoError;
use vstd::bytes::{
    lemma_auto_spec_u64_to_from_le_bytes, spec_u64_from_le_bytes, spec_u64_to_le_bytes,
    u64_from_le_bytes, u64_to_le_bytes,
};
use vstd::slice::{slice_subrange, slice_to_vec};

verus! {

/// The authenticated part of a container: the ciphertext together with the
/// salt and IV that were used to produce it.
#[derive(Debug, PartialEq, Eq)]
pub struct EncFileBody {
    pub data: Vec<u8>,
    pub salt: Vec<u8>,
    pub iv: Vec<u8>,
}

/// A complete encrypted container: the body and the integrity tag computed
/// over the body's exact serialized bytes.
#[derive(Debug, PartialEq, Eq)]
pub struct EncFile {
    pub body: EncFileBody,
    pub hmac: Vec<u8>,
}

/// The serialized form of a container body: length-prefixed ciphertext,
/// length-prefixed salt, then the IV as sixteen fixed-width bytes.
pub open spec fn body_bytes(ct: Seq<u8>, salt: Seq<u8>, iv: Seq<u8>) -> Seq<u8> {
    spec_u64_to_le_bytes(ct.len() as u64) + ct + spec_u64_to_le_bytes(salt.len() as u64) + salt + iv
}

/// The serialized form of a whole container: the body followed by the tag as
/// sixty-four fixed-width bytes.
pub open spec fn container_bytes(ct: Seq<u8>, salt: Seq<u8>, iv: Seq<u8>, tag: Seq<u8>) -> Seq<
    u8,
> {
    body_bytes(ct, salt, iv) + tag
}

/// The structural parse of container bytes: `Some((ct, salt, iv, tag))`
/// exactly when `bytes` is `container_bytes(ct, salt, iv, tag)` with a
/// sixteen-byte IV, a sixty-four-byte tag and nothing following; `None`
/// otherwise. The check is structural only: it says nothing about whether the
/// tag is cryptographically right.
pub open spec fn parse_container(bytes: Seq<u8>) -> Option<(Seq<u8>, Seq<u8>, Seq<u8>, Seq<u8>)> {
    if bytes.len() < 8 {
        None
    } else {
        let clen = spec_u64_from_le_bytes(bytes.subrange(0, 8)) as int;
        if bytes.len() < 16 + clen {
            None
        } else {
            let ct = bytes.subrange(8, 8 + clen);
            let slen = spec_u64_from_le_bytes(bytes.subrange(8 + clen, 16 + clen)) as int;
            if bytes.len() != 16 + clen + slen + 16 + 64 {
                None
            } else {
                let salt = bytes.subrange(16 + clen, 16 + clen + slen);
                let iv = bytes.subrange(16 + clen + slen, 32 + clen + slen);
                let tag = bytes.subrange(32 + clen + slen, 96 + clen + slen);
                Some((ct, salt, iv, tag))
            }
        }
    }
}

/// Serializes a container body. These are the exact bytes the integrity tag
/// is computed over.
pub fn encode_body(body: &EncFileBody) -> (r: Vec<u8>)
    requires
        body.data@.len() + body.salt@.len() + body.iv@.len() + 16 <= usize::MAX,
    ensures
        r@ == body_bytes(body.data@, body.salt@, body.iv@),
        r@.len() == body.data@.len() + body.salt@.len() + body.iv@.len() + 16,
{
    let mut out: Vec<u8> = Vec::new();
    let clen = u64_to_le_bytes(body.data.len() as u64);
    push_bytes(&mut out, clen.as_slice());
    push_bytes(&mut out, body.data.as_slice());
    let slen = u64_to_le_bytes(body.salt.len() as u64);
    push_bytes(&mut out, slen.as_slice());
    push_bytes(&mut out, body.salt.as_slice());
    push_bytes(&mut out, body.iv.as_slice());
    proof {
        assert(out@ =~= body_bytes(body.data@, body.salt@, body.iv@));
    }
    out
}

/// Serializes a whole container into the bytes that are persisted to disk.
pub fn encode_container(ef: &EncFile) -> (r: Vec<u8>)
    requires
        ef.body.data@.len() + ef.body.salt@.len() + ef.body.iv@.len() + ef.hmac@.len() + 16
            <= usize::MAX,
    ensures
        r@ == container_bytes(ef.body.data@, ef.body.salt@, ef.body.iv@, ef.hmac@),
{
    let mut out = encode_body(&ef.body);
    push_bytes(&mut out, ef.hmac.as_slice());
    out
}

/// Parses persisted container bytes, failing with `CorruptContainer` exactly
/// when they do not have the structural shape that `encode_container`
/// produces.
pub fn decode_container(bytes: &[u8]) -> (r: Result<EncFile, CryptoError>)
    ensures
        match r {
            Ok(ef) => parse_container(bytes@) == Some(
                (ef.body.data@, ef.body.salt@, ef.body.iv@, ef.hmac@),
            ) && ef.body.iv@.len() == 16 && ef.hmac@.len() == 64,
            Err(e) => parse_container(bytes@) is None && e == CryptoError::CorruptContainer,
        },
{
    proof {
        lemma_auto_spec_u64_to_from_le_bytes();
    }
    if bytes.len() < 8 {
        return Err(CryptoError::CorruptContainer);
    }
    let clen_u64 = u64_from_le_bytes(slice_subrange(bytes, 0, 8));
    if clen_u64 > (bytes.len() as u64) || bytes.len() < 16 || bytes.len() - 16 < (clen_u64
        as usize) {
        return Err(CryptoError::CorruptContainer);
    }
    let clen = clen_u64 as usize;
    let ct = slice_to_vec(slice_subrange(bytes, 8, 8 + clen));
    let slen_u64 = u64_from_le_bytes(slice_subrange(bytes, 8 + clen, 16 + clen));
    if slen_u64 > (bytes.len() as u64) || (bytes.len() - 16 - clen < 80) || (bytes.len() - 16 - clen
        - 80) != (slen_u64 as usize) {
        return Err(CryptoError::CorruptContainer);
    }
    let slen = slen_u64 as usize;
    let salt = slice_to_vec(slice_subrange(bytes, 16 + clen, 16 + clen + slen));
    let iv = slice_to_vec(slice_subrange(bytes, 16 + clen + slen, 32 + clen + slen));
    let tag = slice_to_vec(slice_subrange(bytes, 32 + clen + slen, 96 + clen + slen));
    Ok(EncFile { body: EncFileBody { data: ct, salt, iv }, hmac: tag })
}

/// Law: container serialization round trip. Parsing the serialized form of
/// any well-shaped container recovers exactly its fields.
pub proof fn lemma_container_round_trip(ct: Seq<u8>, salt: Seq<u8>, iv: Seq<u8>, tag: Seq<u8>)
    requires
        iv.len() == 16,
        tag.len() == 64,
        ct.len() + salt.len() + 96 <= u64::MAX,
    ensures
        parse_container(container_bytes(ct, salt, iv, tag)) == Some((ct, salt, iv, tag)),
{
    lemma_auto_spec_u64_to_from_le_bytes();
    let bytes = container_bytes(ct, salt, iv, tag);
    let clen = ct.len() as int;
    let slen = salt.len() as int;
    assert(bytes.subrange(0, 8) =~= spec_u64_to_le_bytes(ct.len() as u64));
    assert(spec_u64_from_le_bytes(bytes.subrange(0, 8)) == ct.len() as u64);
    assert(bytes.subrange(8, 8 + clen) =~= ct);
    assert(bytes.subrange(8 + clen, 16 + clen) =~= spec_u64_to_le_bytes(salt.len() as u64));
    assert(spec_u64_from_le_bytes(bytes.subrange(8 + clen, 16 + clen)) == salt.len() as u64);
    assert(bytes.subrange(16 + clen, 16 + clen + slen) =~= salt);
    assert(bytes.subrange(16 + clen + slen, 32 + clen + slen) =~= iv);
    assert(bytes.subrange(32 + clen + slen, 96 + clen + slen) =~= tag);
}

/// Law: any container bytes shorter than the smallest well-shaped container
/// (two length prefixes, an IV and a tag around empty fields) fail the
/// structural parse.
pub proof fn lemma_truncated_rejected(bytes: Seq<u8>)
    requires
        bytes.len() < 96,
    ensures
        parse_container(bytes) is None,
{
    if bytes.len() >= 8 {
        let clen = spec_u64_from_le_bytes(bytes.subrange(0, 8)) as int;
        if bytes.len() >= 16 + clen {
            assert(clen >= 0);
            assert(bytes.len() != 16 + clen + (spec_u64_from_le_bytes(
                bytes.subrange(8 + clen, 16 + clen),
            ) as int) + 16 + 64);
        }
    }
}

} // verus!
