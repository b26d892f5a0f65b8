use vstd::prelude::*;

use crate::bytes_util::push_bytes;
use vstd::bytes::{
    lemma_auto_spec_u64_to_from_le_bytes, spec_u64_from_le_bytes, spec_u64_to_le_bytes,
    u64_from_le_bytes, u64_to_le_bytes,
};
use vstd::slice::{slice_subrange, slice_to_vec};

verus! {

/// A recovered (or to-be-encrypted) file: its raw bytes and its base
/// filename, the latter kept as the platform handed it over, as plain bytes.
#[derive(Debug, PartialEq, Eq)]
pub struct PlainData {
    pub data: Vec<u8>,
    pub file_name: Vec<u8>,
}

/// A byte string prefixed with its own length as eight little-endian bytes.
pub open spec fn length_prefixed(s: Seq<u8>) -> Seq<u8> {
    spec_u64_to_le_bytes(s.len() as u64) + s
}

/// The serialized form of a record: length-prefixed payload bytes, then the
/// length-prefixed filename bytes.
pub open spec fn record_bytes(payload: Seq<u8>, name: Seq<u8>) -> Seq<u8> {
    length_prefixed(payload) + length_prefixed(name)
}

/// The structural parse of a serialized record: `Some((payload, name))`
/// exactly when `bytes` is `record_bytes(payload, name)` with nothing
/// following, `None` otherwise.
pub open spec fn parse_record(bytes: Seq<u8>) -> Option<(Seq<u8>, Seq<u8>)> {
    if bytes.len() < 8 {
        None
    } else {
        let plen = spec_u64_from_le_bytes(bytes.subrange(0, 8)) as int;
        if bytes.len() < 16 + plen {
            None
        } else {
            let payload = bytes.subrange(8, 8 + plen);
            let nlen = spec_u64_from_le_bytes(bytes.subrange(8 + plen, 16 + plen)) as int;
            if bytes.len() != 16 + plen + nlen {
                None
            } else {
                let name = bytes.subrange(16 + plen, 16 + plen + nlen);
                Some((payload, name))
            }
        }
    }
}

/// Serializes a record.
pub fn encode_record(rec: &PlainData) -> (r: Vec<u8>)
    requires
        rec.data@.len() + rec.file_name@.len() + 16 <= usize::MAX,
    ensures
        r@ == record_bytes(rec.data@, rec.file_name@),
        r@.len() == rec.data@.len() + rec.file_name@.len() + 16,
{
    let mut out: Vec<u8> = Vec::new();
    let plen = u64_to_le_bytes(rec.data.len() as u64);
    push_bytes(&mut out, plen.as_slice());
    push_bytes(&mut out, rec.data.as_slice());
    let nlen = u64_to_le_bytes(rec.file_name.len() as u64);
    push_bytes(&mut out, nlen.as_slice());
    push_bytes(&mut out, rec.file_name.as_slice());
    proof {
        assert(out@ =~= record_bytes(rec.data@, rec.file_name@));
    }
    out
}

/// Parses a serialized record, returning `None` exactly when the bytes do not
/// have the structural shape that `encode_record` produces.
pub fn decode_record(bytes: &[u8]) -> (r: Option<PlainData>)
    ensures
        match r {
            Some(rec) => parse_record(bytes@) == Some((rec.data@, rec.file_name@)),
            None => parse_record(bytes@) is None,
        },
{
    proof {
        lemma_auto_spec_u64_to_from_le_bytes();
    }
    if bytes.len() < 8 {
        return None;
    }
    let plen_u64 = u64_from_le_bytes(slice_subrange(bytes, 0, 8));
    if plen_u64 > (bytes.len() as u64) || bytes.len() < 16 || bytes.len() - 16 < (plen_u64 as usize)
    {
        return None;
    }
    let plen = plen_u64 as usize;
    let payload = slice_to_vec(slice_subrange(bytes, 8, 8 + plen));
    let nlen_u64 = u64_from_le_bytes(slice_subrange(bytes, 8 + plen, 16 + plen));
    if (nlen_u64 > bytes.len() as u64) || (bytes.len() - 16 - plen) != (nlen_u64 as usize) {
        return None;
    }
    let nlen = nlen_u64 as usize;
    let name = slice_to_vec(slice_subrange(bytes, 16 + plen, 16 + plen + nlen));
    Some(PlainData { data: payload, file_name: name })
}

/// Law: serialization round trip. Parsing the serialized form of any payload
/// and filename recovers exactly that payload and filename.
pub proof fn lemma_record_round_trip(payload: Seq<u8>, name: Seq<u8>)
    requires
        payload.len() + name.len() + 16 <= u64::MAX,
    ensures
        parse_record(record_bytes(payload, name)) == Some((payload, name)),
{
    lemma_auto_spec_u64_to_from_le_bytes();
    let bytes = record_bytes(payload, name);
    let plen = payload.len() as int;
    let nlen = name.len() as int;
    assert(bytes.subrange(0, 8) =~= spec_u64_to_le_bytes(payload.len() as u64));
    assert(spec_u64_from_le_bytes(bytes.subrange(0, 8)) == payload.len() as u64);
    assert(bytes.subrange(8, 8 + plen) =~= payload);
    assert(bytes.subrange(8 + plen, 16 + plen) =~= spec_u64_to_le_bytes(name.len() as u64));
    assert(spec_u64_from_le_bytes(bytes.subrange(8 + plen, 16 + plen)) == name.len() as u64);
    assert(bytes.subrange(16 + plen, 16 + plen + nlen) =~= name);
}

} // verus!
