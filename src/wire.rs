//! The `CallResult` envelope that host bindings hand back to a guest, and the
//! little-endian integer layouts it is built from.

use vstd::prelude::*;
use vstd::utf8::{decode_utf8, encode_utf8, valid_utf8};
use serde_bytes::ByteBuf;

verus! {

/// Either the bytes a host call produced, or a message saying why it failed.
pub type CallResult = Result<Vec<u8>, String>;

/// What a `CallResult` means: bytes or a message.
pub open spec fn call_result_view(r: CallResult) -> Result<Seq<u8>, Seq<char>> {
    match r {
        Ok(b) => Ok(b@),
        Err(m) => Err(m@),
    }
}

/// The four bytes of `v`, least significant first.
pub open spec fn le_bytes_u32(v: u32) -> Seq<u8> {
    seq![v as u8, (v >> 8u32) as u8, (v >> 16u32) as u8, (v >> 24u32) as u8]
}

/// The eight bytes of `v`, least significant first.
pub open spec fn le_bytes_u64(v: u64) -> Seq<u8> {
    seq![
        v as u8, (v >> 8u64) as u8, (v >> 16u64) as u8, (v >> 24u64) as u8,
        (v >> 32u64) as u8, (v >> 40u64) as u8, (v >> 48u64) as u8, (v >> 56u64) as u8,
    ]
}

/// The 32-bit value whose little-endian bytes are the first four of `b`.
pub open spec fn u32_of_le(b: Seq<u8>) -> u32 {
    (b[0] as u32) | ((b[1] as u32) << 8u32) | ((b[2] as u32) << 16u32) | ((b[3] as u32) << 24u32)
}

/// The 64-bit value whose little-endian bytes are the first eight of `b`.
pub open spec fn u64_of_le(b: Seq<u8>) -> u64 {
    (b[0] as u64) | ((b[1] as u64) << 8u64) | ((b[2] as u64) << 16u64) | ((b[3] as u64) << 24u64)
        | ((b[4] as u64) << 32u64) | ((b[5] as u64) << 40u64) | ((b[6] as u64) << 48u64)
        | ((b[7] as u64) << 56u64)
}

/// A byte string on the wire: its length as eight little-endian bytes, then the bytes.
pub open spec fn framed(b: Seq<u8>) -> Seq<u8> {
    le_bytes_u64(b.len() as u64) + b
}

/// A string on the wire: the framed UTF-8 encoding of its characters.
pub open spec fn string_wire(s: Seq<char>) -> Seq<u8> {
    framed(encode_utf8(s))
}

/// The envelope on the wire: variant index 0 (`Ok`) or 1 (`Err`) as four
/// little-endian bytes, then the framed payload.
pub open spec fn call_result_wire(r: Result<Seq<u8>, Seq<char>>) -> Seq<u8> {
    match r {
        Ok(b) => le_bytes_u32(0) + framed(b),
        Err(m) => le_bytes_u32(1) + string_wire(m),
    }
}

/// What a guest reads back from `bytes`: `None` where they hold no envelope.
/// Bytes after the payload are ignored.
pub open spec fn call_result_of_wire(bytes: Seq<u8>) -> Option<Result<Seq<u8>, Seq<char>>> {
    if bytes.len() < 12 {
        None
    } else {
        let tag = u32_of_le(bytes.subrange(0, 4));
        let n = u64_of_le(bytes.subrange(4, 12));
        if n > bytes.len() - 12 {
            None
        } else {
            let payload = bytes.subrange(12, 12 + n);
            if tag == 0 {
                Some(Ok(payload))
            } else if tag == 1 && valid_utf8(payload) {
                Some(Err(decode_utf8(payload)))
            } else {
                None
            }
        }
    }
}

/// Relies on `bincode::serialize` (default fixed-width little-endian layout) for
/// `Result<ByteBuf, String>`: the variant index as a `u32`, then the length as a
/// `u64`, then the bytes. Writing into a `Vec` with no size limit cannot fail.
#[verifier::external_body]
fn serialize_envelope(r: CallResult) -> (out: Vec<u8>)
    ensures
        out@ == call_result_wire(call_result_view(r)),
{
    bincode::serialize(&r.map(ByteBuf::from)).unwrap()
}

/// Relies on `bincode::serialize` for a `String`: the length as a `u64`, then
/// the UTF-8 bytes. Writing into a `Vec` with no size limit cannot fail.
#[verifier::external_body]
fn serialize_string(s: &String) -> (out: Vec<u8>)
    ensures
        out@ == string_wire(s@),
{
    bincode::serialize(s).unwrap()
}

/// Relies on `bincode::deserialize` for `Result<ByteBuf, String>`: it reads the
/// variant index, the length and that many bytes, checks UTF-8 for `Err`, and
/// accepts trailing bytes.
#[verifier::external_body]
fn deserialize_envelope(bytes: &[u8]) -> (out: Option<CallResult>)
    ensures
        match out {
            Some(r) => call_result_of_wire(bytes@) == Some(call_result_view(r)),
            None => call_result_of_wire(bytes@) is None,
        },
{
    bincode::deserialize::<Result<ByteBuf, String>>(bytes).ok().map(|r| r.map(ByteBuf::into_vec))
}

/// The envelope's bytes, as a guest receives them.
pub fn encode_call_result(r: CallResult) -> (out: Vec<u8>)
    ensures
        out@ == call_result_wire(call_result_view(r)),
{
    serialize_envelope(r)
}

/// The envelope held at the start of `bytes`, if any.
pub fn decode_call_result(bytes: &[u8]) -> (out: Option<CallResult>)
    ensures
        match out {
            Some(r) => call_result_of_wire(bytes@) == Some(call_result_view(r)),
            None => call_result_of_wire(bytes@) is None,
        },
{
    deserialize_envelope(bytes)
}

/// A string's bytes on the wire, as the payload of a configuration value.
pub fn encode_string(s: &String) -> (out: Vec<u8>)
    ensures
        out@ == string_wire(s@),
{
    serialize_string(s)
}

proof fn lemma_u32_le_round_trip(v: u32)
    ensures
        u32_of_le(le_bytes_u32(v)) == v,
{
    let b = le_bytes_u32(v);
    let (b0, b1, b2, b3) = (b[0], b[1], b[2], b[3]);
    assert(b0 == v as u8 && b1 == (v >> 8u32) as u8 && b2 == (v >> 16u32) as u8 && b3 == (v
        >> 24u32) as u8);
    assert(((b0 as u32) | ((b1 as u32) << 8u32) | ((b2 as u32) << 16u32) | ((b3 as u32)
        << 24u32)) == v) by (bit_vector)
        requires
            b0 == v as u8,
            b1 == (v >> 8u32) as u8,
            b2 == (v >> 16u32) as u8,
            b3 == (v >> 24u32) as u8,
    ;
}

proof fn lemma_u64_le_round_trip(v: u64)
    ensures
        u64_of_le(le_bytes_u64(v)) == v,
{
    let b = le_bytes_u64(v);
    let (b0, b1, b2, b3, b4, b5, b6, b7) = (b[0], b[1], b[2], b[3], b[4], b[5], b[6], b[7]);
    assert(b0 == v as u8 && b1 == (v >> 8u64) as u8 && b2 == (v >> 16u64) as u8 && b3 == (v
        >> 24u64) as u8 && b4 == (v >> 32u64) as u8 && b5 == (v >> 40u64) as u8 && b6 == (v
        >> 48u64) as u8 && b7 == (v >> 56u64) as u8);
    assert(((b0 as u64) | ((b1 as u64) << 8u64) | ((b2 as u64) << 16u64) | ((b3 as u64)
        << 24u64) | ((b4 as u64) << 32u64) | ((b5 as u64) << 40u64) | ((b6 as u64) << 48u64)
        | ((b7 as u64) << 56u64)) == v) by (bit_vector)
        requires
            b0 == v as u8,
            b1 == (v >> 8u64) as u8,
            b2 == (v >> 16u64) as u8,
            b3 == (v >> 24u64) as u8,
            b4 == (v >> 32u64) as u8,
            b5 == (v >> 40u64) as u8,
            b6 == (v >> 48u64) as u8,
            b7 == (v >> 56u64) as u8,
    ;
}

/// Reading back an encoded envelope gives the envelope that was written: the
/// same bytes for `Ok`, the same characters for `Err`.
pub proof fn lemma_call_result_round_trip(r: Result<Seq<u8>, Seq<char>>)
    requires
        match r {
            Ok(b) => b.len() <= u64::MAX,
            Err(m) => encode_utf8(m).len() <= u64::MAX,
        },
    ensures
        call_result_of_wire(call_result_wire(r)) == Some(r),
{
    let w = call_result_wire(r);
    let payload = match r {
        Ok(b) => b,
        Err(m) => encode_utf8(m),
    };
    let tag: u32 = if r is Ok { 0 } else { 1 };
    assert(w =~= le_bytes_u32(tag) + le_bytes_u64(payload.len() as u64) + payload);
    assert(w.subrange(0, 4) =~= le_bytes_u32(tag));
    assert(w.subrange(4, 12) =~= le_bytes_u64(payload.len() as u64));
    lemma_u32_le_round_trip(tag);
    lemma_u64_le_round_trip(payload.len() as u64);
    assert(w.subrange(12, 12 + payload.len() as int) =~= payload);
    if let Err(m) = r {
        vstd::utf8::encode_utf8_valid_utf8(m);
        vstd::utf8::encode_utf8_decode_utf8(m);
    }
}

} // verus!
