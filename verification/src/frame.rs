//! Merging the local catalog into Cursor's upstream catalog answer: the
//! upstream body is either a plain protobuf message or a single Connect
//! unary frame (one flag byte, a big-endian 32-bit length, the message).

use vstd::prelude::*;
use vstd::string::StringExecFns;
use crate::text::{decimal, decimal_text, owned};
use crate::bindings::{
    buffer_contents, buffer_extend_from_slice, buffer_freeze, buffer_put_u32, buffer_put_u8,
    buffer_with_capacity, bytes_as_slice, bytes_contents,
};

verus! {

/// Why an upstream catalog answer cannot be merged.
#[derive(Clone, Copy, Debug, PartialEq, Eq)]
pub enum CatalogError {
    /// The answer is a single frame whose flags mark it compressed or
    /// terminal; the flag byte is kept.
    CompressedFrame(u8),
}

/// The text of a merge error.
pub open spec fn catalog_error_text(e: CatalogError) -> Seq<char> {
    match e {
        CatalogError::CompressedFrame(flags) => "cannot merge compressed or terminal model catalog frame: flags="@
            + decimal_text(flags as nat),
    }
}

impl CatalogError {
    /// The error message.
    pub fn message(&self) -> (r: String)
        ensures
            r@ == catalog_error_text(*self),
    {
        match self {
            CatalogError::CompressedFrame(flags) => {
                let mut m = owned("cannot merge compressed or terminal model catalog frame: flags=");
                let d = decimal(*flags as u64);
                m.append(d.as_str());
                m
            },
        }
    }
}

/// Whether an HTTP status code reports success (200 through 299), as
/// `StatusCode::is_success` decides it.
pub open spec fn is_success_status(status: u16) -> bool {
    200 <= status <= 299
}

/// Whether an HTTP status code reports success.
pub fn is_success(status: u16) -> (r: bool)
    ensures
        r == is_success_status(status),
{
    200 <= status && status <= 299
}

/// The number that four bytes spell in big-endian order.
pub open spec fn be_u32_value(b: Seq<u8>) -> nat {
    b[0] as nat * 16777216 + b[1] as nat * 65536 + b[2] as nat * 256 + b[3] as nat
}

/// The four big-endian bytes of `n` modulo 2^32, as `u32::to_be_bytes`
/// writes `n as u32`.
pub open spec fn be_u32_bytes(n: nat) -> Seq<u8> {
    let m = n % 4294967296;
    seq![(m / 16777216) as u8, (m / 65536 % 256) as u8, (m / 256 % 256) as u8, (m % 256) as u8]
}

/// How an upstream body is read: `Err(flags)` for a compressed or terminal
/// frame; `Ok((true, message))` for an uncompressed single frame whose
/// length field matches; `Ok((false, body))` for anything else, which is
/// taken as a bare message.
pub open spec fn unary_payload_text(body: Seq<u8>) -> Result<(bool, Seq<u8>), u8> {
    if body.len() < 5 {
        Ok((false, body))
    } else if be_u32_value(body.subrange(1, 5)) != body.len() - 5 {
        Ok((false, body))
    } else if body[0] != 0 {
        Err(body[0])
    } else {
        Ok((true, body.skip(5)))
    }
}

fn unary_payload_slice(body: &[u8]) -> (r: Result<(bool, &[u8]), CatalogError>)
    ensures
        match unary_payload_text(body@) {
            Ok((framed, payload)) => r matches Ok((f, p)) && f == framed && p@ == payload,
            Err(flags) => r == Err::<(bool, &[u8]), CatalogError>(CatalogError::CompressedFrame(flags)),
        },
{
    if body.len() < 5 {
        return Ok((false, body));
    }
    let flags = body[0];
    let length: u64 = (body[1] as u64) * 16777216 + (body[2] as u64) * 65536 + (body[3] as u64)
        * 256 + (body[4] as u64);
    assert(body@.subrange(1, 5)[0] == body@[1]);
    assert(body@.subrange(1, 5)[1] == body@[2]);
    assert(body@.subrange(1, 5)[2] == body@[3]);
    assert(body@.subrange(1, 5)[3] == body@[4]);
    if length != (body.len() - 5) as u64 {
        return Ok((false, body));
    }
    if flags != 0 {
        return Err(CatalogError::CompressedFrame(flags));
    }
    let (_, payload) = body.split_at(5);
    assert(payload@ =~= body@.skip(5));
    Ok((true, payload))
}

/// Reads an upstream catalog body as a unary frame or a bare message.
pub fn unary_payload(body: &bytes::Bytes) -> (r: Result<(bool, &[u8]), CatalogError>)
    ensures
        match unary_payload_text(bytes_contents(*body)) {
            Ok((framed, payload)) => r matches Ok((f, p)) && f == framed && p@ == payload,
            Err(flags) => r == Err::<(bool, &[u8]), CatalogError>(CatalogError::CompressedFrame(flags)),
        },
{
    unary_payload_slice(bytes_as_slice(body))
}

/// What to answer Cursor with.
#[derive(Debug)]
pub enum CatalogMerge {
    /// Upstream refused the request: answer with the local catalog alone.
    UseLocal,
    /// Answer with upstream's status and headers and this body.
    Merged(bytes::Bytes),
}

/// The answer built from an upstream status and body and the local
/// catalog message `extra`.
pub open spec fn merge_text(status: u16, body: Seq<u8>, extra: Seq<u8>) -> Result<
    Option<Seq<u8>>,
    u8,
> {
    if !is_success_status(status) {
        Ok(None)
    } else {
        match unary_payload_text(body) {
            Err(flags) => Err(flags),
            Ok((true, payload)) => Ok(
                Some(seq![0u8] + be_u32_bytes(payload.len() + extra.len()) + payload + extra),
            ),
            Ok((false, payload)) => Ok(Some(payload + extra)),
        }
    }
}

/// Merges the local catalog message `extra` into an upstream answer.
pub fn merge_catalog_body(status: u16, body: &bytes::Bytes, extra: &[u8]) -> (r: Result<CatalogMerge, CatalogError>)
    requires
        bytes_contents(*body).len() + extra@.len() + 5 <= isize::MAX,
    ensures
        match merge_text(status, bytes_contents(*body), extra@) {
            Ok(None) => r matches Ok(CatalogMerge::UseLocal),
            Ok(Some(merged)) => r matches Ok(CatalogMerge::Merged(m)) && bytes_contents(m) == merged,
            Err(flags) => r matches Err(CatalogError::CompressedFrame(f)) && f == flags,
        },
{
    if !is_success(status) {
        return Ok(CatalogMerge::UseLocal);
    }
    let (framed, payload) = match unary_payload(body) {
        Ok(p) => p,
        Err(e) => return Err(e),
    };
    let total = payload.len() + extra.len();
    let merged = if framed {
        let mut merged = buffer_with_capacity(5 + total);
        buffer_put_u8(&mut merged, 0);
        let length: u32 = (total as u64 % 4294967296) as u32;
        buffer_put_u32(&mut merged, length);
        assert(be_u32_bytes(length as nat) =~= be_u32_bytes(total as nat));
        buffer_extend_from_slice(&mut merged, payload);
        buffer_extend_from_slice(&mut merged, extra);
        assert(buffer_contents(merged) =~= seq![0u8] + be_u32_bytes(total as nat) + payload@ + extra@);
        buffer_freeze(merged)
    } else {
        let mut merged = buffer_with_capacity(total);
        buffer_extend_from_slice(&mut merged, payload);
        buffer_extend_from_slice(&mut merged, extra);
        buffer_freeze(merged)
    };
    Ok(CatalogMerge::Merged(merged))
}

proof fn lemma_be_u32_roundtrip(n: nat)
    requires
        n < 4294967296,
    ensures
        be_u32_value(be_u32_bytes(n)) == n,
{
    let b = be_u32_bytes(n);
    assert(n % 4294967296 == n);
    assert(b[0] as nat == n / 16777216);
    assert(b[1] as nat == n / 65536 % 256);
    assert(b[2] as nat == n / 256 % 256);
    assert(b[3] as nat == n % 256);
    assert((n / 16777216) * 16777216 + (n / 65536 % 256) * 65536 + (n / 256 % 256) * 256 + n % 256
        == n) by (nonlinear_arith)
        requires
            n < 4294967296,
    ;
}

/// Merging into an uncompressed single-frame answer gives a well-formed
/// single frame again, whose message is upstream's message followed by the
/// local one, as long as that fits the frame's 32-bit length field.
pub proof fn law_merged_frame_reads_back(status: u16, body: Seq<u8>, extra: Seq<u8>)
    requires
        is_success_status(status),
        unary_payload_text(body) matches Ok((framed, _)) && framed,
        body.len() - 5 + extra.len() < 4294967296,
    ensures
        merge_text(status, body, extra) matches Ok(Some(merged)) && unary_payload_text(merged)
            == Ok::<(bool, Seq<u8>), u8>((true, body.skip(5) + extra)),
{
    let payload = body.skip(5);
    let n = payload.len() + extra.len();
    let merged = seq![0u8] + be_u32_bytes(n) + payload + extra;
    lemma_be_u32_roundtrip(n);
    assert(merged.subrange(1, 5) =~= be_u32_bytes(n));
    assert(merged.skip(5) =~= payload + extra);
}

/// Merging into an answer that is not a single frame appends the local
/// message to upstream's body.
pub proof fn law_unframed_answer_is_extended(status: u16, body: Seq<u8>, extra: Seq<u8>)
    requires
        is_success_status(status),
        unary_payload_text(body) matches Ok((framed, _)) && !framed,
    ensures
        merge_text(status, body, extra) == Ok::<Option<Seq<u8>>, u8>(Some(body + extra)),
{
}


/// A body whose length field (bytes 1 to 4, big-endian) does not give the
/// number of bytes after the five-byte header is a bare message, whatever its
/// first byte: it is read whole, unframed, and never refused.
pub proof fn law_length_mismatch_is_a_bare_message(body: Seq<u8>)
    requires
        body.len() >= 5,
        body[1] as nat * 16777216 + body[2] as nat * 65536 + body[3] as nat * 256 + body[4] as nat
            != body.len() - 5,
    ensures
        unary_payload_text(body) == Ok::<(bool, Seq<u8>), u8>((false, body)),
{
    assert(body.subrange(1, 5)[0] == body[1]);
    assert(body.subrange(1, 5)[1] == body[2]);
    assert(body.subrange(1, 5)[2] == body[3]);
    assert(body.subrange(1, 5)[3] == body[4]);
}

/// Only a well-formed single frame with a non-zero flag byte is refused:
/// a refusal carries the first byte, and happens exactly when the body has
/// the five-byte header, its length field matches the rest of the body, and
/// its first byte is not zero.
pub proof fn law_only_flagged_frames_are_refused(body: Seq<u8>)
    ensures
        unary_payload_text(body) is Err <==> (body.len() >= 5 && body[1] as nat * 16777216
            + body[2] as nat * 65536 + body[3] as nat * 256 + body[4] as nat == body.len() - 5
            && body[0] != 0),
        unary_payload_text(body) matches Err(f) ==> f == body[0],
        body.len() < 5 ==> unary_payload_text(body) == Ok::<(bool, Seq<u8>), u8>((false, body)),
{
    if body.len() >= 5 {
        assert(body.subrange(1, 5)[0] == body[1]);
        assert(body.subrange(1, 5)[1] == body[2]);
        assert(body.subrange(1, 5)[2] == body[3]);
        assert(body.subrange(1, 5)[3] == body[4]);
    }
}

} // verus!
