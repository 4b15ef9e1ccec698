//! Calls into `url` (through `reqwest`), `base64`, `bytes`, `serde_json` and `std`
//! whose behaviour this crate takes on trust: each item states what the
//! outside function is documented or written to do.

use vstd::prelude::*;
use base64::Engine;
use bytes::BufMut;
use crate::frame::be_u32_bytes;

verus! {

/// The host that `reqwest::Url::parse` finds in `input`: `None` where the
/// text is no URL or the URL has no host, else `Url::host_str`.
pub uninterp spec fn url_host_text(input: Seq<char>) -> Option<Seq<char>>;

/// `reqwest::Url::parse(input).ok().and_then(|u| u.host_str())`.  The
/// result is named, not stated: URL parsing follows the WHATWG URL
/// standard, which is far beyond a few lines.
#[verifier::external_body]
pub(crate) fn url_host(input: &str) -> (r: Option<String>)
    ensures
        match r {
            Some(h) => url_host_text(input@) == Some(h@),
            None => url_host_text(input@) is None,
        },
{
    reqwest::Url::parse(input).ok().and_then(|u| u.host_str().map(String::from))
}

/// What `str::to_lowercase` makes of `s`.
pub uninterp spec fn lowercase_text(s: Seq<char>) -> Seq<char>;

/// `str::to_lowercase`: the Unicode lowercase mapping of each character,
/// which the result is named after rather than stated.
#[verifier::external_body]
pub(crate) fn to_lowercase(s: &str) -> (r: String)
    ensures
        r@ == lowercase_text(s@),
{
    s.to_lowercase()
}


/// The character of the URL-safe base64 alphabet for a 6-bit value.
pub open spec fn base64_url_char(i: nat) -> char {
    if i < 26 {
        ((65 + i) as u32) as char
    } else if i < 52 {
        ((97 + i - 26) as u32) as char
    } else if i < 62 {
        ((48 + i - 52) as u32) as char
    } else if i == 62 {
        '-'
    } else {
        '_'
    }
}

/// The URL-safe base64 encoding of `b` without padding: each group of three
/// bytes becomes four characters, a final group of one or two bytes becomes
/// two or three.
pub open spec fn base64_url_text(b: Seq<u8>) -> Seq<char>
    decreases b.len(),
{
    if b.len() == 0 {
        Seq::<char>::empty()
    } else if b.len() == 1 {
        seq![base64_url_char(b[0] as nat / 4), base64_url_char((b[0] as nat % 4) * 16)]
    } else if b.len() == 2 {
        seq![
            base64_url_char(b[0] as nat / 4),
            base64_url_char((b[0] as nat % 4) * 16 + b[1] as nat / 16),
            base64_url_char((b[1] as nat % 16) * 4),
        ]
    } else {
        seq![
            base64_url_char(b[0] as nat / 4),
            base64_url_char((b[0] as nat % 4) * 16 + b[1] as nat / 16),
            base64_url_char((b[1] as nat % 16) * 4 + b[2] as nat / 64),
            base64_url_char(b[2] as nat % 64),
        ] + base64_url_text(b.skip(3))
    }
}

/// What `URL_SAFE_NO_PAD.decode` gives for `text`: `None` where it refuses
/// the text.
pub uninterp spec fn base64_url_decoded(text: Seq<char>) -> Option<Seq<u8>>;

/// `base64::engine::general_purpose::URL_SAFE_NO_PAD.encode(bytes)`: the
/// unpadded URL-safe encoding, which the same engine decodes back to
/// `bytes`.  The engine panics when the output length overflows `usize`;
/// `requires` keeps far away from that.
#[verifier::external_body]
pub(crate) fn base64_url_encode(bytes: &[u8]) -> (r: String)
    requires
        bytes@.len() <= isize::MAX,
    ensures
        r@ == base64_url_text(bytes@),
        base64_url_decoded(r@) == Some(bytes@),
{
    base64::engine::general_purpose::URL_SAFE_NO_PAD.encode(bytes)
}

/// `base64::engine::general_purpose::URL_SAFE_NO_PAD.decode(text).ok()`.
/// Which texts it accepts is named, not stated.
#[verifier::external_body]
pub(crate) fn base64_url_decode(text: &str) -> (r: Option<Vec<u8>>)
    ensures
        match r {
            Some(b) => base64_url_decoded(text@) == Some(b@),
            None => base64_url_decoded(text@) is None,
        },
{
    base64::engine::general_purpose::URL_SAFE_NO_PAD.decode(text).ok()
}

/// Errors of `serde_json`.
#[verifier::external_type_specification]
#[verifier::external_body]
pub struct ExJsonError(serde_json::Error);

/// A scalar member of a flat JSON object.
#[derive(Clone, Debug)]
pub enum JsonScalar {
    Text(String),
    Unsigned(u64),
}

/// The view of a scalar JSON member.
pub enum JsonScalarText {
    Text(Seq<char>),
    Unsigned(u64),
}

/// The views of the members of a flat JSON object.
pub open spec fn json_members_text(fields: Seq<(String, JsonScalar)>) -> Seq<(Seq<char>, JsonScalarText)> {
    fields.map_values(
        |f: (String, JsonScalar)|
            (
                f.0@,
                match f.1 {
                    JsonScalar::Text(s) => JsonScalarText::Text(s@),
                    JsonScalar::Unsigned(n) => JsonScalarText::Unsigned(n),
                },
            ),
    )
}

/// The string that a member holds, if it holds one.
pub open spec fn member_string(v: JsonScalarText) -> Option<Seq<char>> {
    match v {
        JsonScalarText::Text(s) => Some(s),
        JsonScalarText::Unsigned(_) => None,
    }
}

/// The JSON text that `serde_json::to_vec` writes for an object.
pub uninterp spec fn json_object_bytes(members: Seq<(Seq<char>, JsonScalarText)>) -> Seq<u8>;

/// What `serde_json::from_slice::<Value>(json)` and then
/// `.get(key).and_then(Value::as_str)` give: `None` where the text does not
/// parse, `Some(None)` where there is no string member `key`.
pub uninterp spec fn json_member_text(json: Seq<u8>, key: Seq<char>) -> Option<Option<Seq<char>>>;

/// Whether no two members share a key.
pub open spec fn distinct_keys(members: Seq<(Seq<char>, JsonScalarText)>) -> bool {
    forall|i: int, j: int|
        0 <= i < members.len() && 0 <= j < members.len() && i != j ==> #[trigger] members[i].0
            != #[trigger] members[j].0
}

/// Whether reading `json` back gives each string member of `members` under
/// its key, where no two members share a key.
pub open spec fn reads_back_members(json: Seq<u8>, members: Seq<(Seq<char>, JsonScalarText)>) -> bool {
    distinct_keys(members) ==> forall|i: int|
        0 <= i < members.len() ==> json_member_text(json, #[trigger] members[i].0) == Some(
            member_string(members[i].1),
        )
}

/// `serde_json::to_vec(&Value::Object(..))` of a flat object of string and
/// unsigned members.  Serialising a `Value` never fails (its map keys are
/// strings), the text fits in a `Vec` (at most `isize::MAX` bytes), and
/// reading it back with `serde_json::from_slice` gives each string member
/// back under its key.  The text itself is named.
#[verifier::external_body]
pub(crate) fn json_object_to_vec(fields: &Vec<(String, JsonScalar)>) -> (r: Result<Vec<u8>, serde_json::Error>)
    ensures
        r is Ok,
        r matches Ok(b) ==> b@ == json_object_bytes(json_members_text(fields@)),
        r matches Ok(b) ==> b@.len() <= isize::MAX,
        r matches Ok(b) ==> reads_back_members(b@, json_members_text(fields@)),
{
    let object: serde_json::Map<String, serde_json::Value> = fields
        .iter()
        .map(|(key, value)| (key.clone(), match value {
            JsonScalar::Text(s) => serde_json::Value::from(s.clone()),
            JsonScalar::Unsigned(n) => serde_json::Value::from(*n),
        }))
        .collect();
    serde_json::to_vec(&serde_json::Value::Object(object))
}

/// `serde_json::from_slice::<Value>(json)` and then the string member
/// `key`, if any (`Value::get` and `Value::as_str`).
#[verifier::external_body]
pub(crate) fn json_string_member(json: &[u8], key: &str) -> (r: Option<Option<String>>)
    ensures
        match r {
            None => json_member_text(json@, key@) is None,
            Some(None) => json_member_text(json@, key@) == Some(None::<Seq<char>>),
            Some(Some(s)) => json_member_text(json@, key@) == Some(Some(s@)),
        },
{
    serde_json::from_slice::<serde_json::Value>(json)
        .ok()
        .map(|v| v.get(key).and_then(serde_json::Value::as_str).map(String::from))
}


/// A growable byte buffer of `bytes`.
#[verifier::external_type_specification]
#[verifier::external_body]
pub struct ExBytesMut(bytes::BytesMut);

/// An immutable byte buffer of `bytes`.
#[verifier::external_type_specification]
#[verifier::external_body]
pub struct ExBytes(bytes::Bytes);

/// The bytes that a `BytesMut` holds, in order.
pub uninterp spec fn buffer_contents(b: bytes::BytesMut) -> Seq<u8>;

/// The bytes that a `Bytes` holds, in order.
pub uninterp spec fn bytes_contents(b: bytes::Bytes) -> Seq<u8>;

/// `BytesMut::with_capacity`: an empty buffer.  Allocating more than
/// `isize::MAX` bytes panics, which `requires` rules out.
#[verifier::external_body]
pub(crate) fn buffer_with_capacity(capacity: usize) -> (r: bytes::BytesMut)
    requires
        capacity <= isize::MAX,
    ensures
        buffer_contents(r) == Seq::<u8>::empty(),
{
    bytes::BytesMut::with_capacity(capacity)
}

/// `BufMut::put_u8` on a `BytesMut`: appends one byte.
#[verifier::external_body]
pub(crate) fn buffer_put_u8(b: &mut bytes::BytesMut, v: u8)
    requires
        buffer_contents(*old(b)).len() + 1 <= isize::MAX,
    ensures
        buffer_contents(*final(b)) == buffer_contents(*old(b)).push(v),
{
    b.put_u8(v);
}

/// `BufMut::put_u32` on a `BytesMut`: appends the four bytes of `v` in
/// big-endian order.
#[verifier::external_body]
pub(crate) fn buffer_put_u32(b: &mut bytes::BytesMut, v: u32)
    requires
        buffer_contents(*old(b)).len() + 4 <= isize::MAX,
    ensures
        buffer_contents(*final(b)) == buffer_contents(*old(b)) + be_u32_bytes(v as nat),
{
    b.put_u32(v);
}

/// `BytesMut::extend_from_slice`: appends `s`.  Growing past `isize::MAX`
/// bytes panics, which `requires` rules out.
#[verifier::external_body]
pub(crate) fn buffer_extend_from_slice(b: &mut bytes::BytesMut, s: &[u8])
    requires
        buffer_contents(*old(b)).len() + s@.len() <= isize::MAX,
    ensures
        buffer_contents(*final(b)) == buffer_contents(*old(b)) + s@,
{
    b.extend_from_slice(s);
}

/// `BytesMut::freeze`: the same bytes, immutable.
#[verifier::external_body]
pub(crate) fn buffer_freeze(b: bytes::BytesMut) -> (r: bytes::Bytes)
    ensures
        bytes_contents(r) == buffer_contents(b),
{
    b.freeze()
}

/// The bytes of a `Bytes` as a slice (`Deref`).
#[verifier::external_body]
pub(crate) fn bytes_as_slice(b: &bytes::Bytes) -> (r: &[u8])
    ensures
        r@ == bytes_contents(*b),
{
    b
}

} // verus!
