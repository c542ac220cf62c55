//! HTTP header blocks: what a `pingora_http` header holds, the rules by which
//! the `http` crate accepts a field, and the calls that count, set and remove
//! fields.
//!
//! Nothing in this file is proved: each item states what `pingora_http` and
//! `http` do, as their sources show it.

use pingora_http::{RequestHeader, ResponseHeader};
use vstd::prelude::*;
use vstd::utf8::encode_utf8;

verus! {

#[verifier::external_type_specification]
#[verifier::external_body]
pub struct ExRequestHeader(pingora_http::RequestHeader);

#[verifier::external_type_specification]
#[verifier::external_body]
pub struct ExResponseHeader(pingora_http::ResponseHeader);

#[verifier::external_type_specification]
#[verifier::external_body]
pub struct ExTransportError(pingora_error::Error);

/// The fields of a header block: under each name, in lower case, the values
/// that the block holds for it, in order.
pub type Fields = Map<Seq<char>, Seq<Seq<u8>>>;

/// What a request header holds beside its fields: the request line, and
/// whether an empty body ends an HTTP/2 stream together with the header.
pub struct RequestLine {
    /// The method, as written.
    pub method: Seq<char>,
    /// The URI, as written.
    pub uri: Seq<char>,
    /// The path and query as they came, which need not be UTF-8.
    pub raw_path: Seq<u8>,
    /// The protocol version, as written.
    pub version: Seq<char>,
    /// Whether the end of the stream is sent with the header.
    pub ends_stream: bool,
}

/// What a response header holds beside its fields.
pub struct StatusLine {
    /// The status code.
    pub status: nat,
    /// The protocol version, as written.
    pub version: Seq<char>,
    /// The reason phrase, where one was set in place of the usual one.
    pub reason: Option<Seq<char>>,
}

/// The fields of a request header.
pub uninterp spec fn request_fields(header: RequestHeader) -> Fields;

/// The request line of a request header.
pub uninterp spec fn request_line(header: RequestHeader) -> RequestLine;

/// The number of names under which a request header holds values.
pub uninterp spec fn request_names(header: RequestHeader) -> nat;

/// The fields of a response header.
pub uninterp spec fn response_fields(header: ResponseHeader) -> Fields;

/// The status line of a response header.
pub uninterp spec fn status_line(header: ResponseHeader) -> StatusLine;

/// The number of names under which a response header holds values.
pub uninterp spec fn response_names(header: ResponseHeader) -> nat;

/// A header block takes a field only while it holds fewer names than this.
/// The map of the `http` crate under it panics where it has to grow beyond
/// 32768 slots. It grows when it is full, which at that size takes 24576
/// names, or when many names collide and it holds a fifth as many names as
/// slots, which takes 6554. With fewer names no insertion panics.
pub const HEADER_LIMIT: usize = 6554;

/// The lower-case form of an ASCII letter; any other character is itself.
pub open spec fn lower(c: char) -> char {
    if 'A' <= c && c <= 'Z' {
        ((c as u8) + 32) as char
    } else {
        c
    }
}

/// The name under which a field is kept: names differ in case only where
/// they name the same field.
pub open spec fn header_key(name: Seq<char>) -> Seq<char> {
    name.map_values(|c: char| lower(c))
}

/// The characters of which a field name is made (RFC 9110's `tchar`).
pub open spec fn is_name_char(c: char) -> bool {
    ||| 'a' <= c && c <= 'z'
    ||| 'A' <= c && c <= 'Z'
    ||| '0' <= c && c <= '9'
    ||| c == '!' || c == '#' || c == '$' || c == '%' || c == '&' || c == '\'' || c == '*'
    ||| c == '+' || c == '-' || c == '.' || c == '^' || c == '_' || c == '`' || c == '|'
    ||| c == '~'
}

/// The names that `http` accepts: between 1 and 65535 name characters.
pub open spec fn is_header_name(name: Seq<char>) -> bool {
    &&& 1 <= name.len() <= 65535
    &&& forall|i: int| 0 <= i < name.len() ==> is_name_char(#[trigger] name[i])
}

/// The values that `http` accepts: no control byte other than tab.
pub open spec fn is_header_value(value: Seq<u8>) -> bool {
    forall|i: int|
        0 <= i < value.len() ==> {
            let b = #[trigger] value[i];
            (b >= 32 && b != 127) || b == 9
        }
}

/// Text of printable ASCII characters is an acceptable value.
pub proof fn lemma_printable_is_value(text: Seq<char>)
    requires
        forall|i: int| 0 <= i < text.len() ==> ' ' <= #[trigger] text[i] <= '~',
    ensures
        is_header_value(encode_utf8(text)),
{
    vstd::utf8::is_ascii_chars_encode_utf8(text);
    assert forall|i: int| 0 <= i < encode_utf8(text).len() implies {
        let b = #[trigger] encode_utf8(text)[i];
        (b >= 32 && b != 127) || b == 9
    } by {}
}

/// `HeaderMap::keys_len` on a response header: the number of names it holds.
#[verifier::external_body]
pub(crate) fn response_name_count(header: &ResponseHeader) -> (n: usize)
    ensures
        n == response_names(*header),
{
    header.headers.keys_len()
}

/// `ResponseHeader::insert_header`: where name and value are acceptable, the
/// field replaces all values under that name; else an error comes back and
/// the header is as before. The status line is not touched.
#[verifier::external_body]
pub(crate) fn insert_response_header(
    header: &mut ResponseHeader,
    name: &'static str,
    value: &str,
) -> (r: Result<(), Box<pingora_error::Error>>)
    requires
        response_names(*old(header)) < HEADER_LIMIT,
    ensures
        r is Ok <==> (is_header_name(name@) && is_header_value(encode_utf8(value@))),
        r is Ok ==> response_fields(*final(header)) == response_fields(*old(header)).insert(
            header_key(name@),
            seq![encode_utf8(value@)],
        ),
        r is Ok ==> response_names(*final(header)) <= response_names(*old(header)) + 1,
        r is Err ==> *final(header) == *old(header),
        status_line(*final(header)) == status_line(*old(header)),
{
    header.insert_header(name, value)
}

/// `ResponseHeader::remove_header`: no value is left under the name. The
/// status line is not touched.
#[verifier::external_body]
pub(crate) fn remove_response_header(header: &mut ResponseHeader, name: &str)
    ensures
        response_fields(*final(header)) == response_fields(*old(header)).remove(
            header_key(name@),
        ),
        response_names(*final(header)) <= response_names(*old(header)),
        status_line(*final(header)) == status_line(*old(header)),
{
    header.remove_header(name);
}

/// `HeaderMap::keys_len` on a request header: the number of names it holds.
#[verifier::external_body]
pub(crate) fn request_name_count(header: &RequestHeader) -> (n: usize)
    ensures
        n == request_names(*header),
{
    header.headers.keys_len()
}

/// `RequestHeader::insert_header`: where name and value are acceptable, the
/// field replaces all values under that name; else an error comes back and
/// the header is as before. The request line is not touched.
#[verifier::external_body]
pub(crate) fn insert_request_header(
    header: &mut RequestHeader,
    name: &'static str,
    value: &str,
) -> (r: Result<(), Box<pingora_error::Error>>)
    requires
        request_names(*old(header)) < HEADER_LIMIT,
    ensures
        r is Ok <==> (is_header_name(name@) && is_header_value(encode_utf8(value@))),
        r is Ok ==> request_fields(*final(header)) == request_fields(*old(header)).insert(
            header_key(name@),
            seq![encode_utf8(value@)],
        ),
        r is Ok ==> request_names(*final(header)) <= request_names(*old(header)) + 1,
        r is Err ==> *final(header) == *old(header),
        request_line(*final(header)) == request_line(*old(header)),
{
    header.insert_header(name, value)
}

} // verus!
