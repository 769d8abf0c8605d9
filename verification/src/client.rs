//! The client key: the opaque string under which a request is counted.

use vstd::prelude::*;
use axum::http::header::{HeaderMap, HeaderValue, ToStrError};

verus! {

/// The request header that identifies the client.
pub const CLIENT_HEADER: &'static str = "x-forwarded-for";

/// The key under which every request without a usable header is counted.
pub const UNKNOWN_CLIENT: &'static str = "unknown";

/// `HeaderMap` of the `http` crate, the headers of a request. Its inside
/// is opaque here; what it holds is spoken of through [`first_values`].
#[verifier::external_type_specification]
#[verifier::external_body]
#[verifier::reject_recursive_types(T)]
pub struct ExHeaderMap<T>(HeaderMap<T>);

/// `HeaderValue` of the `http` crate, the value of one header. Its inside
/// is opaque here; what it holds is spoken of through [`value_bytes`].
#[verifier::external_type_specification]
#[verifier::external_body]
pub struct ExHeaderValue(HeaderValue);

/// `ToStrError` of the `http` crate, the error of `HeaderValue::to_str`. It
/// carries no information.
#[verifier::external_type_specification]
#[verifier::external_body]
pub struct ExToStrError(ToStrError);

/// The bytes that a header value holds.
pub uninterp spec fn value_bytes(value: HeaderValue) -> Seq<u8>;

/// For each header name that occurs in the map, the bytes of the first value
/// stored under it. Names are held in lower case.
pub uninterp spec fn first_values(headers: HeaderMap<HeaderValue>) -> Map<Seq<char>, Seq<u8>>;

/// Whether a byte is a visible ASCII character, a space or a tab.
pub open spec fn is_visible_ascii(byte: u8) -> bool {
    (32 <= byte && byte < 127) || byte == 9
}

/// Whether every byte of `bytes` is visible ASCII.
pub open spec fn all_visible_ascii(bytes: Seq<u8>) -> bool {
    forall|i: int| 0 <= i < bytes.len() ==> is_visible_ascii(#[trigger] bytes[i])
}

/// The characters that ASCII bytes stand for, one for each byte.
pub open spec fn ascii_text(bytes: Seq<u8>) -> Seq<char> {
    Seq::new(bytes.len(), |i: int| bytes[i] as char)
}

/// Whether a header name holds no upper-case ASCII letter.
pub open spec fn is_lower_case(name: Seq<char>) -> bool {
    forall|i: int| 0 <= i < name.len() ==> !('A' <= #[trigger] name[i] && name[i] <= 'Z')
}

/// `HeaderValue::to_str` of the `http` crate: it yields the value as text
/// exactly when every byte of the value is visible ASCII, and the text has
/// one character for each byte.
pub assume_specification[ HeaderValue::to_str ](value: &HeaderValue) -> (text: Result<
    &str,
    ToStrError,
>)
    ensures
        text is Ok <==> all_visible_ascii(value_bytes(*value)),
        text matches Ok(s) ==> s@ == ascii_text(value_bytes(*value)),
;

/// `HeaderMap::get` of the `http` crate with a string key: for a name without
/// upper-case letters it returns the first value stored under that name, and
/// `None` when the map holds no value under it.
#[verifier::external_body]
fn first_value<'a>(headers: &'a HeaderMap<HeaderValue>, name: &str) -> (value: Option<
    &'a HeaderValue,
>)
    requires
        is_lower_case(name@),
    ensures
        value is Some <==> first_values(*headers).contains_key(name@),
        value matches Some(v) ==> value_bytes(*v) == first_values(*headers)[name@],
{
    headers.get(name)
}

/// The key that a header value stands for: its text when every byte is
/// visible ASCII, the key of unknown clients otherwise or when there is no
/// value.
pub open spec fn key_of(value: Option<Seq<u8>>) -> Seq<char> {
    match value {
        Some(bytes) if all_visible_ascii(bytes) => ascii_text(bytes),
        _ => UNKNOWN_CLIENT@,
    }
}

/// The bytes that a header value holds, if there is a value.
pub open spec fn bytes_of(value: Option<&HeaderValue>) -> Option<Seq<u8>> {
    match value {
        Some(v) => Some(value_bytes(*v)),
        None => None,
    }
}

/// The bytes of the value that identifies the client in `headers`, if any.
pub open spec fn client_value(headers: HeaderMap<HeaderValue>) -> Option<Seq<u8>> {
    if first_values(headers).contains_key(CLIENT_HEADER@) {
        Some(first_values(headers)[CLIENT_HEADER@])
    } else {
        None
    }
}

/// Turns the value of the identifying header, if there is one, into the
/// client key.
pub fn key_from_value(value: Option<&HeaderValue>) -> (key: String)
    ensures
        key@ == key_of(bytes_of(value)),
{
    let text: &str = match value {
        Some(v) => match v.to_str() {
            Ok(s) => s,
            Err(_) => UNKNOWN_CLIENT,
        },
        None => UNKNOWN_CLIENT,
    };
    text.to_string()
}

/// Derives the client key from the headers of a request.
pub fn client_key(headers: &HeaderMap<HeaderValue>) -> (key: String)
    ensures
        key@ == key_of(client_value(*headers)),
{
    proof {
        reveal_strlit("x-forwarded-for");
    }
    key_from_value(first_value(headers, CLIENT_HEADER))
}

} // verus!
