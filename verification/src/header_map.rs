//! What the library assumes of the header map of the `http` crate, which
//! `axum` hands to a request handler. Nothing in this file is proved: each
//! item states what the crate's source shows.

use vstd::prelude::*;

verus! {

/// `http::HeaderMap`, the headers of a request. The verifier sees nothing
/// inside one: what it holds is `header_entries`.
#[verifier::external_type_specification]
#[verifier::external_body]
#[verifier::reject_recursive_types(T)]
pub struct ExHeaderMap<T>(axum::http::HeaderMap<T>);

/// `http::HeaderValue`, the value of one header. The verifier sees nothing
/// inside one: what it holds is `header_value_bytes`.
#[verifier::external_type_specification]
#[verifier::external_body]
pub struct ExHeaderValue(axum::http::HeaderValue);

/// `http::header::ToStrError`, which tells that a header value is no text and
/// nothing more.
#[verifier::external_type_specification]
#[verifier::external_body]
pub struct ExToStrError(axum::http::header::ToStrError);

/// What a header map holds: for each header name in it, as
/// `HeaderName::as_str` gives it, the bytes of the values stored under that
/// name, in the order in which they were added. A name in the map holds no
/// upper-case letter. It may hold characters that no key of `first_value`
/// holds, such as a double quote, which `HeaderName::from_static` accepts.
pub uninterp spec fn header_entries(headers: axum::http::HeaderMap<axum::http::HeaderValue>) -> Map<
    Seq<char>,
    Seq<Seq<u8>>,
>;

/// The bytes of a header value, as `HeaderValue::as_bytes` gives them.
pub uninterp spec fn header_value_bytes(value: axum::http::HeaderValue) -> Seq<u8>;

/// A letter in its lower case, any other character unchanged.
pub open spec fn ascii_lower_char(c: char) -> char {
    if 'A' <= c && c <= 'Z' {
        ((c as u8 + 32) as u8) as char
    } else {
        c
    }
}

/// A text with its ASCII letters in lower case, as a header map stores a
/// name.
pub open spec fn ascii_lower(name: Seq<char>) -> Seq<char> {
    Seq::new(name.len(), |i: int| ascii_lower_char(name[i]))
}

/// A byte that `HeaderValue::to_str` accepts: printable ASCII or a tab.
pub open spec fn is_visible_ascii(b: u8) -> bool {
    32 <= b < 127 || b == 9
}

/// Whether a header value can be read as text.
pub open spec fn is_text(bytes: Seq<u8>) -> bool {
    forall|i: int| 0 <= i < bytes.len() ==> is_visible_ascii(#[trigger] bytes[i])
}

/// The text of a header value of ASCII bytes: one character for each byte.
pub open spec fn text_of(bytes: Seq<u8>) -> Seq<char> {
    Seq::new(bytes.len(), |i: int| bytes[i] as char)
}

/// A character that may stand in a key of `first_value`: an ASCII letter, a
/// digit or a hyphen.
pub open spec fn is_key_char(c: char) -> bool {
    ||| 'a' <= c && c <= 'z'
    ||| 'A' <= c && c <= 'Z'
    ||| '0' <= c && c <= '9'
    ||| c == '-'
}

/// A key that `first_value` takes: between 1 and 65535 characters, each of
/// them a letter, a digit or a hyphen. This is narrower than what `http` calls
/// a valid header name; for no such key does the lookup by text differ from
/// the lookup by stored name.
pub open spec fn is_lookup_key(key: Seq<char>) -> bool {
    &&& 1 <= key.len() <= 65535
    &&& forall|i: int| 0 <= i < key.len() ==> is_key_char(#[trigger] key[i])
}

/// `HeaderMap::get` with a `&str` key of letters, digits and hyphens. The
/// key's letters are put in lower case and the result is looked up among the
/// stored names: the first value under that name is returned, or `None` where
/// the map holds no such name. Nothing is claimed of any other key: `get`
/// refuses a key with a character outside its own table and returns `None`
/// for it, though the map may hold a name that the key spells.
#[verifier::external_body]
pub(crate) fn first_value<'a>(
    headers: &'a axum::http::HeaderMap<axum::http::HeaderValue>,
    key: &str,
) -> (found: Option<&'a axum::http::HeaderValue>)
    requires
        is_lookup_key(key@),
    ensures
        match found {
            Some(value) => {
                &&& header_entries(*headers).contains_key(ascii_lower(key@))
                &&& header_entries(*headers)[ascii_lower(key@)].len() > 0
                &&& header_value_bytes(*value) == header_entries(*headers)[ascii_lower(key@)][0]
            },
            None => !header_entries(*headers).contains_key(ascii_lower(key@)),
        },
{
    headers.get(key)
}

/// `HeaderValue::to_str`: the value as a string slice when every byte of it is
/// printable ASCII or a tab, an error otherwise.
pub assume_specification[ axum::http::HeaderValue::to_str ](
    value: &axum::http::HeaderValue,
) -> (text: Result<&str, axum::http::header::ToStrError>)
    ensures
        match text {
            Ok(s) => is_text(header_value_bytes(*value)) && s@ == text_of(
                header_value_bytes(*value),
            ),
            Err(_) => !is_text(header_value_bytes(*value)),
        },
;

} // verus!
