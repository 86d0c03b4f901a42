//! The client address of a request, taken from the first of a fixed list of
//! headers that the request carries.

use crate::header_map::{
    ascii_lower, first_value, header_entries, header_value_bytes, is_lookup_key, is_text, text_of,
};
use axum::http::{HeaderMap, HeaderValue};
use vstd::prelude::*;

verus! {

/// What is answered when no address can be given.
pub const NO_IP: &'static str = "! unable to retrieve ip";

/// The header names that may carry the client address, in order of precedence.
pub open spec fn header_keys() -> Seq<Seq<char>> {
    seq![
        "x-client-ip"@,
        "x-forwarded-for"@,
        "cf-connecting-ip"@,
        "Fastly-Client-Ip"@,
        "True-Client-Ip"@,
        "X-Real-IP"@,
        "X-Cluster-Client-IP"@,
        "X-Forwarded"@,
        "host"@,
    ]
}

/// The name under which a header map holds the `i`-th header of the list.
pub open spec fn recognized_name(i: int) -> Seq<char> {
    ascii_lower(header_keys()[i])
}

/// Whether the request carries the `i`-th header of the list.
pub open spec fn carries(entries: Map<Seq<char>, Seq<Seq<u8>>>, i: int) -> bool {
    0 <= i < 9 && entries.contains_key(recognized_name(i))
}

/// The first header of the list, from position `from` on, that the request
/// carries.
pub open spec fn first_carried(entries: Map<Seq<char>, Seq<Seq<u8>>>, from: int) -> Option<int>
    decreases 9 - from,
{
    if from < 0 || from >= 9 {
        None
    } else if carries(entries, from) {
        Some(from)
    } else {
        first_carried(entries, from + 1)
    }
}

/// The answer that a header value gives: its text, unchanged, or `NO_IP`
/// where it is no text.
pub open spec fn value_answer(bytes: Seq<u8>) -> Seq<char> {
    if is_text(bytes) {
        text_of(bytes)
    } else {
        NO_IP@
    }
}

/// The client address of a request with these headers: what the first value
/// of the first recognized header answers, or `NO_IP` where the request
/// carries none of them.
pub open spec fn client_ip(entries: Map<Seq<char>, Seq<Seq<u8>>>) -> Seq<char> {
    match first_carried(entries, 0) {
        Some(i) => value_answer(entries[recognized_name(i)][0]),
        None => NO_IP@,
    }
}

/// The header names that are looked at, earlier names taking precedence.
pub fn get_header_keys() -> (keys: [&'static str; 9])
    ensures
        keys@.len() == 9,
        forall|i: int| 0 <= i < 9 ==> (#[trigger] keys@[i])@ == header_keys()[i],
{
    [
        "x-client-ip",
        "x-forwarded-for",
        "cf-connecting-ip",
        "Fastly-Client-Ip",
        "True-Client-Ip",
        "X-Real-IP",
        "X-Cluster-Client-IP",
        "X-Forwarded",
        "host",
    ]
}

/// The answer that one header value gives: its text as it was received, or
/// `NO_IP` where the value holds bytes that are no text.
pub fn ip_from_value(value: &HeaderValue) -> (ip: String)
    ensures
        ip@ == value_answer(header_value_bytes(*value)),
{
    match value.to_str() {
        Ok(text) => text.to_owned(),
        Err(_) => NO_IP.to_owned(),
    }
}

/// The client address of a request: the value of the first header of the list
/// that the request carries, as it was received.
pub fn get_ip_from_headers(headers: HeaderMap) -> (ip: String)
    ensures
        ip@ == client_ip(header_entries(headers)),
{
    let keys = get_header_keys();
    proof {
        lemma_header_keys_are_lookup_keys();
    }
    let mut i: usize = 0;
    while i < 9
        invariant
            0 <= i <= 9,
            keys@.len() == 9,
            forall|k: int| 0 <= k < 9 ==> (#[trigger] keys@[k])@ == header_keys()[k],
            forall|k: int| 0 <= k < 9 ==> is_lookup_key(#[trigger] header_keys()[k]),
            first_carried(header_entries(headers), 0) == first_carried(
                header_entries(headers),
                i as int,
            ),
        decreases 9 - i,
    {
        match first_value(&headers, keys[i]) {
            Some(value) => {
                return ip_from_value(value);
            },
            None => {},
        }
        i += 1;
    }
    NO_IP.to_owned()
}

/// Each name of the list is made of letters, digits and hyphens, so that it
/// can be looked up as it stands.
pub proof fn lemma_header_keys_are_lookup_keys()
    ensures
        forall|k: int| 0 <= k < 9 ==> is_lookup_key(#[trigger] header_keys()[k]),
{
    reveal_strlit("x-client-ip");
    reveal_strlit("x-forwarded-for");
    reveal_strlit("cf-connecting-ip");
    reveal_strlit("Fastly-Client-Ip");
    reveal_strlit("True-Client-Ip");
    reveal_strlit("X-Real-IP");
    reveal_strlit("X-Cluster-Client-IP");
    reveal_strlit("X-Forwarded");
    reveal_strlit("host");
}

/// From position `from` on, `first_carried` gives the least position whose
/// header the request carries, and `None` exactly where there is none.
proof fn lemma_first_carried_from(entries: Map<Seq<char>, Seq<Seq<u8>>>, from: int)
    requires
        0 <= from <= 9,
    ensures
        match first_carried(entries, from) {
            Some(w) => from <= w < 9 && carries(entries, w) && forall|k: int|
                from <= k < w ==> !carries(entries, k),
            None => forall|k: int| from <= k < 9 ==> !carries(entries, k),
        },
    decreases 9 - from,
{
    if from < 9 && !carries(entries, from) {
        lemma_first_carried_from(entries, from + 1);
    }
}

/// A request that carries none of the recognized headers is answered with
/// `NO_IP`.
pub proof fn lemma_no_recognized_header(entries: Map<Seq<char>, Seq<Seq<u8>>>)
    requires
        forall|i: int| 0 <= i < 9 ==> !entries.contains_key(#[trigger] recognized_name(i)),
    ensures
        client_ip(entries) == NO_IP@,
{
    lemma_first_carried_from(entries, 0);
}

/// The answer is that of the recognized header before which the request
/// carries no other, whatever headers it carries after it.
pub proof fn lemma_first_recognized_header(entries: Map<Seq<char>, Seq<Seq<u8>>>, i: int)
    requires
        carries(entries, i),
        forall|k: int| 0 <= k < i ==> !carries(entries, k),
    ensures
        first_carried(entries, 0) == Some(i),
        client_ip(entries) == value_answer(entries[recognized_name(i)][0]),
{
    lemma_first_carried_from(entries, 0);
}

/// A request that carries exactly one recognized header, with a value that is
/// text, is answered with that text, unchanged.
pub proof fn lemma_single_recognized_header(entries: Map<Seq<char>, Seq<Seq<u8>>>, i: int)
    requires
        carries(entries, i),
        forall|k: int| 0 <= k < 9 && k != i ==> !carries(entries, k),
        is_text(entries[recognized_name(i)][0]),
    ensures
        client_ip(entries) == text_of(entries[recognized_name(i)][0]),
{
    lemma_first_recognized_header(entries, i);
}

/// Of two recognized headers that a request carries, the later one in the
/// list never gives the answer: the answer comes from a header at or before
/// the earlier one, and from the earlier one itself where the request carries
/// none before it.
pub proof fn lemma_earlier_header_wins(entries: Map<Seq<char>, Seq<Seq<u8>>>, i: int, j: int)
    requires
        i < j,
        carries(entries, i),
        carries(entries, j),
    ensures
        first_carried(entries, 0) matches Some(w) && 0 <= w <= i && client_ip(entries)
            == value_answer(entries[recognized_name(w)][0]),
        (forall|k: int| 0 <= k < i ==> !carries(entries, k)) ==> client_ip(entries)
            == value_answer(entries[recognized_name(i)][0]),
{
    lemma_first_carried_from(entries, 0);
}

/// The names under which the headers of the list are looked up.
pub proof fn lemma_recognized_names()
    ensures
        recognized_name(0) == "x-client-ip"@,
        recognized_name(1) == "x-forwarded-for"@,
        recognized_name(2) == "cf-connecting-ip"@,
        recognized_name(3) == "fastly-client-ip"@,
        recognized_name(4) == "true-client-ip"@,
        recognized_name(5) == "x-real-ip"@,
        recognized_name(6) == "x-cluster-client-ip"@,
        recognized_name(7) == "x-forwarded"@,
        recognized_name(8) == "host"@,
{
    reveal_strlit("x-client-ip");
    reveal_strlit("x-forwarded-for");
    reveal_strlit("cf-connecting-ip");
    reveal_strlit("Fastly-Client-Ip");
    reveal_strlit("fastly-client-ip");
    reveal_strlit("True-Client-Ip");
    reveal_strlit("true-client-ip");
    reveal_strlit("X-Real-IP");
    reveal_strlit("x-real-ip");
    reveal_strlit("X-Cluster-Client-IP");
    reveal_strlit("x-cluster-client-ip");
    reveal_strlit("X-Forwarded");
    reveal_strlit("x-forwarded");
    reveal_strlit("host");
}

} // verus!
