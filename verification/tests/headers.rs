use axum::http::{HeaderMap, HeaderName, HeaderValue};
use client_ip::headers::{get_header_keys, get_ip_from_headers, ip_from_value, NO_IP};

fn one_header(name: &'static str, value: &'static str) -> HeaderMap {
    let mut headers = HeaderMap::new();
    headers.insert(HeaderName::from_static(name), HeaderValue::from_static(value));
    headers
}

#[test]
fn sentinel_is_the_documented_text() {
    assert_eq!(NO_IP, "! unable to retrieve ip");
}

#[test]
fn header_keys_are_the_nine_names_in_order() {
    assert_eq!(
        get_header_keys(),
        [
            "x-client-ip",
            "x-forwarded-for",
            "cf-connecting-ip",
            "Fastly-Client-Ip",
            "True-Client-Ip",
            "X-Real-IP",
            "X-Cluster-Client-IP",
            "X-Forwarded",
            "host",
        ]
    );
}

#[test]
fn empty_headers_give_the_sentinel() {
    assert_eq!(get_ip_from_headers(HeaderMap::new()), "! unable to retrieve ip");
}

#[test]
fn unrecognized_headers_give_the_sentinel() {
    let mut headers = HeaderMap::new();
    headers.insert(HeaderName::from_static("accept"), HeaderValue::from_static("*/*"));
    headers.insert(HeaderName::from_static("user-agent"), HeaderValue::from_static("curl/8.0"));
    headers.insert(HeaderName::from_static("x-client"), HeaderValue::from_static("10.0.0.1"));
    headers.insert(HeaderName::from_static("forwarded"), HeaderValue::from_static("for=10.0.0.2"));
    assert_eq!(get_ip_from_headers(headers), "! unable to retrieve ip");
}

#[test]
fn each_recognized_header_alone_gives_its_value() {
    let names = [
        "x-client-ip",
        "x-forwarded-for",
        "cf-connecting-ip",
        "fastly-client-ip",
        "true-client-ip",
        "x-real-ip",
        "x-cluster-client-ip",
        "x-forwarded",
        "host",
    ];
    for name in names {
        assert_eq!(get_ip_from_headers(one_header(name, "198.51.100.23")), "198.51.100.23");
    }
}

#[test]
fn recognized_header_beside_unrecognized_ones_gives_its_value() {
    let mut headers = one_header("x-real-ip", "192.0.2.44");
    headers.insert(HeaderName::from_static("accept"), HeaderValue::from_static("*/*"));
    headers.insert(HeaderName::from_static("x-request-id"), HeaderValue::from_static("77"));
    assert_eq!(get_ip_from_headers(headers), "192.0.2.44");
}

#[test]
fn value_is_not_trimmed() {
    assert_eq!(get_ip_from_headers(one_header("x-client-ip", " 10.1.2.3\t ")), " 10.1.2.3\t ");
}

#[test]
fn value_is_not_split_or_validated() {
    assert_eq!(
        get_ip_from_headers(one_header("x-forwarded-for", "203.0.113.1, 70.41.3.18, 150.172.238.178")),
        "203.0.113.1, 70.41.3.18, 150.172.238.178"
    );
    assert_eq!(get_ip_from_headers(one_header("x-real-ip", "not an address")), "not an address");
    assert_eq!(get_ip_from_headers(one_header("host", "[2001:DB8::1]:8080")), "[2001:DB8::1]:8080");
}

#[test]
fn empty_value_is_returned_as_it_is() {
    assert_eq!(get_ip_from_headers(one_header("x-client-ip", "")), "");
}

#[test]
fn x_client_ip_wins_over_x_forwarded_for() {
    let mut headers = HeaderMap::new();
    headers.insert(HeaderName::from_static("x-client-ip"), HeaderValue::from_static("A"));
    headers.insert(HeaderName::from_static("x-forwarded-for"), HeaderValue::from_static("B"));
    assert_eq!(get_ip_from_headers(headers), "A");
}

#[test]
fn precedence_does_not_depend_on_insertion_order() {
    let mut headers = HeaderMap::new();
    headers.insert(HeaderName::from_static("x-forwarded-for"), HeaderValue::from_static("B"));
    headers.insert(HeaderName::from_static("x-client-ip"), HeaderValue::from_static("A"));
    assert_eq!(get_ip_from_headers(headers), "A");
}

#[test]
fn earlier_header_wins_for_every_pair() {
    let names = [
        "x-client-ip",
        "x-forwarded-for",
        "cf-connecting-ip",
        "fastly-client-ip",
        "true-client-ip",
        "x-real-ip",
        "x-cluster-client-ip",
        "x-forwarded",
        "host",
    ];
    for earlier in 0..names.len() {
        for later in (earlier + 1)..names.len() {
            let mut headers = HeaderMap::new();
            headers.insert(HeaderName::from_static(names[later]), HeaderValue::from_static("later"));
            headers.insert(HeaderName::from_static(names[earlier]), HeaderValue::from_static("earlier"));
            assert_eq!(get_ip_from_headers(headers), "earlier");
        }
    }
}

#[test]
fn host_is_the_last_resort() {
    let mut headers = one_header("host", "example.org");
    assert_eq!(get_ip_from_headers(headers.clone()), "example.org");
    headers.insert(HeaderName::from_static("x-forwarded"), HeaderValue::from_static("192.0.2.9"));
    assert_eq!(get_ip_from_headers(headers), "192.0.2.9");
}

#[test]
fn header_names_match_whatever_their_case() {
    let mut headers = HeaderMap::new();
    headers.insert(
        HeaderName::from_bytes(b"FASTLY-CLIENT-IP").unwrap(),
        HeaderValue::from_static("192.0.2.1"),
    );
    assert_eq!(get_ip_from_headers(headers), "192.0.2.1");

    let mut headers = HeaderMap::new();
    headers.insert(
        HeaderName::from_bytes(b"X-Real-Ip").unwrap(),
        HeaderValue::from_static("192.0.2.2"),
    );
    assert_eq!(get_ip_from_headers(headers), "192.0.2.2");
}

#[test]
fn first_of_several_values_is_returned() {
    let mut headers = HeaderMap::new();
    headers.append(HeaderName::from_static("x-forwarded-for"), HeaderValue::from_static("10.0.0.1"));
    headers.append(HeaderName::from_static("x-forwarded-for"), HeaderValue::from_static("10.0.0.2"));
    assert_eq!(get_ip_from_headers(headers), "10.0.0.1");
}

#[test]
fn value_that_is_no_text_gives_the_sentinel() {
    let mut headers = HeaderMap::new();
    headers.insert(
        HeaderName::from_static("x-client-ip"),
        HeaderValue::from_bytes(&[0xff, 0xfe]).unwrap(),
    );
    assert_eq!(get_ip_from_headers(headers), "! unable to retrieve ip");
}

#[test]
fn value_that_is_no_text_is_not_passed_over_for_a_later_header() {
    let mut headers = HeaderMap::new();
    headers.insert(
        HeaderName::from_static("x-client-ip"),
        HeaderValue::from_bytes("caf\u{e9}".as_bytes()).unwrap(),
    );
    headers.insert(HeaderName::from_static("x-real-ip"), HeaderValue::from_static("192.0.2.7"));
    assert_eq!(get_ip_from_headers(headers), "! unable to retrieve ip");
}

#[test]
fn ip_from_value_gives_text_or_sentinel() {
    assert_eq!(ip_from_value(&HeaderValue::from_static("203.0.113.7")), "203.0.113.7");
    assert_eq!(ip_from_value(&HeaderValue::from_static("a\tb")), "a\tb");
    assert_eq!(ip_from_value(&HeaderValue::from_bytes(&[0x80]).unwrap()), "! unable to retrieve ip");
}

#[test]
fn cf_connecting_ip_without_higher_headers_gives_its_value() {
    let mut headers = HeaderMap::new();
    headers.insert(HeaderName::from_static("accept"), HeaderValue::from_static("text/plain"));
    headers.insert(HeaderName::from_static("host"), HeaderValue::from_static("localhost"));
    headers.insert(HeaderName::from_static("cf-connecting-ip"), HeaderValue::from_static("203.0.113.7"));
    assert_eq!(get_ip_from_headers(headers), "203.0.113.7");
}

#[test]
fn names_that_only_resemble_a_recognized_one_are_passed_over() {
    let mut headers = HeaderMap::new();
    headers.insert(HeaderName::from_static("x-client-ip\""), HeaderValue::from_static("10.9.9.9"));
    headers.insert(HeaderName::from_static("x-client-ip2"), HeaderValue::from_static("10.9.9.8"));
    assert_eq!(get_ip_from_headers(headers.clone()), "! unable to retrieve ip");
    headers.insert(HeaderName::from_static("x-real-ip"), HeaderValue::from_static("192.0.2.5"));
    assert_eq!(get_ip_from_headers(headers), "192.0.2.5");
}
