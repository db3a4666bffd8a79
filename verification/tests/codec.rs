use byteorder::{ByteOrder, LittleEndian};
use serde::Serializer as _;
use serde_json::Serializer;

use cocaine_http_proxy::message::{
    bytes_of, find_header, join_lines, serialize_body, serialize_method, serialize_version,
    HeaderField, HttpVersion, Method, Response,
};
use cocaine_http_proxy::wire::{timeout_header, BackendHeader};

#[test]
fn test_serialize_version() {
    let mut se = Serializer::new(Vec::new());
    se.serialize_str(serialize_version(&HttpVersion::Http10)).unwrap();
    assert_eq!(&b"\"1.0\""[..], &se.into_inner()[..]);

    let mut se = Serializer::new(Vec::new());
    se.serialize_str(serialize_version(&HttpVersion::Http11)).unwrap();
    assert_eq!(&b"\"1.1\""[..], &se.into_inner()[..]);
}

#[test]
fn version_text_for_every_version() {
    assert_eq!(serialize_version(&HttpVersion::Http09), "1.0");
    assert_eq!(serialize_version(&HttpVersion::Http10), "1.0");
    assert_eq!(serialize_version(&HttpVersion::Http11), "1.1");
    assert_eq!(serialize_version(&HttpVersion::H2), "1.0");
    assert_eq!(serialize_version(&HttpVersion::H2c), "1.0");
}

#[test]
fn method_names() {
    assert_eq!(serialize_method(&Method::Options), "OPTIONS");
    assert_eq!(serialize_method(&Method::Get), "GET");
    assert_eq!(serialize_method(&Method::Post), "POST");
    assert_eq!(serialize_method(&Method::Put), "PUT");
    assert_eq!(serialize_method(&Method::Delete), "DELETE");
    assert_eq!(serialize_method(&Method::Head), "HEAD");
    assert_eq!(serialize_method(&Method::Trace), "TRACE");
    assert_eq!(serialize_method(&Method::Connect), "CONNECT");
    assert_eq!(serialize_method(&Method::Patch), "PATCH");
    assert_eq!(serialize_method(&Method::Extension("PURGE".to_string())), "PURGE");
    assert!(Method::Head.is_head());
    assert!(!Method::Get.is_head());
    assert!(!Method::Extension("HEAD".to_string()).is_head());
}

#[test]
fn body_travels_as_it_is() {
    let body = vec![0xff, 0x00, 0xfe, b'a'];
    assert_eq!(serialize_body(&body), body);
    assert_eq!(serialize_body(&Vec::new()), Vec::<u8>::new());
}

#[test]
fn timeout_header_is_little_endian() {
    match timeout_header(1500) {
        BackendHeader::Raw { name, value } => {
            assert_eq!(name, "request_timeout");
            assert_eq!(value, vec![0xdc, 0x05, 0, 0, 0, 0, 0, 0]);
        }
        other => panic!("unexpected header {:?}", other),
    }
}

#[test]
fn timeout_header_decodes_to_its_milliseconds() {
    for millis in [0u64, 1, 50, 255, 256, 30_000, 0x0102_0304_0506_0708, u64::MAX] {
        match timeout_header(millis) {
            BackendHeader::Raw { name, value } => {
                assert_eq!(name, "request_timeout");
                assert_eq!(value.len(), 8);
                assert_eq!(LittleEndian::read_u64(&value), millis);
                assert_eq!(value, millis.to_le_bytes().to_vec());
            }
            other => panic!("unexpected header {:?}", other),
        }
    }
}

#[test]
fn timeout_of_a_second_and_a_half() {
    // 1.5 s is 1500 ms.
    let seconds: f64 = 1.5;
    let millis = (seconds * 1000.0) as u64;
    match timeout_header(millis) {
        BackendHeader::Raw { value, .. } => assert_eq!(LittleEndian::read_u64(&value), 1500),
        other => panic!("unexpected header {:?}", other),
    }
}

#[test]
fn text_becomes_its_utf8_bytes() {
    assert_eq!(bytes_of("hi"), b"hi".to_vec());
    assert_eq!(bytes_of(""), Vec::<u8>::new());
    assert_eq!(bytes_of("\u{e9}"), vec![0xc3, 0xa9]);
}

#[test]
fn lines_are_joined_without_separator() {
    assert_eq!(join_lines(&vec![]), "");
    assert_eq!(join_lines(&vec!["a".to_string()]), "a");
    assert_eq!(join_lines(&vec!["a".to_string(), "".to_string(), "bc".to_string()]), "abc");
}

fn field(name: &str, lines: &[&str]) -> HeaderField {
    HeaderField { name: name.to_string(), lines: lines.iter().map(|l| l.to_string()).collect() }
}

#[test]
fn headers_are_found_whatever_their_case() {
    let fields = vec![
        field("Host", &["example.org"]),
        field("x-auth", &["a", "b"]),
        field("X-Auth", &["never"]),
    ];
    assert_eq!(find_header(&fields, "host"), Some("example.org".to_string()));
    assert_eq!(find_header(&fields, "HOST"), Some("example.org".to_string()));
    assert_eq!(find_header(&fields, "X-Auth"), Some("ab".to_string()));
    assert_eq!(find_header(&fields, "X-Autz"), None);
    assert_eq!(find_header(&fields, "X-Aut"), None);
    assert_eq!(find_header(&Vec::new(), "Host"), None);
}

#[test]
fn only_ascii_letters_fold() {
    let fields = vec![field("K\u{e9}y", &["v"]), field("a[b", &["w"])];
    assert_eq!(find_header(&fields, "k\u{e9}Y"), Some("v".to_string()));
    assert_eq!(find_header(&fields, "K\u{c9}y"), None);
    // '[' is 'A' + 26 and '{' is 'a' + 26: neither is a letter.
    assert_eq!(find_header(&fields, "A{B"), None);
    assert_eq!(find_header(&fields, "A[B"), Some("w".to_string()));
}

#[test]
fn plain_and_empty_responses() {
    let empty = Response::new();
    assert_eq!(empty.status, 200);
    assert_eq!(empty.request_id, None);
    assert!(empty.headers.is_empty());
    assert!(empty.body.is_empty());

    let plain = Response::plain(418, Some(7), "teapot");
    assert_eq!(plain.status, 418);
    assert_eq!(plain.request_id, Some(7));
    assert!(plain.headers.is_empty());
    assert_eq!(plain.body, b"teapot".to_vec());
}
