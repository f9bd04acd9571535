use std::collections::{BTreeMap, HashSet};
use uvenv::codec::{add_header, magic_bytes, starts_with_header, strip_header, HEADER_LEN};

type Body = (
    String,
    BTreeMap<String, bool>,
    String,
    HashSet<String>,
    String,
    String,
    String,
    String,
    HashSet<String>,
    bool,
    String,
    bool,
);

fn sample_body() -> Body {
    let mut scripts = BTreeMap::new();
    scripts.insert("cowsay".to_string(), true);
    let mut injected = HashSet::new();
    injected.insert("requests".to_string());
    (
        "cowsay".to_string(),
        scripts,
        "cowsay==6.1".to_string(),
        HashSet::new(),
        "==6.1".to_string(),
        "6.1".to_string(),
        "CPython 3.12.4".to_string(),
        "/usr/lib/python3.12".to_string(),
        injected,
        false,
        String::new(),
        false,
    )
}

#[test]
fn header_is_seven_bytes() {
    assert_eq!(HEADER_LEN, 7);
    assert_eq!(magic_bytes(), vec![0x55, 0x56, 0x58, 0x01, 0x32, 0x04, 0x00]);
}

#[test]
fn add_header_puts_prefix_in_front() {
    let mut buf = vec![1u8, 2, 3];
    add_header(&mut buf);
    assert_eq!(buf, vec![0x55, 0x56, 0x58, 0x01, 0x32, 0x04, 0x00, 1, 2, 3]);
    assert!(starts_with_header(&buf));
}

#[test]
fn add_header_on_empty_body() {
    let mut buf: Vec<u8> = Vec::new();
    add_header(&mut buf);
    assert_eq!(buf, magic_bytes());
    strip_header(&mut buf);
    assert!(buf.is_empty());
}

#[test]
fn strip_header_removes_prefix_once() {
    let mut buf = vec![0x55, 0x56, 0x58, 0x01, 0x32, 0x04, 0x00, 9, 8];
    strip_header(&mut buf);
    assert_eq!(buf, vec![9, 8]);
    strip_header(&mut buf);
    assert_eq!(buf, vec![9, 8]);
}

#[test]
fn strip_header_leaves_other_buffers() {
    let mut short = vec![0x55, 0x56, 0x58];
    strip_header(&mut short);
    assert_eq!(short, vec![0x55, 0x56, 0x58]);
    let mut other_version = vec![0x55, 0x56, 0x58, 0x01, 0x33, 0x04, 0x00, 1];
    assert!(!starts_with_header(&other_version));
    strip_header(&mut other_version);
    assert_eq!(other_version, vec![0x55, 0x56, 0x58, 0x01, 0x33, 0x04, 0x00, 1]);
}

#[test]
fn strip_undoes_add_even_on_a_body_with_magic() {
    let mut buf = magic_bytes();
    buf.push(7);
    let body = buf.clone();
    add_header(&mut buf);
    strip_header(&mut buf);
    assert_eq!(buf, body);
}

#[test]
fn record_round_trips_through_the_frame() {
    let record = sample_body();
    let mut bytes = rmp_serde::encode::to_vec(&record).unwrap();
    add_header(&mut bytes);
    assert!(starts_with_header(&bytes));
    assert_eq!(&bytes[..7], &[0x55, 0x56, 0x58, 0x01, 0x32, 0x04, 0x00]);
    strip_header(&mut bytes);
    let back: Body = rmp_serde::decode::from_slice(&bytes).unwrap();
    assert_eq!(back, record);
}

#[test]
fn framing_twice_is_byte_identical() {
    let record = sample_body();
    let body = rmp_serde::encode::to_vec(&record).unwrap();
    let mut one = body.clone();
    let mut two = body.clone();
    add_header(&mut one);
    add_header(&mut two);
    assert_eq!(one, two);
}

#[test]
fn legacy_body_reads_like_framed_one() {
    let record = sample_body();
    let legacy = rmp_serde::encode::to_vec(&record).unwrap();
    let mut plain = legacy.clone();
    strip_header(&mut plain);
    let mut framed = legacy.clone();
    add_header(&mut framed);
    strip_header(&mut framed);
    let a: Body = rmp_serde::decode::from_slice(&plain).unwrap();
    let b: Body = rmp_serde::decode::from_slice(&framed).unwrap();
    assert_eq!(a, b);
    assert_eq!(a, record);
}
