use rtsp::header::value::{HeaderValue, InvalidHeaderValue};
use rtsp::header::{HeaderMap, HeaderName};

fn value(bytes: &[u8]) -> HeaderValue {
    HeaderValue::try_from(bytes).unwrap()
}

fn values_of(map: &HeaderMap, name: &HeaderName) -> Vec<Vec<u8>> {
    map.get(name).iter().map(|v| v.as_bytes().to_vec()).collect()
}

#[test]
fn header_value_accepts_printable_text_and_tabs() {
    assert_eq!(value(b"").as_bytes(), b"");
    assert_eq!(value(b"text/parameters; q=0.5\tx").as_bytes(), b"text/parameters; q=0.5\tx");
    assert_eq!(HeaderValue::try_from_str("835").unwrap(), value(b"835"));
    assert_eq!(value(b"abc").len(), 3);
    assert!(value(b"").is_empty());
}

#[test]
fn header_value_accepts_a_folded_line() {
    assert!(HeaderValue::try_from(b"first\r\n second").is_ok());
    assert!(HeaderValue::try_from(b"first\r\n\tsecond").is_ok());
}

#[test]
fn header_value_rejects_a_line_break_that_does_not_fold() {
    assert_eq!(HeaderValue::try_from(b"first\r\nsecond"), Err(InvalidHeaderValue));
    assert!(HeaderValue::try_from(b"first\r\n").is_err());
    assert!(HeaderValue::try_from(b"first\rsecond").is_err());
    assert!(HeaderValue::try_from(b"first\n second").is_err());
    assert!(HeaderValue::try_from(b"\n").is_err());
}

#[test]
fn header_value_rejects_control_characters_and_bytes_above_ascii() {
    assert!(HeaderValue::try_from(b"a\x00b").is_err());
    assert!(HeaderValue::try_from(b"a\x7fb").is_err());
    assert!(HeaderValue::try_from(b"caf\xc3\xa9").is_err());
    assert_eq!(InvalidHeaderValue.description(), "invalid RTSP header value");
}

#[test]
fn header_value_has_a_length_limit() {
    assert!(HeaderValue::try_from(&vec![b'a'; 4096][..]).is_ok());
    assert!(HeaderValue::try_from(&vec![b'a'; 4097][..]).is_err());
}

#[test]
fn header_map_keeps_names_in_order_of_first_insertion() {
    let mut map = HeaderMap::new();
    assert!(map.is_empty());
    map.append(HeaderName::CSeq, value(b"1"));
    map.append(HeaderName::Accept, value(b"a"));
    map.append(HeaderName::try_from(b"X-Ext").unwrap(), value(b"x"));
    map.append(HeaderName::Accept, value(b"b"));
    assert_eq!(map.len(), 3);
    assert_eq!(map.name_at(0), &HeaderName::CSeq);
    assert_eq!(map.name_at(1), &HeaderName::Accept);
    assert_eq!(map.name_at(2).canonical_name(), "X-Ext");
    assert_eq!(values_of(&map, &HeaderName::Accept), vec![b"a".to_vec(), b"b".to_vec()]);
    assert_eq!(map.values_at(1).len(), 2);
}

#[test]
fn header_map_tells_names_apart_by_their_lowercase_spelling() {
    let mut map = HeaderMap::new();
    map.append(HeaderName::try_from(b"X-Ext").unwrap(), value(b"1"));
    map.append(HeaderName::try_from(b"x-EXT").unwrap(), value(b"2"));
    assert_eq!(map.len(), 1);
    assert_eq!(map.name_at(0).canonical_name(), "X-Ext");
    let name = HeaderName::try_from(b"X-EXT").unwrap();
    assert!(map.contains(&name));
    assert_eq!(values_of(&map, &name), vec![b"1".to_vec(), b"2".to_vec()]);
}

#[test]
fn header_map_get_of_a_missing_name_is_empty() {
    let map = HeaderMap::new();
    assert!(map.get(&HeaderName::Session).is_empty());
    assert!(!map.contains(&HeaderName::Session));
}

#[test]
fn header_map_set_replaces_the_values_in_place() {
    let mut map = HeaderMap::new();
    map.append(HeaderName::CSeq, value(b"1"));
    map.append(HeaderName::Accept, value(b"a"));
    map.append(HeaderName::Accept, value(b"b"));
    map.append(HeaderName::Session, value(b"s"));
    map.set(HeaderName::Accept, vec![value(b"c")]);
    assert_eq!(map.len(), 3);
    assert_eq!(map.name_at(1), &HeaderName::Accept);
    assert_eq!(values_of(&map, &HeaderName::Accept), vec![b"c".to_vec()]);
    map.set(HeaderName::Public, vec![value(b"PLAY"), value(b"PAUSE")]);
    assert_eq!(map.len(), 4);
    assert_eq!(map.name_at(3), &HeaderName::Public);
}

#[test]
fn header_map_set_without_values_removes_the_header() {
    let mut map = HeaderMap::new();
    map.append(HeaderName::CSeq, value(b"1"));
    map.append(HeaderName::Accept, value(b"a"));
    map.set(HeaderName::CSeq, vec![]);
    assert_eq!(map.len(), 1);
    assert_eq!(map.name_at(0), &HeaderName::Accept);
    map.set(HeaderName::Session, vec![]);
    assert_eq!(map.len(), 1);
}

#[test]
fn header_map_remove_returns_the_values() {
    let mut map = HeaderMap::new();
    map.append(HeaderName::CSeq, value(b"1"));
    map.append(HeaderName::Accept, value(b"a"));
    map.append(HeaderName::Accept, value(b"b"));
    let removed = map.remove(&HeaderName::Accept);
    assert_eq!(removed, vec![value(b"a"), value(b"b")]);
    assert_eq!(map.len(), 1);
    assert!(map.remove(&HeaderName::Accept).is_empty());
    assert_eq!(map.len(), 1);
}

#[test]
fn header_map_clone_holds_the_same() {
    let mut map = HeaderMap::new();
    map.append(HeaderName::CSeq, value(b"1"));
    map.append(HeaderName::try_from(b"X-Ext").unwrap(), value(b"x"));
    let copy = map.clone();
    map.append(HeaderName::CSeq, value(b"2"));
    assert_eq!(copy.len(), 2);
    assert_eq!(values_of(&copy, &HeaderName::CSeq), vec![b"1".to_vec()]);
    assert_eq!(copy.name_at(1).canonical_name(), "X-Ext");
    assert!(HeaderMap::default().is_empty());
}
