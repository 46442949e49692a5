use rtsp::header::typed_map::typed_header;
use rtsp::header::types::{ContentLength, CSeq, Public, Session, MAX_CONTENT_LENGTH, MAX_CSEQ};
use rtsp::header::value::HeaderValue;
use rtsp::header::{HeaderMap, HeaderName, InvalidTypedHeader, TypedHeader, TypedHeaderMap};
use rtsp::method::Method;

fn value(bytes: &[u8]) -> HeaderValue {
    HeaderValue::try_from(bytes).unwrap()
}

fn raw(values: &[HeaderValue]) -> Vec<Vec<u8>> {
    values.iter().map(|v| v.as_bytes().to_vec()).collect()
}

#[test]
fn content_length_is_written_as_digits() {
    let typed_header = ContentLength::try_from(10).unwrap();
    let raw_header = vec![value(b"10")];
    assert_eq!(typed_header.to_header_raw(), raw_header);
    assert_eq!(ContentLength::header_name(), HeaderName::ContentLength);
    assert_eq!(typed_header.value(), 10);
    assert_eq!(*typed_header, 10);
}

#[test]
fn content_length_defaults_to_zero_without_a_value() {
    let typed_header = ContentLength::try_from(0).unwrap();
    let raw_header: Vec<HeaderValue> = vec![];
    assert_eq!(ContentLength::try_from_header_raw(&raw_header).unwrap(), typed_header);
    assert_eq!(ContentLength::default(), typed_header);
}

#[test]
fn content_length_is_read_from_digits() {
    let typed_header = ContentLength::try_from(10).unwrap();
    assert_eq!(ContentLength::try_from_header_raw(&[value(b"10")]).unwrap(), typed_header);
    assert_eq!(ContentLength::try_from_header_raw(&[value(b" \t10  ")]).unwrap(), typed_header);
    assert_eq!(ContentLength::try_from_header_raw(&[value(b"0010")]).unwrap(), typed_header);
}

#[test]
fn content_length_rejects_what_is_no_number() {
    assert!(ContentLength::try_from_header_raw(&[value(b"invalid content length")]).is_err());
    assert!(ContentLength::try_from_header_raw(&[value(b"")]).is_err());
    assert!(ContentLength::try_from_header_raw(&[value(b"+10")]).is_err());
    assert!(ContentLength::try_from_header_raw(&[value(b"-1")]).is_err());
    assert!(ContentLength::try_from_header_raw(&[value(b"1 0")]).is_err());
    assert_eq!(
        ContentLength::try_from_header_raw(&[value(b"12345678901234567890")]),
        Err(InvalidTypedHeader)
    );
}

#[test]
fn content_length_rejects_more_than_one_value() {
    assert!(ContentLength::try_from_header_raw(&[value(b"1"), value(b"1")]).is_err());
}

#[test]
fn content_length_has_a_maximum() {
    assert_eq!(MAX_CONTENT_LENGTH, 9_999_999_999_999_999_999);
    if usize::MAX as u64 > MAX_CONTENT_LENGTH {
        assert!(ContentLength::try_from(MAX_CONTENT_LENGTH as usize).is_ok());
        assert!(ContentLength::try_from(MAX_CONTENT_LENGTH as usize + 1).is_err());
        let largest = ContentLength::try_from_header_raw(&[value(b"9999999999999999999")]);
        assert_eq!(largest.unwrap().value() as u64, MAX_CONTENT_LENGTH);
    }
}

#[test]
fn content_length_round_trip() {
    for length in [0usize, 1, 9, 10, 4096, 65535, 1_000_000_007].iter() {
        let header = ContentLength::try_from(*length).unwrap();
        assert_eq!(ContentLength::try_from_header_raw(&header.to_header_raw()), Ok(header));
    }
}

#[test]
fn cseq_is_read_and_written_as_digits() {
    let header = CSeq::try_from(835).unwrap();
    assert_eq!(raw(&header.to_header_raw()), vec![b"835".to_vec()]);
    assert_eq!(CSeq::try_from_header_raw(&[value(b" 835 ")]), Ok(header));
    assert_eq!(CSeq::header_name(), HeaderName::CSeq);
    assert_eq!(header.value(), 835);
    assert_eq!(*header, 835);
    assert!(CSeq::try_from_header_raw(&[value(b"0")]).is_ok());
}

#[test]
fn cseq_has_nine_digits_at_most() {
    assert_eq!(MAX_CSEQ, 999_999_999);
    assert!(CSeq::try_from(MAX_CSEQ).is_ok());
    assert_eq!(CSeq::try_from(MAX_CSEQ + 1), Err(InvalidTypedHeader));
    assert_eq!(CSeq::try_from_header_raw(&[value(b"999999999")]).unwrap().value(), MAX_CSEQ);
    assert!(CSeq::try_from_header_raw(&[value(b"1000000000")]).is_err());
}

#[test]
fn cseq_needs_exactly_one_value() {
    assert!(CSeq::try_from_header_raw(&[]).is_err());
    assert!(CSeq::try_from_header_raw(&[value(b"1"), value(b"2")]).is_err());
    assert!(CSeq::try_from_header_raw(&[value(b"one")]).is_err());
}

#[test]
fn cseq_round_trip() {
    for number in [0u32, 1, 7, 10, 99, 100, 999_999_999].iter() {
        let header = CSeq::try_from(*number).unwrap();
        assert_eq!(CSeq::try_from_header_raw(&header.to_header_raw()), Ok(header));
    }
}

#[test]
fn session_is_an_identifier_with_an_optional_timeout() {
    let plain = Session::try_from(b"ULExwZCXh2pd0xuFgkgZJW", None).unwrap();
    assert_eq!(raw(&plain.to_header_raw()), vec![b"ULExwZCXh2pd0xuFgkgZJW".to_vec()]);
    let timed = Session::try_from(b"abc", Some(60)).unwrap();
    assert_eq!(raw(&timed.to_header_raw()), vec![b"abc;timeout=60".to_vec()]);
    assert_eq!(timed.id(), b"abc");
    assert_eq!(timed.timeout(), Some(60));
    assert_eq!(Session::header_name(), HeaderName::Session);
}

#[test]
fn session_is_read_from_one_value() {
    let read = Session::try_from_header_raw(&[value(b" abc;timeout=60 ")]).unwrap();
    assert_eq!(read.id(), b"abc");
    assert_eq!(read.timeout(), Some(60));
    let read = Session::try_from_header_raw(&[value(b"abc")]).unwrap();
    assert_eq!(read.id(), b"abc");
    assert_eq!(read.timeout(), None);
}

#[test]
fn session_rejects_what_does_not_follow_its_grammar() {
    assert!(Session::try_from_header_raw(&[]).is_err());
    assert!(Session::try_from_header_raw(&[value(b"a"), value(b"b")]).is_err());
    assert!(Session::try_from_header_raw(&[value(b"")]).is_err());
    assert!(Session::try_from_header_raw(&[value(b"two words")]).is_err());
    assert!(Session::try_from_header_raw(&[value(b"abc;")]).is_err());
    assert!(Session::try_from_header_raw(&[value(b"abc;timeout=")]).is_err());
    assert!(Session::try_from_header_raw(&[value(b"abc;timeout=x")]).is_err());
    assert!(Session::try_from_header_raw(&[value(b"abc;other=1")]).is_err());
    assert!(Session::try_from_header_raw(&[value(b"abc;timeout=12345678901234567890")]).is_err());
    assert!(Session::try_from(b"", None).is_err());
    assert!(Session::try_from(b"a b", None).is_err());
    assert!(Session::try_from(&vec![b'a'; 257][..], None).is_err());
    assert!(Session::try_from(b"abc", Some(10_000_000_000_000_000_000)).is_err());
}

#[test]
fn session_round_trip() {
    let cases: [(&[u8], Option<u64>); 4] =
        [(b"abc", None), (b"abc", Some(0)), (b"x-1_2", Some(9_999_999_999_999_999_999)), (b"!", Some(60))];
    for (id, timeout) in cases.iter() {
        let header = Session::try_from(id, *timeout).unwrap();
        let read = Session::try_from_header_raw(&header.to_header_raw()).unwrap();
        assert_eq!(read.id(), *id);
        assert_eq!(read.timeout(), *timeout);
    }
}

#[test]
fn public_lists_methods_once_each() {
    let read = Public::try_from_header_raw(&[value(b"OPTIONS, DESCRIBE ,PLAY"), value(b"PLAY,SETUP")])
        .unwrap();
    let names: Vec<Vec<u8>> = read.methods().iter().map(|m| m.as_bytes().to_vec()).collect();
    assert_eq!(
        names,
        vec![b"OPTIONS".to_vec(), b"DESCRIBE".to_vec(), b"PLAY".to_vec(), b"SETUP".to_vec()]
    );
    assert!(read.contains(&Method::Play));
    assert!(!read.contains(&Method::Teardown));
    assert_eq!(Public::header_name(), HeaderName::Public);
}

#[test]
fn public_rejects_what_does_not_follow_its_grammar() {
    assert_eq!(Public::try_from_header_raw(&[]).err(), Some(InvalidTypedHeader));
    assert!(Public::try_from_header_raw(&[value(b"")]).is_err());
    assert!(Public::try_from_header_raw(&[value(b"PLAY,")]).is_err());
    assert!(Public::try_from_header_raw(&[value(b"PLAY,,PAUSE")]).is_err());
    assert!(Public::try_from_header_raw(&[value(b"PLAY PAUSE")]).is_err());
    assert!(Public::try_from(vec![]).is_err());
    assert!(Public::try_from(vec![Method::Play, Method::Play]).is_err());
}

#[test]
fn public_round_trip() {
    let header = Public::try_from(vec![
        Method::Options,
        Method::try_from(b"X-CUSTOM").unwrap(),
        Method::SetParameter,
    ])
    .unwrap();
    let written = header.to_header_raw();
    assert_eq!(raw(&written), vec![b"OPTIONS".to_vec(), b"X-CUSTOM".to_vec(), b"SET_PARAMETER".to_vec()]);
    let read = Public::try_from_header_raw(&written).unwrap();
    assert_eq!(read.methods(), header.methods());
}

#[test]
fn typed_header_of_a_map_is_absent_or_present_or_wrong() {
    let mut map = HeaderMap::new();
    assert_eq!(typed_header::<CSeq>(&map), Ok(None));
    assert_eq!(typed_header::<ContentLength>(&map), Ok(Some(ContentLength::default())));
    map.append(HeaderName::CSeq, value(b"7"));
    assert_eq!(typed_header::<CSeq>(&map), Ok(Some(CSeq::try_from(7).unwrap())));
    map.append(HeaderName::CSeq, value(b"8"));
    assert_eq!(typed_header::<CSeq>(&map), Err(InvalidTypedHeader));
    map.append(HeaderName::ContentLength, value(b"x"));
    assert!(typed_header::<ContentLength>(&map).is_err());
    assert_eq!(InvalidTypedHeader.description(), "invalid RTSP typed header");
}

#[test]
fn typed_header_map_sets_by_value_and_converts_both_ways() {
    let mut typed = TypedHeaderMap::new();
    typed.set(ContentLength::try_from(5).unwrap());
    typed.set(CSeq::try_from(3).unwrap());
    typed.set(ContentLength::try_from(6).unwrap());
    typed.set_raw(HeaderName::Accept, vec![value(b"a"), value(b"b")]);
    assert_eq!(typed.get::<ContentLength>(), Ok(Some(ContentLength::try_from(6).unwrap())));
    assert_eq!(typed.get::<CSeq>(), Ok(Some(CSeq::try_from(3).unwrap())));
    assert!(typed.get::<Session>().unwrap().is_none());
    assert_eq!(typed.get_raw(&HeaderName::Accept).len(), 2);
    let untyped = typed.clone().into_untyped();
    assert_eq!(untyped.len(), 3);
    assert_eq!(untyped.name_at(0), &HeaderName::ContentLength);
    assert_eq!(untyped.get(&HeaderName::ContentLength), &[value(b"6")][..]);
    let back = TypedHeaderMap::from_untyped(untyped);
    assert_eq!(back.get::<CSeq>(), typed.get::<CSeq>());
    assert!(TypedHeaderMap::default().get_raw(&HeaderName::CSeq).is_empty());
}
