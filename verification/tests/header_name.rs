use std::collections::hash_map::DefaultHasher;
use std::hash::{Hash, Hasher};

use rtsp::header::{HeaderName, InvalidHeaderName};

fn hash_of(name: &HeaderName) -> u64 {
    let mut hasher = DefaultHasher::new();
    name.hash(&mut hasher);
    hasher.finish()
}

#[test]
fn standard_name_is_recognized_in_any_case() {
    let content_length = HeaderName::try_from(&b"Content-Length"[..]).unwrap();
    assert_eq!(content_length, HeaderName::ContentLength);

    let referrer = HeaderName::try_from(&b"ReFeRrEr"[..]).unwrap();
    assert_eq!(referrer, HeaderName::Referrer);
    assert_eq!(referrer.as_str(), "referrer");
    assert_eq!(referrer.canonical_name(), "Referrer");
}

#[test]
fn extension_name_keeps_its_spelling() {
    let extension = HeaderName::try_from(&b"ExTeNsIoN"[..]).unwrap();
    assert_eq!(extension.as_str(), "extension");
    assert_eq!(extension.canonical_name(), "ExTeNsIoN");
    match extension {
        HeaderName::Extension(inner) => {
            assert_eq!(inner.as_str(), "extension");
            assert_eq!(inner.canonical_name(), "ExTeNsIoN");
        }
        _ => panic!("expected extension header name"),
    }
}

#[test]
fn empty_name_is_rejected() {
    assert_eq!(HeaderName::try_from(&b""[..]), Err(InvalidHeaderName));
}

#[test]
fn name_with_a_byte_that_is_no_token_character_is_rejected() {
    assert!(HeaderName::try_from(&b"Content Length"[..]).is_err());
    assert!(HeaderName::try_from(&b"Content:"[..]).is_err());
    assert!(HeaderName::try_from(&b"caf\xc3\xa9"[..]).is_err());
}

#[test]
fn name_longer_than_the_limit_is_rejected() {
    let longest = vec![b'a'; 128];
    assert!(HeaderName::try_from(&longest[..]).is_ok());
    let too_long = vec![b'a'; 129];
    assert!(HeaderName::try_from(&too_long[..]).is_err());
}

#[test]
fn names_that_differ_in_case_are_equal_and_hash_alike() {
    let spellings: [&[u8]; 4] = [b"x-custom-header", b"cseq", b"Proxy-Authentication-Info", b"a!#$%&'*+-.^_`|~z"];
    for spelling in spellings.iter() {
        let upper = spelling.to_ascii_uppercase();
        let a = HeaderName::try_from(spelling).unwrap();
        let b = HeaderName::try_from(&upper[..]).unwrap();
        assert_eq!(a, b);
        assert_eq!(hash_of(&a), hash_of(&b));
    }
}

#[test]
fn name_compares_with_a_string_ignoring_case() {
    let name = HeaderName::try_from(&b"eXtEnSiOn"[..]).unwrap();
    assert!(name.eq_str("exTENSION"));
    assert!(!name.eq_str("extensions"));
    assert!(HeaderName::CSeq.eq_str("CSEQ"));
}

#[test]
fn different_names_are_not_equal() {
    assert_ne!(HeaderName::Accept, HeaderName::AcceptRanges);
    let a = HeaderName::try_from(&b"x-one"[..]).unwrap();
    let b = HeaderName::try_from(&b"x-two"[..]).unwrap();
    assert_ne!(a, b);
    assert_eq!(a.clone(), a);
}

#[test]
fn invalid_header_name_describes_itself() {
    assert_eq!(InvalidHeaderName.description(), "invalid RTSP header name");
}

#[test]
fn name_is_made_of_a_string_as_of_its_bytes() {
    assert_eq!(HeaderName::try_from_str("cseq"), Ok(HeaderName::CSeq));
    assert_eq!(HeaderName::try_from_str("X-Ext").unwrap().canonical_bytes(), b"X-Ext");
    assert_eq!(HeaderName::try_from_str("X-Ext").unwrap().as_bytes(), b"x-ext");
    assert_eq!(HeaderName::try_from_str("two words"), Err(InvalidHeaderName));
}

#[test]
fn every_standardized_name_is_found_by_both_of_its_spellings() {
    let names = [
        HeaderName::Accept,
        HeaderName::AcceptCredentials,
        HeaderName::CSeq,
        HeaderName::ContentLength,
        HeaderName::IfModifiedSince,
        HeaderName::MTag,
        HeaderName::ProxyAuthenticationInfo,
        HeaderName::RTPInfo,
        HeaderName::Via,
        HeaderName::WWWAuthenticate,
    ];
    for name in names.iter() {
        assert_eq!(HeaderName::try_from_str(name.as_str()).as_ref(), Ok(name));
        assert_eq!(HeaderName::try_from_str(name.canonical_name()).as_ref(), Ok(name));
        assert_eq!(name.canonical_name().to_ascii_lowercase(), name.as_str());
        assert!(!matches!(name, HeaderName::Extension(_)));
    }
}
