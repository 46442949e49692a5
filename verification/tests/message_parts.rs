use rtsp::method::{InvalidMethod, Method};
use rtsp::reason::{InvalidReasonPhrase, ReasonPhrase};
use rtsp::status::{InvalidStatusCode, StatusCode};
use rtsp::uri::{InvalidRequestURI, RequestURIField};
use rtsp::version::{InvalidVersion, Version};

#[test]
fn standardized_methods_are_recognized() {
    let names: [(&[u8], Method); 10] = [
        (b"DESCRIBE", Method::Describe),
        (b"GET_PARAMETER", Method::GetParameter),
        (b"OPTIONS", Method::Options),
        (b"PAUSE", Method::Pause),
        (b"PLAY", Method::Play),
        (b"PLAY_NOTIFY", Method::PlayNotify),
        (b"REDIRECT", Method::Redirect),
        (b"SETUP", Method::Setup),
        (b"SET_PARAMETER", Method::SetParameter),
        (b"TEARDOWN", Method::Teardown),
    ];
    for (name, method) in names.iter() {
        let parsed = Method::try_from(name).unwrap();
        assert_eq!(&parsed, method);
        assert!(!matches!(parsed, Method::Extension(_)));
        assert_eq!(method.as_bytes(), *name);
    }
}

#[test]
fn other_tokens_are_extension_methods() {
    let method = Method::try_from(b"play").unwrap();
    assert!(matches!(method, Method::Extension(_)));
    assert_eq!(method.as_bytes(), b"play");
    assert_ne!(method, Method::Play);
    assert_eq!(method.clone(), method);
    match method {
        Method::Extension(extension) => assert_eq!(extension.as_bytes(), b"play"),
        _ => unreachable!(),
    }
}

#[test]
fn method_must_be_a_token() {
    assert_eq!(Method::try_from(b""), Err(InvalidMethod));
    assert!(Method::try_from(b"GET PARAMETER").is_err());
    assert!(Method::try_from(b"PLAY/1").is_err());
    assert_eq!(InvalidMethod.description(), "invalid RTSP method");
}

#[test]
fn version_is_read_in_exact_spelling() {
    assert_eq!(Version::try_from(b"RTSP/2.0"), Ok(Version::RTSP20));
    assert_eq!(Version::try_from(b"RTSP/1.0"), Ok(Version::RTSP10));
    assert_eq!(Version::try_from(b"rtsp/2.0"), Err(InvalidVersion));
    assert_eq!(Version::try_from(b"RTSP/2.1"), Err(InvalidVersion));
    assert_eq!(Version::try_from(b"HTTP/1.1"), Err(InvalidVersion));
    assert_eq!(Version::try_from(b""), Err(InvalidVersion));
    assert_eq!(Version::default(), Version::RTSP20);
    assert_eq!(Version::RTSP20.as_bytes(), b"RTSP/2.0");
    assert_eq!(Version::RTSP10.as_bytes(), b"RTSP/1.0");
    assert_eq!(InvalidVersion.description(), "invalid RTSP version");
}

#[test]
fn status_code_is_a_number_from_100_to_599() {
    assert_eq!(StatusCode::try_from(200), Ok(StatusCode::OK));
    assert_eq!(StatusCode::try_from(301), Ok(StatusCode::MovedPermanently));
    assert_eq!(StatusCode::try_from(501), Ok(StatusCode::NotImplemented));
    assert_eq!(StatusCode::try_from(100), Ok(StatusCode::Continue));
    assert_eq!(StatusCode::try_from(99), Err(InvalidStatusCode));
    assert_eq!(StatusCode::try_from(600), Err(InvalidStatusCode));
    assert_eq!(StatusCode::try_from(0), Err(InvalidStatusCode));
    assert_eq!(StatusCode::default(), StatusCode::OK);
    assert_eq!(InvalidStatusCode.description(), "invalid RTSP status code");
}

#[test]
fn status_code_that_is_not_standardized_is_an_extension() {
    for code in [101u16, 299, 452, 599].iter() {
        let status = StatusCode::try_from(*code).unwrap();
        assert!(matches!(status, StatusCode::Extension(_)));
        assert_eq!(status.code(), *code);
        assert!(status.canonical_reason().is_none());
        assert!(status.canonical_reason_str().is_none());
    }
}

#[test]
fn every_number_in_range_gives_a_status_code_with_that_number() {
    for code in 100u16..600 {
        assert_eq!(StatusCode::try_from(code).unwrap().code(), code);
    }
}

#[test]
fn standardized_status_codes_have_a_canonical_reason() {
    assert_eq!(StatusCode::OK.canonical_reason_str(), Some("OK"));
    assert_eq!(StatusCode::BadRequest.canonical_reason().unwrap().as_bytes(), b"Bad Request");
    assert_eq!(StatusCode::NotImplemented.canonical_reason_str(), Some("Not Implemented"));
    assert_eq!(StatusCode::SessionNotFound.code(), 454);
    assert_eq!(StatusCode::RequestURITooLong.canonical_reason_str(), Some("Request-URI Too Long"));
    assert_eq!(
        StatusCode::RTSPVersionNotSupported.canonical_reason_str(),
        Some("RTSP Version Not Supported")
    );
}

#[test]
fn reason_phrase_is_printable_text() {
    let reason = ReasonPhrase::try_from(b"Good Response").unwrap();
    assert_eq!(reason.as_bytes(), b"Good Response");
    assert_eq!(reason.clone(), reason);
    assert!(ReasonPhrase::try_from(b"with\ttab").is_ok());
    assert_eq!(ReasonPhrase::try_from(b""), Err(InvalidReasonPhrase));
    assert!(ReasonPhrase::try_from(b"line\r\nbreak").is_err());
    assert!(ReasonPhrase::try_from(b"caf\xc3\xa9").is_err());
    assert_eq!(InvalidReasonPhrase.description(), "invalid RTSP reason phrase");
}

#[test]
fn request_uri_is_a_star_or_an_absolute_rtsp_uri() {
    assert!(matches!(RequestURIField::try_from(b"*"), Ok(RequestURIField::Any)));
    for uri in [
        &b"rtsp://server.com"[..],
        b"rtsps://example.com:554/media?x=1",
        b"RTSP://EXAMPLE.COM/a",
        b"rtspu://[::1]/stream",
    ]
    .iter()
    {
        let parsed = RequestURIField::try_from(uri).unwrap();
        assert!(matches!(parsed, RequestURIField::URI(_)));
        assert_eq!(parsed.as_bytes(), *uri);
        assert_eq!(parsed.clone(), parsed);
    }
    assert_eq!(RequestURIField::Any.as_bytes(), b"*");
}

#[test]
fn request_uri_rejects_other_bytes() {
    for uri in [
        &b""[..],
        b"**",
        b"/media",
        b"http://example.com/",
        b"rtsp:/example.com",
        b"rtsp://",
        b"rtsp:///path",
        b"rtsp://exa mple.com",
        b"rtsp://example.com/\r\n",
        b"rtspx://example.com",
    ]
    .iter()
    {
        assert_eq!(RequestURIField::try_from(uri), Err(InvalidRequestURI), "{:?}", uri);
    }
    assert_eq!(InvalidRequestURI.description(), "invalid RTSP request URI");
}
