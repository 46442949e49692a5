use rtsp::header::types::{ContentLength, CSeq};
use rtsp::header::value::HeaderValue;
use rtsp::header::{HeaderMap, HeaderName, TypedHeaderMap};
use rtsp::method::Method;
use rtsp::request::{BuilderError as RequestBuilderError, Request};
use rtsp::response::{BuilderError as ResponseBuilderError, Response};
use rtsp::status::StatusCode;
use rtsp::uri::RequestURIField;
use rtsp::version::Version;

#[test]
fn request_builder_builds_a_request() {
    let request = Request::builder()
        .method(b"SETUP")
        .uri(b"rtsp://server.com")
        .version(b"RTSP/2.0")
        .header(b"CSeq", b"835")
        .header(b"Session", b"ULExwZCXh2pd0xuFgkgZJW")
        .build(b"body".to_vec())
        .unwrap();
    assert_eq!(request.method(), &Method::Setup);
    assert_eq!(request.uri().as_bytes(), b"rtsp://server.com");
    assert_eq!(request.version(), Version::RTSP20);
    assert_eq!(request.headers().len(), 2);
    assert_eq!(request.headers().get(&HeaderName::CSeq)[0].as_bytes(), b"835");
    assert_eq!(request.body(), &b"body".to_vec());
}

#[test]
fn request_builder_reports_what_is_missing() {
    assert_eq!(Request::builder().build(()).err(), Some(RequestBuilderError::MissingMethod));
    assert_eq!(
        Request::builder().method(b"PLAY").build(()).err(),
        Some(RequestBuilderError::MissingRequestURI)
    );
    assert_eq!(
        Request::builder().uri(b"*").build(()).err(),
        Some(RequestBuilderError::MissingMethod)
    );
}

#[test]
fn request_builder_reports_the_first_error_of_a_setter() {
    assert_eq!(
        Request::builder().method(b"").uri(b"nothing").build(()).err(),
        Some(RequestBuilderError::InvalidMethod)
    );
    assert_eq!(
        Request::builder().method(b"PLAY").uri(b"nothing").build(()).err(),
        Some(RequestBuilderError::InvalidRequestURI)
    );
    assert_eq!(
        Request::builder().method(b"PLAY").uri(b"*").version(b"RTSP/1.0").build(()).err(),
        Some(RequestBuilderError::UnsupportedVersion)
    );
    assert_eq!(
        Request::builder().method(b"PLAY").uri(b"*").version(b"RTSP/3").build(()).err(),
        Some(RequestBuilderError::InvalidVersion)
    );
    assert_eq!(
        Request::builder().method(b"PLAY").uri(b"*").header(b"bad name", b"x").build(()).err(),
        Some(RequestBuilderError::InvalidHeaderName)
    );
    assert_eq!(
        Request::builder().method(b"PLAY").uri(b"*").header(b"Name", b"\x00").build(()).err(),
        Some(RequestBuilderError::InvalidHeaderValue)
    );
}

#[test]
fn request_builder_is_reset_by_a_build() {
    let mut builder = Request::builder();
    builder.method(b"PLAY").uri(b"rtsp://server.com").header(b"CSeq", b"1");
    assert!(builder.build(()).is_ok());
    assert_eq!(builder.build(()).err(), Some(RequestBuilderError::MissingMethod));
    builder.method(b"PAUSE").uri(b"rtsp://server.com");
    let second = builder.build(()).unwrap();
    assert_eq!(second.headers().len(), 0);
    assert_eq!(second.method(), &Method::Pause);
}

#[test]
fn request_builder_keeps_a_stored_error() {
    let mut builder = Request::builder();
    builder.method(b"PLAY").uri(b"bad");
    assert_eq!(builder.build(()).err(), Some(RequestBuilderError::InvalidRequestURI));
    builder.uri(b"rtsp://server.com");
    assert_eq!(builder.build(()).err(), Some(RequestBuilderError::InvalidRequestURI));
}

#[test]
fn request_shortcuts_set_method_and_uri() {
    let cases: Vec<(Request<()>, Method)> = vec![
        (Request::describe(b"rtsp://s/a").build(()).unwrap(), Method::Describe),
        (Request::get_parameter(b"rtsp://s/a").build(()).unwrap(), Method::GetParameter),
        (Request::options(b"*").build(()).unwrap(), Method::Options),
        (Request::pause(b"rtsp://s/a").build(()).unwrap(), Method::Pause),
        (Request::play(b"rtsp://s/a").build(()).unwrap(), Method::Play),
        (Request::play_notify(b"rtsp://s/a").build(()).unwrap(), Method::PlayNotify),
        (Request::redirect(b"rtsp://s/a").build(()).unwrap(), Method::Redirect),
        (Request::set_parameter(b"rtsp://s/a").build(()).unwrap(), Method::SetParameter),
        (Request::setup(b"rtsp://s/a").build(()).unwrap(), Method::Setup),
        (Request::teardown(b"rtsp://s/a").build(()).unwrap(), Method::Teardown),
    ];
    for (request, method) in cases.iter() {
        assert_eq!(request.method(), method);
    }
    assert!(matches!(cases[2].0.uri(), RequestURIField::Any));
    assert_eq!(
        Request::describe(b"nothing").build(()).err(),
        Some(RequestBuilderError::InvalidRequestURI)
    );
}

#[test]
fn request_can_be_changed_and_mapped() {
    let mut request = Request::play(b"rtsp://s/a").build(1u32).unwrap();
    *request.body_mut() += 1;
    *request.method_mut() = Method::Pause;
    *request.uri_mut() = RequestURIField::Any;
    *request.version_mut() = Version::RTSP10;
    request.headers_mut().append(HeaderName::CSeq, HeaderValue::try_from(b"9").unwrap());
    let mapped = request.map(|body| body.to_string());
    assert_eq!(mapped.body(), "2");
    assert_eq!(mapped.method(), &Method::Pause);
    assert_eq!(mapped.version(), Version::RTSP10);
    let (method, uri, version, headers, body) = mapped.into_parts();
    assert_eq!(method, Method::Pause);
    assert_eq!(uri, RequestURIField::Any);
    let again = Request::from_parts(method, uri, version, headers, body);
    assert_eq!(again.headers().len(), 1);
}

#[test]
fn typed_request_builder_sets_headers_by_value() {
    let request = Request::typed_builder()
        .method(b"PLAY")
        .uri(b"rtsp://server.com")
        .header(ContentLength::try_from(5).unwrap())
        .header(ContentLength::try_from(6).unwrap())
        .header_raw(HeaderName::CSeq, vec![HeaderValue::try_from(b"3").unwrap()])
        .build(())
        .unwrap();
    assert_eq!(request.headers().get::<ContentLength>().unwrap().unwrap().value(), 6);
    assert_eq!(request.headers().get::<CSeq>().unwrap().unwrap().value(), 3);
    let untyped: Request<(), HeaderMap> = request.into_untyped();
    assert_eq!(untyped.headers().len(), 2);
    let typed: Request<(), TypedHeaderMap> = untyped.into_typed();
    assert_eq!(typed.headers().get_raw(&HeaderName::ContentLength)[0].as_bytes(), b"6");
}

#[test]
fn request_builders_convert_both_ways() {
    let mut builder = Request::builder();
    builder.method(b"PLAY").uri(b"*").header(b"CSeq", b"1");
    let mut typed = builder.into_typed();
    typed.header(ContentLength::try_from(2).unwrap());
    let mut untyped = typed.into_untyped();
    let request = untyped.build(()).unwrap();
    assert_eq!(request.headers().len(), 2);
    assert_eq!(request.headers().name_at(0), &HeaderName::CSeq);
}

#[test]
fn request_builder_error_describes_itself() {
    assert_eq!(RequestBuilderError::InvalidHeaderName.description(), "invalid RTSP header name");
    assert_eq!(RequestBuilderError::InvalidHeaderValue.description(), "invalid RTSP header value");
    assert_eq!(RequestBuilderError::InvalidMethod.description(), "invalid RTSP method");
    assert_eq!(RequestBuilderError::InvalidRequestURI.description(), "invalid RTSP request URI");
    assert_eq!(RequestBuilderError::InvalidVersion.description(), "invalid RTSP version");
    assert_eq!(RequestBuilderError::MissingMethod.description(), "missing RTSP method");
    assert_eq!(RequestBuilderError::MissingRequestURI.description(), "missing RTSP request URI");
    assert_eq!(RequestBuilderError::UnsupportedVersion.description(), "unsupported RTSP version");
}

#[test]
fn response_builder_defaults_to_200_ok() {
    let response = Response::builder().build(()).unwrap();
    assert_eq!(response.status_code(), StatusCode::OK);
    assert_eq!(response.reason().as_bytes(), b"OK");
    assert_eq!(response.version(), Version::RTSP20);
    assert_eq!(response.headers().len(), 0);
}

#[test]
fn response_builder_uses_the_canonical_reason_of_a_standardized_status_code() {
    let response = Response::builder()
        .status_code(301)
        .header(b"Location", b"rtsp://example.com/resource")
        .build(())
        .unwrap();
    assert_eq!(response.status_code(), StatusCode::MovedPermanently);
    assert_eq!(response.reason().as_bytes(), b"Moved Permanently");
    let response =
        Response::builder().status_code(200).reason(Some(b"Good Response")).build(()).unwrap();
    assert_eq!(response.reason().as_bytes(), b"OK");
}

#[test]
fn response_builder_needs_a_reason_for_an_extension_status_code() {
    assert_eq!(
        Response::builder().status_code(299).build(()).err(),
        Some(ResponseBuilderError::MissingReasonPhrase)
    );
    let mut builder = Response::builder();
    builder.status_code(299).reason(Some(b"Nearly")).reason(None);
    assert_eq!(builder.build(()).err(), Some(ResponseBuilderError::MissingReasonPhrase));
    builder.reason(Some(b"Nearly"));
    let response = builder.build(()).unwrap();
    assert_eq!(response.status_code().code(), 299);
    assert_eq!(response.reason().as_bytes(), b"Nearly");
    assert_eq!(builder.build(()).err(), Some(ResponseBuilderError::MissingReasonPhrase));
}

#[test]
fn response_builder_reports_the_first_error_of_a_setter() {
    assert_eq!(
        Response::builder().status_code(99).reason(Some(b"")).build(()).err(),
        Some(ResponseBuilderError::InvalidStatusCode)
    );
    assert_eq!(
        Response::builder().reason(Some(b"\r\n")).build(()).err(),
        Some(ResponseBuilderError::InvalidReasonPhrase)
    );
    assert_eq!(
        Response::builder().version(b"RTSP/1.0").build(()).err(),
        Some(ResponseBuilderError::UnsupportedVersion)
    );
    assert_eq!(
        Response::builder().version(b"1.0").build(()).err(),
        Some(ResponseBuilderError::InvalidVersion)
    );
    assert_eq!(
        Response::builder().header(b"", b"x").build(()).err(),
        Some(ResponseBuilderError::InvalidHeaderName)
    );
    assert_eq!(
        Response::builder().header(b"X", b"a\r\nb").build(()).err(),
        Some(ResponseBuilderError::InvalidHeaderValue)
    );
}

#[test]
fn typed_response_builder_sets_raw_and_typed_headers() {
    let response = Response::typed_builder()
        .status_code(200)
        .header(CSeq::try_from(4).unwrap())
        .header_raw(b"Content-Length", vec![b"5".to_vec()])
        .header_raw(b"Content-Length", vec![b"7".to_vec()])
        .build(())
        .unwrap();
    assert_eq!(response.headers().get::<ContentLength>().unwrap().unwrap().value(), 7);
    assert_eq!(response.headers().get::<CSeq>().unwrap().unwrap().value(), 4);
    assert_eq!(
        Response::typed_builder().header_raw(b"bad name", vec![]).build(()).err(),
        Some(ResponseBuilderError::InvalidHeaderName)
    );
    assert_eq!(
        Response::typed_builder()
            .header_raw(b"Accept", vec![b"ok".to_vec(), b"\x01".to_vec()])
            .build(())
            .err(),
        Some(ResponseBuilderError::InvalidHeaderValue)
    );
    let removed = Response::typed_builder()
        .header_raw(b"Accept", vec![b"a".to_vec()])
        .header_raw(b"accept", vec![])
        .build(())
        .unwrap();
    assert_eq!(removed.into_untyped().headers().len(), 0);
}

#[test]
fn response_can_be_changed_and_mapped() {
    let mut response = Response::builder().build(vec![1u8]).unwrap();
    response.body_mut().push(2);
    *response.status_code_mut() = StatusCode::NotFound;
    *response.reason_mut() = rtsp::reason::ReasonPhrase::try_from(b"Gone Fishing").unwrap();
    *response.version_mut() = Version::RTSP10;
    response.headers_mut().append(HeaderName::Server, HeaderValue::try_from(b"x").unwrap());
    let mapped = response.map(|body| body.len());
    assert_eq!(*mapped.body(), 2);
    assert_eq!(mapped.status_code(), StatusCode::NotFound);
    assert_eq!(mapped.reason().as_bytes(), b"Gone Fishing");
    assert_eq!(mapped.version(), Version::RTSP10);
    let typed = mapped.into_typed();
    assert_eq!(typed.headers().get_raw(&HeaderName::Server).len(), 1);
    let (version, status, reason, headers, body) = typed.into_untyped().into_parts();
    let again = Response::from_parts(version, status, reason, headers, body);
    assert_eq!(again.headers().len(), 1);
}

#[test]
fn response_builders_convert_both_ways() {
    let mut builder = Response::builder();
    builder.status_code(404).header(b"CSeq", b"1");
    let mut typed = builder.into_typed();
    typed.header(ContentLength::try_from(2).unwrap());
    let response = typed.into_untyped().build(()).unwrap();
    assert_eq!(response.headers().len(), 2);
    assert_eq!(response.status_code(), StatusCode::NotFound);
}

#[test]
fn response_builder_error_describes_itself() {
    assert_eq!(ResponseBuilderError::InvalidHeaderName.description(), "invalid RTSP header name");
    assert_eq!(ResponseBuilderError::InvalidHeaderValue.description(), "invalid RTSP header value");
    assert_eq!(ResponseBuilderError::InvalidReasonPhrase.description(), "invalid RTSP reason phrase");
    assert_eq!(ResponseBuilderError::InvalidStatusCode.description(), "invalid RTSP status code");
    assert_eq!(ResponseBuilderError::InvalidVersion.description(), "invalid RTSP version");
    assert_eq!(ResponseBuilderError::MissingReasonPhrase.description(), "missing RTSP reason phrase");
    assert_eq!(ResponseBuilderError::UnsupportedVersion.description(), "unsupported RTSP version");
}
