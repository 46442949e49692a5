use rtsp::header::{HeaderMap, HeaderName};
use rtsp::method::Method;
use rtsp::protocol::{
    decode, encode, encode_request, encode_response, DecodeError, DecodeResult, DecodeState,
    Decoder, Message,
};
use rtsp::request::Request;
use rtsp::response::Response;
use rtsp::status::StatusCode;

fn request_bytes(request: &Request<Vec<u8>>) -> Vec<u8> {
    let mut out = Vec::new();
    encode_request(request, &mut out).unwrap();
    out
}

fn response_bytes(response: &Response<Vec<u8>>) -> Vec<u8> {
    let mut out = Vec::new();
    encode_response(response, &mut out).unwrap();
    out
}

fn complete(bytes: &[u8]) -> (Message, usize) {
    match decode(bytes, usize::MAX) {
        DecodeResult::Complete(message, taken) => (message, taken),
        other => panic!("no complete message: {:?}", other),
    }
}

fn invalid(bytes: &[u8]) -> DecodeError {
    match decode(bytes, usize::MAX) {
        DecodeResult::Invalid(error) => error,
        other => panic!("no error: {:?}", other),
    }
}

fn incomplete(bytes: &[u8]) -> DecodeState {
    match decode(bytes, usize::MAX) {
        DecodeResult::Incomplete(state) => state,
        other => panic!("not incomplete: {:?}", other),
    }
}

fn headers_of(map: &HeaderMap) -> Vec<(String, Vec<u8>)> {
    let mut all = Vec::new();
    for i in 0..map.len() {
        for value in map.values_at(i) {
            all.push((map.name_at(i).canonical_name().to_string(), value.as_bytes().to_vec()));
        }
    }
    all
}

#[test]
fn request_is_written_as_request_line_headers_and_body() {
    let request = Request::describe(b"rtsp://example.com/media")
        .header(b"CSeq", b"1")
        .header(b"accept", b"application/sdp")
        .header(b"Accept", b"text/plain")
        .header(b"X-Ext", b"v")
        .build(b"hello".to_vec())
        .unwrap();
    assert_eq!(
        request_bytes(&request),
        b"DESCRIBE rtsp://example.com/media RTSP/2.0\r\n\
          CSeq: 1\r\n\
          Accept: application/sdp\r\n\
          Accept: text/plain\r\n\
          X-Ext: v\r\n\
          Content-Length: 5\r\n\
          \r\n\
          hello"
            .to_vec()
    );
}

#[test]
fn response_is_written_as_status_line_headers_and_body() {
    let response = Response::builder().status_code(404).header(b"CSeq", b"7").build(vec![]).unwrap();
    assert_eq!(
        response_bytes(&response),
        b"RTSP/2.0 404 Not Found\r\nCSeq: 7\r\nContent-Length: 0\r\n\r\n".to_vec()
    );
    let custom = Response::builder().status_code(299).reason(Some(b"Nearly")).build(b"x".to_vec()).unwrap();
    assert_eq!(response_bytes(&custom), b"RTSP/2.0 299 Nearly\r\nContent-Length: 1\r\n\r\nx".to_vec());
}

#[test]
fn content_length_is_forced_to_the_length_of_the_body() {
    let response =
        Response::builder().status_code(200).header(b"Content-Length", b"17").build(b"ab".to_vec()).unwrap();
    assert_eq!(response_bytes(&response), b"RTSP/2.0 200 OK\r\nContent-Length: 2\r\n\r\nab".to_vec());
}

#[test]
fn content_length_replaces_every_value_that_the_message_holds() {
    let request = Request::play(b"rtsp://s/a")
        .header(b"content-length", b"999")
        .header(b"CSeq", b"2")
        .header(b"Content-Length", b"998")
        .build(b"12345".to_vec())
        .unwrap();
    let wire = request_bytes(&request);
    assert_eq!(
        wire,
        b"PLAY rtsp://s/a RTSP/2.0\r\nContent-Length: 5\r\nCSeq: 2\r\n\r\n12345".to_vec()
    );
    let text = String::from_utf8(wire).unwrap().to_ascii_lowercase();
    assert_eq!(text.matches("content-length").count(), 1);
    assert!(text.contains("content-length: 5\r\n"));
}

#[test]
fn encode_appends_to_the_buffer() {
    let response = Response::builder().build(vec![]).unwrap();
    let mut out = b"before".to_vec();
    encode(&Message::Response(response), &mut out).unwrap();
    assert_eq!(out, b"beforeRTSP/2.0 200 OK\r\nContent-Length: 0\r\n\r\n".to_vec());
}

#[test]
fn request_is_read_from_the_wire() {
    let wire = b"OPTIONS * RTSP/2.0\r\nCSeq: 7\r\nX-Ext:  padded \t\r\n\r\nrest";
    let (message, taken) = complete(wire);
    assert_eq!(taken, wire.len() - 4);
    match message {
        Message::Request(request) => {
            assert_eq!(request.method(), &Method::Options);
            assert_eq!(request.uri().as_bytes(), b"*");
            assert_eq!(
                headers_of(request.headers()),
                vec![("CSeq".to_string(), b"7".to_vec()), ("X-Ext".to_string(), b"padded".to_vec())]
            );
            assert!(request.body().is_empty());
        }
        other => panic!("no request: {:?}", other),
    }
}

#[test]
fn response_is_read_from_the_wire() {
    let wire = b"RTSP/2.0 200 OK\r\ncseq: 1\r\nContent-Length: 3\r\n\r\nabcdef";
    let (message, taken) = complete(wire);
    assert_eq!(taken, wire.len() - 3);
    match message {
        Message::Response(response) => {
            assert_eq!(response.status_code(), StatusCode::OK);
            assert_eq!(response.reason().as_bytes(), b"OK");
            assert_eq!(response.headers().name_at(0), &HeaderName::CSeq);
            assert_eq!(response.body(), &b"abc".to_vec());
        }
        other => panic!("no response: {:?}", other),
    }
}

#[test]
fn reason_of_a_standardized_status_code_is_the_canonical_one() {
    let (message, _) = complete(b"RTSP/2.0 404 Nope, Sorry\r\n\r\n");
    match message {
        Message::Response(response) => assert_eq!(response.reason().as_bytes(), b"Not Found"),
        other => panic!("no response: {:?}", other),
    }
    let (message, _) = complete(b"RTSP/2.0 299 Nearly There\r\n\r\n");
    match message {
        Message::Response(response) => {
            assert_eq!(response.status_code().code(), 299);
            assert_eq!(response.reason().as_bytes(), b"Nearly There");
        }
        other => panic!("no response: {:?}", other),
    }
}

#[test]
fn folded_header_lines_are_joined_with_one_space() {
    let wire = b"PLAY rtsp://s/a RTSP/2.0\r\nX-Long: first\r\n \t second  \r\n\tthird\r\nCSeq: 1\r\n\r\n";
    let (message, _) = complete(wire);
    match message {
        Message::Request(request) => assert_eq!(
            headers_of(request.headers()),
            vec![
                ("X-Long".to_string(), b"first second third".to_vec()),
                ("CSeq".to_string(), b"1".to_vec())
            ]
        ),
        other => panic!("no request: {:?}", other),
    }
    let (message, _) = complete(b"PLAY rtsp://s/a RTSP/2.0\r\nX-Empty:\r\n value\r\n \r\n\r\n");
    match message {
        Message::Request(request) => {
            assert_eq!(headers_of(request.headers()), vec![("X-Empty".to_string(), b"value".to_vec())])
        }
        other => panic!("no request: {:?}", other),
    }
}

#[test]
fn round_trip_of_requests() {
    let requests = vec![
        Request::options(b"*").header(b"CSeq", b"1").build(vec![]).unwrap(),
        Request::setup(b"rtsp://example.com:554/a?b=c")
            .header(b"Accept", b"a")
            .header(b"X-Custom-Name", b"two words")
            .header(b"Accept", b"b;q=1")
            .header(b"Content-Length", b"0")
            .build(b"\r\n\r\nbody with line breaks\r\n".to_vec())
            .unwrap(),
        Request::builder().method(b"X-METHOD").uri(b"rtsps://h").build(vec![0, 255, 13, 10]).unwrap(),
    ];
    for request in requests {
        let mut wire = request_bytes(&request);
        let length = wire.len();
        wire.extend_from_slice(b"RTSP/2.0 200");
        let (message, taken) = complete(&wire);
        assert_eq!(taken, length);
        match message {
            Message::Request(read) => {
                assert_eq!(read.method(), request.method());
                assert_eq!(read.uri(), request.uri());
                assert_eq!(read.version(), request.version());
                assert_eq!(read.body(), request.body());
                let mut expected = request.headers().clone();
                expected.set(
                    HeaderName::ContentLength,
                    vec![rtsp::header::value::HeaderValue::try_from(
                        request.body().len().to_string().as_bytes(),
                    )
                    .unwrap()],
                );
                assert_eq!(headers_of(read.headers()), headers_of(&expected));
                assert_eq!(request_bytes(&read), wire[..length].to_vec());
            }
            other => panic!("no request: {:?}", other),
        }
    }
}

#[test]
fn round_trip_of_responses() {
    let responses = vec![
        Response::builder().build(vec![]).unwrap(),
        Response::builder().status_code(454).header(b"CSeq", b"12").build(b"gone".to_vec()).unwrap(),
        Response::builder()
            .status_code(599)
            .reason(Some(b"Custom \t Reason "))
            .header(b"Server", b"s")
            .build(vec![1, 2, 3])
            .unwrap(),
    ];
    for response in responses {
        let wire = response_bytes(&response);
        let (message, taken) = complete(&wire);
        assert_eq!(taken, wire.len());
        match message {
            Message::Response(read) => {
                assert_eq!(read.status_code(), response.status_code());
                assert_eq!(read.reason(), response.reason());
                assert_eq!(read.body(), response.body());
                assert_eq!(response_bytes(&read), wire);
            }
            other => panic!("no response: {:?}", other),
        }
    }
}

#[test]
fn every_proper_prefix_of_a_message_is_incomplete() {
    let request = Request::describe(b"rtsp://example.com/media")
        .header(b"CSeq", b"1")
        .header(b"Accept", b"application/sdp")
        .build(b"0123456789".to_vec())
        .unwrap();
    let wire = request_bytes(&request);
    for length in 0..wire.len() {
        match decode(&wire[..length], usize::MAX) {
            DecodeResult::Incomplete(_) => {}
            other => panic!("prefix of {} bytes: {:?}", length, other),
        }
    }
    assert!(matches!(decode(&wire, usize::MAX), DecodeResult::Complete(_, _)));
}

#[test]
fn state_of_an_incomplete_message() {
    assert_eq!(incomplete(b""), DecodeState::StartLine);
    assert_eq!(incomplete(b"PLAY rtsp://s/a RTSP/2.0\r"), DecodeState::StartLine);
    assert_eq!(incomplete(b"PLAY rtsp://s/a RTSP/2.0\r\n"), DecodeState::Headers);
    assert_eq!(incomplete(b"PLAY rtsp://s/a RTSP/2.0\r\nCSeq: 1\r\n"), DecodeState::Headers);
    assert_eq!(
        incomplete(b"PLAY rtsp://s/a RTSP/2.0\r\nContent-Length: 10\r\n\r\nabc"),
        DecodeState::Body(7)
    );
}

#[test]
fn bad_start_lines() {
    for wire in [
        &b"INVALID\r\n"[..],
        b"\r\n",
        b"PLAY rtsp://s/a\r\n",
        b"PLAY rtsp://s/a RTSP/1.0\r\n",
        b"PLAY rtsp://s/a RTSP/2.0 \r\n",
        b"PLAY  rtsp://s/a RTSP/2.0\r\n",
        b"PL AY rtsp://s/a RTSP/2.0\r\n",
        b"PLAY /a RTSP/2.0\r\n",
        b"RTSP/1.0 200 OK\r\n",
        b"RTSP/2.0 20 OK\r\n",
        b"RTSP/2.0 2000 OK\r\n",
        b"RTSP/2.0 099 Low\r\n",
        b"RTSP/2.0 600 High\r\n",
        b"RTSP/2.0 2x0 OK\r\n",
        b"RTSP/2.0 200\r\n",
        b"RTSP/2.0 200 \r\n",
        b"RTSP/2.0 200 O\x00K\r\n",
    ]
    .iter()
    {
        assert_eq!(invalid(wire), DecodeError::BadStartLine, "{:?}", String::from_utf8_lossy(wire));
    }
}

#[test]
fn bad_headers() {
    for wire in [
        &b"PLAY rtsp://s/a RTSP/2.0\r\nno colon\r\n"[..],
        b"PLAY rtsp://s/a RTSP/2.0\r\n: no name\r\n",
        b"PLAY rtsp://s/a RTSP/2.0\r\nbad name: x\r\n",
        b"PLAY rtsp://s/a RTSP/2.0\r\nName: bad \x01 value\r\n",
        b"PLAY rtsp://s/a RTSP/2.0\r\nName: lone \r return\r\n",
        b"PLAY rtsp://s/a RTSP/2.0\r\n continues nothing\r\n",
        b"PLAY rtsp://s/a RTSP/2.0\r\nName: x\r\n bad \x7f fold\r\n",
    ]
    .iter()
    {
        assert_eq!(invalid(wire), DecodeError::BadHeader, "{:?}", String::from_utf8_lossy(wire));
    }
}

#[test]
fn bad_content_length() {
    for wire in [
        &b"PLAY rtsp://s/a RTSP/2.0\r\nContent-Length: x\r\n\r\n"[..],
        b"PLAY rtsp://s/a RTSP/2.0\r\nContent-Length: -1\r\n\r\n",
        b"PLAY rtsp://s/a RTSP/2.0\r\nContent-Length:\r\n\r\n",
        b"PLAY rtsp://s/a RTSP/2.0\r\nContent-Length: 1\r\nContent-Length: 1\r\n\r\n",
        b"PLAY rtsp://s/a RTSP/2.0\r\nContent-Length: 10000000000000000000\r\n\r\n",
    ]
    .iter()
    {
        assert_eq!(invalid(wire), DecodeError::BadContentLength, "{:?}", String::from_utf8_lossy(wire));
    }
}

#[test]
fn body_too_large() {
    let wire = b"PLAY rtsp://s/a RTSP/2.0\r\nContent-Length: 11\r\n\r\n";
    assert!(matches!(decode(wire, 10), DecodeResult::Invalid(DecodeError::BodyTooLarge)));
    assert!(matches!(decode(wire, 11), DecodeResult::Incomplete(DecodeState::Body(11))));
}

#[test]
fn lines_too_long() {
    let mut start = b"PLAY rtsp://s/".to_vec();
    start.extend(vec![b'a'; 8192]);
    assert_eq!(invalid(&start), DecodeError::LineTooLong);
    start.extend_from_slice(b" RTSP/2.0\r\n\r\n");
    assert_eq!(invalid(&start), DecodeError::LineTooLong);

    let mut longest = b"PLAY rtsp://s/".to_vec();
    longest.extend(vec![b'a'; 8192 - 14 - 9]);
    longest.extend_from_slice(b" RTSP/2.0");
    assert_eq!(longest.len(), 8192);
    assert_eq!(incomplete(&longest), DecodeState::StartLine);
    longest.extend_from_slice(b"\r");
    assert_eq!(incomplete(&longest), DecodeState::StartLine);
    longest.extend_from_slice(b"\n\r\n");
    assert!(matches!(decode(&longest, usize::MAX), DecodeResult::Complete(_, _)));

    let mut name = b"PLAY rtsp://s/a RTSP/2.0\r\n".to_vec();
    name.extend(vec![b'n'; 129]);
    name.extend_from_slice(b": x\r\n\r\n");
    assert_eq!(invalid(&name), DecodeError::LineTooLong);

    let mut value = b"PLAY rtsp://s/a RTSP/2.0\r\nName: ".to_vec();
    value.extend(vec![b'v'; 4097]);
    value.extend_from_slice(b"\r\n\r\n");
    assert_eq!(invalid(&value), DecodeError::LineTooLong);

    let mut folded = b"PLAY rtsp://s/a RTSP/2.0\r\nName: ".to_vec();
    folded.extend(vec![b'v'; 4000]);
    folded.extend_from_slice(b"\r\n ");
    folded.extend(vec![b'w'; 96]);
    folded.extend_from_slice(b"\r\n\r\n");
    assert_eq!(invalid(&folded), DecodeError::LineTooLong);

    let mut fits = b"PLAY rtsp://s/a RTSP/2.0\r\nName: ".to_vec();
    fits.extend(vec![b'v'; 4000]);
    fits.extend_from_slice(b"\r\n ");
    fits.extend(vec![b'w'; 95]);
    fits.extend_from_slice(b"\r\n\r\n");
    assert!(matches!(decode(&fits, usize::MAX), DecodeResult::Complete(_, _)));
}

#[test]
fn decode_error_describes_itself() {
    assert_eq!(DecodeError::BadStartLine.description(), "invalid RTSP start line");
    assert_eq!(DecodeError::BadHeader.description(), "invalid RTSP header");
    assert_eq!(DecodeError::BodyTooLarge.description(), "RTSP message body too large");
    assert_eq!(DecodeError::BadContentLength.description(), "invalid RTSP content length");
    assert_eq!(DecodeError::LineTooLong.description(), "RTSP line too long");
    assert_eq!(rtsp::protocol::EncodeError.description(), "RTSP message body too large");
}

#[test]
fn decoder_hands_out_one_message_at_a_time() {
    let mut decoder = Decoder::new();
    assert_eq!(decoder.state(), DecodeState::StartLine);
    assert!(matches!(decoder.decode(), Ok(None)));
    decoder.extend(b"RTSP/2.0 200 OK\r\nCSeq: 1\r\nContent-Length: 2\r\n\r\na");
    assert!(!decoder.is_ready());
    assert!(matches!(decoder.decode(), Ok(None)));
    assert_eq!(decoder.state(), DecodeState::Body(1));
    decoder.extend(b"bOPTIONS * RTSP/2.0\r\nCSeq: 2\r\n\r\nRTSP");
    assert!(decoder.is_ready());
    match decoder.decode() {
        Ok(Some(Message::Response(response))) => assert_eq!(response.body(), &b"ab".to_vec()),
        other => panic!("no response: {:?}", other),
    }
    assert_eq!(decoder.state(), DecodeState::StartLine);
    assert!(matches!(decoder.decode(), Ok(Some(Message::Request(_)))));
    assert_eq!(decoder.buffered_len(), 4);
    assert!(matches!(decoder.decode(), Ok(None)));
    assert_eq!(decoder.buffered_len(), 4);
}

#[test]
fn decoder_stays_failed_after_an_error() {
    let mut decoder = Decoder::with_max_body_length(4);
    decoder.extend(b"RTSP/2.0 200 OK\r\nContent-Length: 5\r\n\r\n");
    assert_eq!(decoder.decode().err(), Some(DecodeError::BodyTooLarge));
    assert_eq!(decoder.state(), DecodeState::Done);
    decoder.extend(b"RTSP/2.0 200 OK\r\n\r\n");
    assert_eq!(decoder.decode().err(), Some(DecodeError::BodyTooLarge));
}
