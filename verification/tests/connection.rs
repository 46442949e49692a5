use rtsp::header::HeaderName;
use rtsp::protocol::connection::{status_response, DEFAULT_MAX_INBOUND};
use rtsp::protocol::{
    Action, Connection, DecodeError, EmptyService, OperationError, Phase, ProtocolError, Service,
};
use rtsp::request::Request;
use rtsp::response::Response;
use rtsp::status::StatusCode;

fn describe() -> Request<Vec<u8>> {
    Request::describe(b"rtsp://example.com/media").build(vec![]).unwrap()
}

fn written(actions: &[Action]) -> Vec<u8> {
    let mut all = Vec::new();
    for action in actions {
        if let Action::Write(bytes) = action {
            all.extend_from_slice(bytes);
        }
    }
    all
}

fn deliveries(actions: Vec<Action>) -> Vec<(u64, Result<Response<Vec<u8>>, OperationError>)> {
    let mut all = Vec::new();
    for action in actions {
        if let Action::Deliver { ticket, outcome } = action {
            all.push((ticket, outcome));
        }
    }
    all
}

fn errors(actions: Vec<Action>) -> Vec<(u64, OperationError)> {
    deliveries(actions).into_iter().map(|(ticket, outcome)| (ticket, outcome.err().unwrap())).collect()
}

fn has_shutdown(actions: &[Action]) -> bool {
    actions.iter().any(|action| matches!(action, Action::Shutdown))
}

fn poll_all(connection: &mut Connection) -> Vec<Action> {
    let mut all = Vec::new();
    while connection.can_poll() {
        all.extend(connection.poll());
    }
    all
}

#[test]
fn describe_round_trip() {
    let mut connection = Connection::new();
    let actions = connection.send_request(10, describe(), 0);
    assert_eq!(actions.len(), 1);
    assert_eq!(
        written(&actions),
        b"DESCRIBE rtsp://example.com/media RTSP/2.0\r\nCSeq: 1\r\nContent-Length: 0\r\n\r\n".to_vec()
    );
    assert_eq!(connection.pending_len(), 1);
    connection.receive(b"RTSP/2.0 200 OK\r\nCSeq: 1\r\nContent-Length: 0\r\n\r\n");
    let mut delivered = deliveries(poll_all(&mut connection));
    assert_eq!(delivered.len(), 1);
    let (ticket, outcome) = delivered.remove(0);
    assert_eq!(ticket, 10);
    let response = outcome.unwrap();
    assert_eq!(response.status_code(), StatusCode::OK);
    assert_eq!(response.reason().as_bytes(), b"OK");
    assert!(response.body().is_empty());
    assert_eq!(connection.pending_len(), 0);
    assert_eq!(connection.phase(), Phase::Open);
}

#[test]
fn cseq_of_the_request_is_overridden() {
    let mut connection = Connection::new();
    let request = Request::play(b"rtsp://s/a").header(b"CSeq", b"999").header(b"X", b"y").build(vec![]).unwrap();
    let actions = connection.send_request(1, request, 0);
    assert_eq!(
        written(&actions),
        b"PLAY rtsp://s/a RTSP/2.0\r\nCSeq: 1\r\nX: y\r\nContent-Length: 0\r\n\r\n".to_vec()
    );
    let actions = connection.send_request(2, describe(), 0);
    assert!(String::from_utf8(written(&actions)).unwrap().contains("\r\nCSeq: 2\r\n"));
}

#[test]
fn responses_out_of_order_reach_their_callers() {
    let mut connection = Connection::new();
    connection.send_request(100, describe(), 0);
    connection.send_request(200, describe(), 0);
    connection.receive(b"RTSP/2.0 404 Not Found\r\nCSeq: 2\r\n\r\nRTSP/2.0 200 OK\r\nCSeq: 1\r\n\r\n");
    let delivered = deliveries(poll_all(&mut connection));
    assert_eq!(delivered.len(), 2);
    assert_eq!(delivered[0].0, 200);
    assert_eq!(delivered[0].1.as_ref().unwrap().status_code(), StatusCode::NotFound);
    assert_eq!(delivered[1].0, 100);
    assert_eq!(delivered[1].1.as_ref().unwrap().status_code(), StatusCode::OK);
    assert_eq!(connection.pending_len(), 0);
}

#[test]
fn many_requests_answered_in_reverse_order() {
    let mut connection = Connection::new();
    let count = 50u64;
    for ticket in 0..count {
        connection.send_request(1000 + ticket, describe(), 0);
    }
    for cseq in (1..=count).rev() {
        let wire = format!("RTSP/2.0 200 OK\r\nCSeq: {}\r\nContent-Length: {}\r\n\r\n{}", cseq, cseq.to_string().len(), cseq);
        connection.receive(wire.as_bytes());
        let delivered = deliveries(poll_all(&mut connection));
        assert_eq!(delivered.len(), 1);
        assert_eq!(delivered[0].0, 1000 + cseq - 1);
        assert_eq!(delivered[0].1.as_ref().unwrap().body(), &cseq.to_string().into_bytes());
    }
    assert_eq!(connection.pending_len(), 0);
}

#[test]
fn inbound_request_is_answered_by_the_empty_service() {
    let mut connection = Connection::new();
    connection.receive(b"OPTIONS * RTSP/2.0\r\nCSeq: 7\r\n\r\n");
    let mut actions = poll_all(&mut connection);
    assert_eq!(actions.len(), 1);
    let (cseq, request) = match actions.remove(0) {
        Action::Call { cseq, request } => (cseq, request),
        other => panic!("no call: {:?}", other),
    };
    assert_eq!(cseq, 7);
    let response = EmptyService.call(request);
    let actions = connection.service_replied(cseq, response);
    assert_eq!(actions.len(), 1);
    assert_eq!(
        written(&actions),
        b"RTSP/2.0 501 Not Implemented\r\nCSeq: 7\r\nContent-Length: 0\r\n\r\n".to_vec()
    );
    assert_eq!(connection.phase(), Phase::Open);
}

#[test]
fn inbound_requests_may_be_answered_in_any_order() {
    let mut connection = Connection::new();
    connection.receive(b"OPTIONS * RTSP/2.0\r\nCSeq: 7\r\n\r\nOPTIONS * RTSP/2.0\r\nCSeq: 8\r\n\r\n");
    let actions = poll_all(&mut connection);
    assert_eq!(actions.len(), 2);
    let second = connection.service_replied(8, status_response(StatusCode::OK));
    assert!(String::from_utf8(written(&second)).unwrap().starts_with("RTSP/2.0 200 OK\r\nCSeq: 8\r\n"));
    let first = connection.service_replied(7, status_response(StatusCode::NotFound));
    assert!(String::from_utf8(written(&first)).unwrap().starts_with("RTSP/2.0 404 Not Found\r\nCSeq: 7\r\n"));
    assert!(connection.service_replied(7, status_response(StatusCode::OK)).is_empty());
    assert!(connection.service_replied(9, status_response(StatusCode::OK)).is_empty());
}

#[test]
fn request_without_cseq_is_answered_with_400() {
    let mut connection = Connection::new();
    connection.receive(b"OPTIONS * RTSP/2.0\r\n\r\n");
    let actions = poll_all(&mut connection);
    assert_eq!(actions.len(), 2);
    assert!(matches!(actions[0], Action::Report(ProtocolError::MissingCSeq)));
    assert_eq!(written(&actions), b"RTSP/2.0 400 Bad Request\r\nContent-Length: 0\r\n\r\n".to_vec());
    assert_eq!(connection.phase(), Phase::Open);
    connection.receive(b"OPTIONS * RTSP/2.0\r\nCSeq: x\r\n\r\nOPTIONS * RTSP/2.0\r\nCSeq: 1\r\n\r\n");
    let actions = poll_all(&mut connection);
    assert_eq!(actions.len(), 3);
    assert!(matches!(actions[2], Action::Call { cseq: 1, .. }));
    let sent = connection.send_request(1, describe(), 0);
    assert!(!written(&sent).is_empty());
}

#[test]
fn decode_error_is_fatal() {
    let mut connection = Connection::new();
    connection.send_request(1, describe(), 0);
    connection.send_request(2, describe(), 0);
    connection.receive(b"INVALID\r\n");
    let actions = poll_all(&mut connection);
    assert!(has_shutdown(&actions));
    let error = OperationError::Protocol(ProtocolError::BadStartLine);
    assert_eq!(errors(actions), vec![(1, error), (2, error)]);
    assert_eq!(connection.phase(), Phase::Closed(Some(error)));
    assert_eq!(connection.pending_len(), 0);
    assert_eq!(errors(connection.send_request(3, describe(), 0)), vec![(3, OperationError::ConnectionClosed)]);
    connection.receive(b"RTSP/2.0 200 OK\r\nCSeq: 1\r\n\r\n");
    assert!(!connection.can_poll());
    assert!(connection.poll().is_empty());
}

#[test]
fn every_decode_error_is_a_protocol_error() {
    assert_eq!(ProtocolError::from_decode(DecodeError::BadStartLine), ProtocolError::BadStartLine);
    assert_eq!(ProtocolError::from_decode(DecodeError::BadHeader), ProtocolError::BadHeader);
    assert_eq!(ProtocolError::from_decode(DecodeError::BodyTooLarge), ProtocolError::BodyTooLarge);
    assert_eq!(ProtocolError::from_decode(DecodeError::BadContentLength), ProtocolError::BadContentLength);
    assert_eq!(ProtocolError::from_decode(DecodeError::LineTooLong), ProtocolError::LineTooLong);
    let mut connection = Connection::with_limits(4, DEFAULT_MAX_INBOUND, None);
    connection.send_request(1, describe(), 0);
    connection.receive(b"RTSP/2.0 200 OK\r\nCSeq: 1\r\nContent-Length: 5\r\n\r\nabcde");
    assert_eq!(
        errors(poll_all(&mut connection)),
        vec![(1, OperationError::Protocol(ProtocolError::BodyTooLarge))]
    );
}

#[test]
fn unsolicited_response_ends_the_connection() {
    let mut connection = Connection::new();
    connection.send_request(1, describe(), 0);
    connection.send_request(2, describe(), 0);
    connection.receive(b"RTSP/2.0 200 OK\r\nCSeq: 3\r\n\r\n");
    let actions = poll_all(&mut connection);
    assert!(matches!(actions.last(), Some(Action::Shutdown)));
    let error = OperationError::Protocol(ProtocolError::UnsolicitedResponse);
    assert_eq!(errors(actions), vec![(1, error), (2, error)]);
    assert_eq!(connection.phase(), Phase::Closed(Some(error)));
}

#[test]
fn response_without_cseq_is_unsolicited() {
    let mut connection = Connection::new();
    connection.send_request(1, describe(), 0);
    connection.receive(b"RTSP/2.0 200 OK\r\n\r\n");
    let error = OperationError::Protocol(ProtocolError::UnsolicitedResponse);
    assert_eq!(errors(poll_all(&mut connection)), vec![(1, error)]);
}

#[test]
fn second_response_to_one_request_is_unsolicited() {
    let mut connection = Connection::new();
    connection.send_request(1, describe(), 0);
    connection.receive(b"RTSP/2.0 200 OK\r\nCSeq: 1\r\n\r\nRTSP/2.0 200 OK\r\nCSeq: 1\r\n\r\n");
    let actions = poll_all(&mut connection);
    assert_eq!(actions.len(), 2);
    assert!(matches!(actions[0], Action::Deliver { ticket: 1, outcome: Ok(_) }));
    assert!(matches!(actions[1], Action::Shutdown));
}

#[test]
fn cancelled_request_does_not_touch_the_others() {
    let mut connection = Connection::new();
    connection.send_request(1, describe(), 0);
    connection.send_request(2, describe(), 0);
    connection.send_request(3, describe(), 0);
    assert!(connection.cancel(2).is_empty());
    assert!(connection.cancel(2).is_empty());
    assert!(connection.cancel(99).is_empty());
    assert_eq!(connection.pending_len(), 3);
    assert_eq!(connection.phase(), Phase::Open);
    connection.receive(b"RTSP/2.0 200 OK\r\nCSeq: 3\r\n\r\nRTSP/2.0 200 OK\r\nCSeq: 2\r\n\r\n");
    connection.receive(b"RTSP/2.0 200 OK\r\nCSeq: 1\r\n\r\n");
    let actions = poll_all(&mut connection);
    assert!(!has_shutdown(&actions));
    let delivered = deliveries(actions);
    assert_eq!(delivered.len(), 2);
    assert_eq!(delivered[0].0, 3);
    assert!(delivered[0].1.is_ok());
    assert_eq!(delivered[1].0, 1);
    assert!(delivered[1].1.is_ok());
    assert_eq!(connection.pending_len(), 0);
    assert_eq!(connection.phase(), Phase::Open);
}

#[test]
fn timed_out_request_fails_and_its_late_response_is_unsolicited() {
    let mut connection = Connection::with_limits(usize::MAX, DEFAULT_MAX_INBOUND, Some(10));
    connection.send_request(1, describe(), 100);
    connection.send_request(2, describe(), 105);
    assert_eq!(connection.next_deadline(), Some(110));
    assert!(connection.expire(109).is_empty());
    assert_eq!(errors(connection.expire(110)), vec![(1, OperationError::Timeout)]);
    assert!(connection.expire(110).is_empty());
    assert_eq!(connection.pending_len(), 1);
    assert_eq!(connection.next_deadline(), Some(115));
    connection.receive(b"RTSP/2.0 200 OK\r\nCSeq: 1\r\n\r\n");
    let error = OperationError::Protocol(ProtocolError::UnsolicitedResponse);
    assert_eq!(errors(poll_all(&mut connection)), vec![(2, error)]);
    assert_eq!(connection.next_deadline(), None);
}

#[test]
fn requests_time_out_in_the_order_of_their_deadlines() {
    let mut connection = Connection::with_limits(usize::MAX, DEFAULT_MAX_INBOUND, Some(5));
    connection.send_request(1, describe(), 0);
    connection.send_request(2, describe(), 1);
    connection.send_request(3, describe(), 2);
    connection.send_request(4, describe(), 100);
    connection.cancel(2);
    assert_eq!(connection.next_deadline(), Some(5));
    let timeout = OperationError::Timeout;
    assert_eq!(errors(connection.expire(50)), vec![(1, timeout), (3, timeout)]);
    assert_eq!(connection.pending_len(), 2);
    assert_eq!(connection.next_deadline(), Some(105));
    connection.receive(b"RTSP/2.0 200 OK\r\nCSeq: 2\r\n\r\n");
    assert!(poll_all(&mut connection).is_empty());
    assert_eq!(connection.pending_len(), 1);
}

#[test]
fn deadline_does_not_wrap_around() {
    let mut connection = Connection::with_limits(usize::MAX, DEFAULT_MAX_INBOUND, Some(u64::MAX));
    connection.send_request(1, describe(), 7);
    assert_eq!(connection.next_deadline(), Some(u64::MAX));
    assert!(connection.expire(u64::MAX - 1).is_empty());
    assert_eq!(errors(connection.expire(u64::MAX)), vec![(1, OperationError::Timeout)]);
}

#[test]
fn connection_without_timeout_sets_no_deadline() {
    let mut connection = Connection::new();
    connection.send_request(1, describe(), 0);
    assert_eq!(connection.next_deadline(), None);
    assert!(connection.expire(u64::MAX).is_empty());
    assert_eq!(connection.pending_len(), 1);
}

#[test]
fn duplicate_inbound_cseq_ends_the_connection() {
    let mut connection = Connection::new();
    connection.send_request(5, describe(), 0);
    connection.receive(b"OPTIONS * RTSP/2.0\r\nCSeq: 7\r\n\r\nPLAY rtsp://s/a RTSP/2.0\r\nCSeq: 7\r\n\r\n");
    let actions = poll_all(&mut connection);
    assert!(matches!(actions[0], Action::Call { cseq: 7, .. }));
    assert!(has_shutdown(&actions));
    let error = OperationError::Protocol(ProtocolError::DuplicateCSeq);
    assert_eq!(errors(actions), vec![(5, error)]);
    assert!(connection.service_replied(7, status_response(StatusCode::OK)).is_empty());
}

#[test]
fn inbound_cseq_can_be_used_again_after_the_reply() {
    let mut connection = Connection::new();
    connection.receive(b"OPTIONS * RTSP/2.0\r\nCSeq: 7\r\n\r\n");
    poll_all(&mut connection);
    connection.service_replied(7, status_response(StatusCode::OK));
    connection.receive(b"OPTIONS * RTSP/2.0\r\nCSeq: 7\r\n\r\n");
    let actions = poll_all(&mut connection);
    assert!(matches!(actions[0], Action::Call { cseq: 7, .. }));
    assert_eq!(connection.phase(), Phase::Open);
}

#[test]
fn service_panic_is_fatal() {
    let mut connection = Connection::new();
    connection.send_request(1, describe(), 0);
    let actions = connection.service_panicked();
    assert!(has_shutdown(&actions));
    assert_eq!(errors(actions), vec![(1, OperationError::Protocol(ProtocolError::ServicePanicked))]);
    assert!(connection.service_panicked().is_empty());
}

#[test]
fn transport_failure_fails_every_pending_request() {
    let mut connection = Connection::new();
    connection.send_request(1, describe(), 0);
    connection.send_request(2, describe(), 0);
    connection.cancel(1);
    let actions = connection.transport_failed();
    assert!(has_shutdown(&actions));
    assert_eq!(errors(actions), vec![(2, OperationError::Transport)]);
    assert_eq!(connection.phase(), Phase::Closed(Some(OperationError::Transport)));
    assert!(connection.transport_failed().is_empty());
}

#[test]
fn end_of_input_fails_every_pending_request() {
    let mut connection = Connection::new();
    connection.send_request(1, describe(), 0);
    let actions = connection.read_closed();
    assert!(has_shutdown(&actions));
    assert_eq!(errors(actions), vec![(1, OperationError::ConnectionClosed)]);
    assert_eq!(errors(connection.send_request(2, describe(), 0)), vec![(2, OperationError::ConnectionClosed)]);
}

#[test]
fn close_drains_what_is_in_flight() {
    let mut connection = Connection::new();
    connection.send_request(1, describe(), 0);
    connection.receive(b"OPTIONS * RTSP/2.0\r\nCSeq: 7\r\n\r\n");
    poll_all(&mut connection);
    assert!(connection.close().is_empty());
    assert_eq!(connection.phase(), Phase::Closing);
    assert!(connection.close().is_empty());
    assert_eq!(errors(connection.send_request(2, describe(), 0)), vec![(2, OperationError::ConnectionClosed)]);
    let actions = connection.service_replied(7, status_response(StatusCode::NotImplemented));
    assert_eq!(actions.len(), 1);
    assert_eq!(connection.phase(), Phase::Closing);
    connection.receive(b"RTSP/2.0 200 OK\r\nCSeq: 1\r\n\r\n");
    let actions = poll_all(&mut connection);
    assert_eq!(actions.len(), 2);
    assert!(matches!(actions[0], Action::Deliver { ticket: 1, outcome: Ok(_) }));
    assert!(matches!(actions[1], Action::Shutdown));
    assert_eq!(connection.phase(), Phase::Closed(None));
}

#[test]
fn close_of_an_idle_connection_shuts_down_at_once() {
    let mut connection = Connection::new();
    let actions = connection.close();
    assert_eq!(actions.len(), 1);
    assert!(matches!(actions[0], Action::Shutdown));
    assert_eq!(connection.phase(), Phase::Closed(None));
}

#[test]
fn close_does_not_wait_for_a_cancelled_request() {
    let mut connection = Connection::new();
    connection.send_request(1, describe(), 0);
    connection.close();
    let actions = connection.cancel(1);
    assert_eq!(actions.len(), 1);
    assert!(matches!(actions[0], Action::Shutdown));
    let mut connection = Connection::with_limits(usize::MAX, DEFAULT_MAX_INBOUND, Some(1));
    connection.send_request(1, describe(), 0);
    connection.close();
    let actions = connection.expire(1);
    assert_eq!(actions.len(), 2);
    assert!(matches!(actions[1], Action::Shutdown));
}

#[test]
fn decoding_pauses_at_the_limit_of_inbound_requests() {
    let mut connection = Connection::with_limits(usize::MAX, 2, None);
    connection.receive(
        b"OPTIONS * RTSP/2.0\r\nCSeq: 1\r\n\r\nOPTIONS * RTSP/2.0\r\nCSeq: 2\r\n\r\nOPTIONS * RTSP/2.0\r\nCSeq: 3\r\n\r\n",
    );
    assert_eq!(poll_all(&mut connection).len(), 2);
    assert!(!connection.can_poll());
    assert!(connection.poll().is_empty());
    connection.service_replied(1, status_response(StatusCode::OK));
    assert!(connection.can_poll());
    let actions = poll_all(&mut connection);
    assert!(matches!(actions[0], Action::Call { cseq: 3, .. }));
    assert_eq!(DEFAULT_MAX_INBOUND, 256);
}

#[test]
fn request_that_cannot_be_encoded_is_not_constructible_by_small_bodies() {
    let mut connection = Connection::new();
    let request = Request::play(b"rtsp://s/a").build(vec![7u8; 70_000]).unwrap();
    let actions = connection.send_request(1, request, 0);
    let wire = written(&actions);
    assert!(wire.ends_with(&vec![7u8; 70_000]));
    assert!(String::from_utf8_lossy(&wire[..80]).contains("Content-Length: 70000\r\n"));
}

#[test]
fn message_is_split_over_many_reads() {
    let mut connection = Connection::new();
    connection.send_request(1, describe(), 0);
    let wire = b"RTSP/2.0 200 OK\r\nCSeq: 1\r\nContent-Length: 4\r\n\r\nbody";
    for (i, byte) in wire.iter().enumerate() {
        connection.receive(&[*byte]);
        let actions = poll_all(&mut connection);
        if i + 1 < wire.len() {
            assert!(actions.is_empty());
        } else {
            assert_eq!(deliveries(actions)[0].1.as_ref().unwrap().body(), &b"body".to_vec());
        }
    }
}

#[test]
fn header_of_the_response_can_be_read_by_the_caller() {
    let mut connection = Connection::new();
    connection.send_request(1, describe(), 0);
    connection.receive(b"RTSP/2.0 200 OK\r\nCSeq: 1\r\nServer: s\r\n\r\n");
    let delivered = deliveries(poll_all(&mut connection));
    let response = delivered[0].1.as_ref().unwrap();
    assert_eq!(response.headers().get(&HeaderName::Server)[0].as_bytes(), b"s");
}
