//! The connection engine: one RTSP connection as a state machine.
//!
//! The engine owns no transport and runs no task. It is told what happens on
//! the connection (a caller sends a request, bytes arrive, the service
//! replies) and answers with what is to be done: bytes to write, responses
//! and errors to deliver to callers, requests to hand to the service. Whoever
//! drives the engine performs these actions in the order given.
//!
//! Requests that go out are numbered by their `CSeq`, from 1 on; a response
//! that comes in is delivered to the caller whose request has the same
//! `CSeq`. A caller is known to the engine by a ticket, a number that the
//! driver chooses.

use vstd::prelude::*;

use super::decode::{spec_decode, DecodeError, Decoded, Decoder};
use super::encode::{encode_request, encode_response, spec_encode};
use super::message::{Message, MessageView, StartLine};
use crate::header::map::{spec_set, HeaderMapView};
use crate::header::name::HeaderName;
use crate::header::typed_map::{spec_typed, typed_header};
use crate::header::types::{CSeq, TypedHeader, MAX_CONTENT_LENGTH, MAX_CSEQ};
use crate::header::HeaderMap;
use crate::request::Request;
use crate::response::Response;
use crate::status::{lemma_canonical_reason, StatusCode};
use crate::version::Version;

verus! {

/// The default limit on the number of inbound requests that the service is
/// working on at one time.
pub const DEFAULT_MAX_INBOUND: usize = 256;

/// A violation of the protocol.
#[derive(Clone, Copy, Debug, PartialEq, Eq, Structural, Hash)]
pub enum ProtocolError {
    /// The peer sent a first line that is neither a request line nor a status
    /// line of RTSP 2.0.
    BadStartLine,
    /// The peer sent a header that is none.
    BadHeader,
    /// The peer sent a body that is longer than the decoder accepts.
    BodyTooLarge,
    /// The peer sent a `Content-Length` header that states no length.
    BadContentLength,
    /// The peer sent a line that is longer than the decoder accepts.
    LineTooLong,
    /// A message could not be encoded: its body is longer than a
    /// `Content-Length` header can state.
    Encode,
    /// The peer sent a response to a request that is not waiting for one.
    UnsolicitedResponse,
    /// The peer sent a request without a `CSeq` header.
    MissingCSeq,
    /// A `CSeq` is in use twice: the peer sent a request with the `CSeq` of a
    /// request that the service is still working on, or the connection has no
    /// `CSeq` left for a request that goes out.
    DuplicateCSeq,
    /// The service panicked while it handled a request.
    ServicePanicked,
}

impl ProtocolError {
    /// The violation of the protocol that an error of the decoder is.
    pub open spec fn spec_from_decode(error: DecodeError) -> ProtocolError {
        match error {
            DecodeError::BadStartLine => ProtocolError::BadStartLine,
            DecodeError::BadHeader => ProtocolError::BadHeader,
            DecodeError::BodyTooLarge => ProtocolError::BodyTooLarge,
            DecodeError::BadContentLength => ProtocolError::BadContentLength,
            DecodeError::LineTooLong => ProtocolError::LineTooLong,
        }
    }

    /// Returns the violation of the protocol that an error of the decoder is.
    pub fn from_decode(error: DecodeError) -> (res: ProtocolError)
        ensures
            res == ProtocolError::spec_from_decode(error),
    {
        match error {
            DecodeError::BadStartLine => ProtocolError::BadStartLine,
            DecodeError::BadHeader => ProtocolError::BadHeader,
            DecodeError::BodyTooLarge => ProtocolError::BodyTooLarge,
            DecodeError::BadContentLength => ProtocolError::BadContentLength,
            DecodeError::LineTooLong => ProtocolError::LineTooLong,
        }
    }
}

/// Why a request that was sent got no response.
#[derive(Clone, Copy, Debug, PartialEq, Eq, Structural, Hash)]
pub enum OperationError {
    /// No response came within the time that the caller allows.
    Timeout,
    /// The connection is closed, or is closing.
    ConnectionClosed,
    /// The protocol was violated, and the connection was closed for it.
    Protocol(ProtocolError),
    /// The transport failed.
    Transport,
}

/// What the engine knows of a request that waits for its response.
#[derive(Clone, Copy, Debug, PartialEq, Eq, Structural, Hash)]
pub struct Pending {
    /// The `CSeq` of the request.
    pub cseq: u32,
    /// The ticket of the caller.
    pub ticket: u64,
    /// The time by which the response must have come, if there is a limit.
    pub deadline: Option<u64>,
    /// Whether the caller has given up on the request. The response to such a
    /// request is dropped when it comes.
    pub abandoned: bool,
}

/// The phases of the life of a connection.
#[derive(Clone, Copy, Debug, PartialEq, Eq, Structural, Hash)]
pub enum Phase {
    /// The connection is open.
    Open,
    /// The connection takes no new request. It closes once no request waits
    /// for a response and the service works on none.
    Closing,
    /// The connection is closed, for the given reason if it was an error.
    Closed(Option<OperationError>),
}

/// The view of an action: what the engine asks its driver to do, with bytes
/// and messages as mathematical values.
pub enum ActionView {
    /// Write these bytes to the transport.
    Write(Seq<u8>),
    /// Complete the request of the caller with this ticket.
    Deliver {
        /// The ticket of the caller.
        ticket: u64,
        /// The response, or why there is none.
        outcome: Result<MessageView, OperationError>,
    },
    /// Hand this request to the service.
    Call {
        /// The `CSeq` of the request, by which the reply is told to the engine.
        cseq: u32,
        /// The request.
        request: MessageView,
    },
    /// Take note of a violation of the protocol that the connection survives.
    Report(ProtocolError),
    /// Close the transport: the connection is over.
    Shutdown,
}

/// What the engine asks its driver to do.
#[derive(Debug, PartialEq, Eq)]
pub enum Action {
    /// Write these bytes to the transport.
    Write(Vec<u8>),
    /// Complete the request of the caller with this ticket.
    Deliver {
        /// The ticket of the caller.
        ticket: u64,
        /// The response, or why there is none.
        outcome: Result<Response<Vec<u8>, HeaderMap>, OperationError>,
    },
    /// Hand this request to the service.
    Call {
        /// The `CSeq` of the request, by which the reply is told to the engine.
        cseq: u32,
        /// The request.
        request: Request<Vec<u8>, HeaderMap>,
    },
    /// Take note of a violation of the protocol that the connection survives.
    Report(ProtocolError),
    /// Close the transport: the connection is over.
    Shutdown,
}

impl View for Action {
    type V = ActionView;

    open spec fn view(&self) -> ActionView {
        match self {
            Action::Write(bytes) => ActionView::Write(bytes@),
            Action::Deliver { ticket, outcome } => ActionView::Deliver {
                ticket: *ticket,
                outcome: match outcome {
                    Ok(response) => Ok(Message::Response(*response)@),
                    Err(error) => Err(*error),
                },
            },
            Action::Call { cseq, request } => ActionView::Call {
                cseq: *cseq,
                request: Message::Request(*request)@,
            },
            Action::Report(error) => ActionView::Report(*error),
            Action::Shutdown => ActionView::Shutdown,
        }
    }
}

/// The views of a sequence of actions.
pub open spec fn spec_actions(actions: Seq<Action>) -> Seq<ActionView> {
    Seq::new(actions.len(), |i: int| actions[i]@)
}

/// What the engine holds.
pub struct ConnectionView {
    /// The phase of the connection.
    pub phase: Phase,
    /// The `CSeq` of the next request that goes out.
    pub next_cseq: u32,
    /// The requests that wait for a response, in the order in which they went
    /// out.
    pub pending: Seq<Pending>,
    /// The `CSeq`s of the inbound requests that the service is working on.
    pub inbound: Seq<u32>,
    /// The bytes that came in and are not decoded yet.
    pub buffered: Seq<u8>,
    /// The length of the longest body that is accepted from the peer.
    pub max_body: usize,
    /// The limit on the number of inbound requests that the service works on
    /// at one time.
    pub max_inbound: usize,
    /// The time that a request may wait for its response, if there is a
    /// limit.
    pub timeout: Option<u64>,
}

/// A step of the engine: what it holds afterwards, and what it asks for.
pub type Step = (ConnectionView, Seq<ActionView>);

/// The position of the first request in `pending` with the `CSeq` `cseq`;
/// the length of `pending` if there is none.
pub open spec fn spec_find_cseq(pending: Seq<Pending>, cseq: u32) -> int
    decreases pending.len(),
{
    if pending.len() == 0 || pending[0].cseq == cseq {
        0
    } else {
        1 + spec_find_cseq(pending.skip(1), cseq)
    }
}

/// The position of the first request in `pending` with the ticket `ticket`
/// that its caller has not given up on; the length of `pending` if there is
/// none.
pub open spec fn spec_find_ticket(pending: Seq<Pending>, ticket: u64) -> int
    decreases pending.len(),
{
    if pending.len() == 0 || (pending[0].ticket == ticket && !pending[0].abandoned) {
        0
    } else {
        1 + spec_find_ticket(pending.skip(1), ticket)
    }
}

/// The position of the first `cseq` in `inbound`; the length of `inbound` if
/// there is none.
pub open spec fn spec_find_inbound(inbound: Seq<u32>, cseq: u32) -> int
    decreases inbound.len(),
{
    if inbound.len() == 0 || inbound[0] == cseq {
        0
    } else {
        1 + spec_find_inbound(inbound.skip(1), cseq)
    }
}

/// Whether a caller still waits for one of the requests in `pending`.
pub open spec fn spec_has_live(pending: Seq<Pending>) -> bool {
    exists|i: int| 0 <= i < pending.len() && !(#[trigger] pending[i]).abandoned
}

/// The deliveries that fail the requests in `pending` with `error`: one for
/// each request that its caller has not given up on, in order.
pub open spec fn spec_fail_all(pending: Seq<Pending>, error: OperationError) -> Seq<ActionView>
    decreases pending.len(),
{
    if pending.len() == 0 {
        Seq::empty()
    } else {
        let before = spec_fail_all(pending.drop_last(), error);
        if pending.last().abandoned {
            before
        } else {
            before.push(ActionView::Deliver { ticket: pending.last().ticket, outcome: Err(error) })
        }
    }
}

/// The time by which a request that goes out at the time `now` must have its
/// response, where requests may wait for the time `timeout` at most.
pub open spec fn spec_deadline(timeout: Option<u64>, now: u64) -> Option<u64> {
    match timeout {
        Some(limit) => Some(
            if now + limit > u64::MAX {
                u64::MAX
            } else {
                (now + limit) as u64
            },
        ),
        None => None,
    }
}

/// Whether the time of the request `request` is over at the time `now`: its
/// caller has not given up on it, and its deadline has come.
pub open spec fn spec_is_expired(request: Pending, now: u64) -> bool {
    &&& !request.abandoned
    &&& request.deadline matches Some(deadline)
    &&& deadline <= now
}

/// The requests in `pending` whose time is not over at the time `now`, in
/// order.
pub open spec fn spec_unexpired(pending: Seq<Pending>, now: u64) -> Seq<Pending>
    decreases pending.len(),
{
    if pending.len() == 0 {
        Seq::empty()
    } else {
        let before = spec_unexpired(pending.drop_last(), now);
        if spec_is_expired(pending.last(), now) {
            before
        } else {
            before.push(pending.last())
        }
    }
}

/// The deliveries that fail the requests in `pending` whose time is over at
/// the time `now` with `Timeout`, in order.
pub open spec fn spec_expire_all(pending: Seq<Pending>, now: u64) -> Seq<ActionView>
    decreases pending.len(),
{
    if pending.len() == 0 {
        Seq::empty()
    } else {
        let before = spec_expire_all(pending.drop_last(), now);
        if spec_is_expired(pending.last(), now) {
            before.push(
                ActionView::Deliver {
                    ticket: pending.last().ticket,
                    outcome: Err(OperationError::Timeout),
                },
            )
        } else {
            before
        }
    }
}

/// The earliest deadline of the requests in `pending` that a caller waits
/// for, if one of them has a deadline.
pub open spec fn spec_next_deadline(pending: Seq<Pending>) -> Option<u64>
    decreases pending.len(),
{
    if pending.len() == 0 {
        None
    } else {
        let before = spec_next_deadline(pending.drop_last());
        match pending.last().deadline {
            Some(deadline) if !pending.last().abandoned => match before {
                Some(earlier) if earlier <= deadline => before,
                _ => Some(deadline),
            },
            _ => before,
        }
    }
}

/// The message `message` with the `CSeq` header set to `cseq`.
pub open spec fn spec_with_cseq(message: MessageView, cseq: u32) -> MessageView {
    MessageView {
        headers: spec_set(message.headers, HeaderName::CSeq@, CSeq::spec_to_header_raw(cseq)),
        ..message
    }
}

/// The response with the status code `status`, its canonical reason phrase,
/// no header and no body.
pub open spec fn spec_status_response(status: StatusCode) -> MessageView {
    MessageView {
        version: Version::RTSP20,
        start: StartLine::Response { status: status@, reason: status.spec_canonical_reason() },
        headers: HeaderMapView::empty(),
        body: Seq::empty(),
    }
}

impl ConnectionView {
    /// What a new engine holds.
    pub open spec fn new(
        max_body: usize,
        max_inbound: usize,
        timeout: Option<u64>,
    ) -> ConnectionView {
        ConnectionView {
            phase: Phase::Open,
            next_cseq: 1,
            pending: Seq::empty(),
            inbound: Seq::empty(),
            buffered: Seq::empty(),
            max_body,
            max_inbound,
            timeout,
        }
    }

    /// The connection ends with `error`: every request that waits for a
    /// response fails with it, and the transport is closed.
    pub open spec fn terminate(self, error: OperationError) -> Step {
        (
            ConnectionView {
                phase: Phase::Closed(Some(error)),
                pending: Seq::empty(),
                inbound: Seq::empty(),
                ..self
            },
            spec_fail_all(self.pending, error).push(ActionView::Shutdown),
        )
    }

    /// The end of a step that asks for `actions`: a connection that is
    /// closing, on which no caller waits for a response and the service works
    /// on no request, closes.
    pub open spec fn settle(self, actions: Seq<ActionView>) -> Step {
        if self.phase == Phase::Closing && !spec_has_live(self.pending) && self.inbound.len() == 0 {
            (
                ConnectionView { phase: Phase::Closed(None), pending: Seq::empty(), ..self },
                actions.push(ActionView::Shutdown),
            )
        } else {
            (self, actions)
        }
    }

    /// A caller with the ticket `ticket` sends `request` at the time `now`.
    ///
    /// On an open connection the request gets the next `CSeq`, is written, and
    /// waits for its response, until its deadline if the connection sets one.
    /// On a connection that is closing or closed it fails, as it does where no
    /// `CSeq` is left. A request that cannot be encoded ends the connection.
    pub open spec fn send(self, ticket: u64, request: MessageView, now: u64) -> Step {
        if self.phase != Phase::Open {
            (
                self,
                seq![
                    ActionView::Deliver { ticket, outcome: Err(OperationError::ConnectionClosed) },
                ],
            )
        } else if self.next_cseq > MAX_CSEQ {
            (
                self,
                seq![
                    ActionView::Deliver {
                        ticket,
                        outcome: Err(OperationError::Protocol(ProtocolError::DuplicateCSeq)),
                    },
                ],
            )
        } else if request.body.len() > MAX_CONTENT_LENGTH {
            let error = OperationError::Protocol(ProtocolError::Encode);
            let ended = self.terminate(error);
            (ended.0, seq![ActionView::Deliver { ticket, outcome: Err(error) }] + ended.1)
        } else {
            (
                ConnectionView {
                    next_cseq: (self.next_cseq + 1) as u32,
                    pending: self.pending.push(
                        Pending {
                            cseq: self.next_cseq,
                            ticket,
                            deadline: spec_deadline(self.timeout, now),
                            abandoned: false,
                        },
                    ),
                    ..self
                },
                seq![ActionView::Write(spec_encode(spec_with_cseq(request, self.next_cseq)))],
            )
        }
    }

    /// The caller with the ticket `ticket` gives up on its request. The
    /// request keeps its `CSeq`, and its response is dropped when it comes;
    /// no other request is touched.
    pub open spec fn cancel(self, ticket: u64) -> Step {
        let index = spec_find_ticket(self.pending, ticket);
        if index < self.pending.len() {
            ConnectionView {
                pending: self.pending.update(
                    index,
                    Pending { abandoned: true, ..self.pending[index] },
                ),
                ..self
            }.settle(Seq::empty())
        } else {
            (self, Seq::empty())
        }
    }

    /// The time `now` has come. Every request whose deadline has come fails
    /// with `Timeout`, and waits no longer: a response that comes for it later
    /// is unsolicited.
    pub open spec fn expire(self, now: u64) -> Step {
        ConnectionView { pending: spec_unexpired(self.pending, now), ..self }.settle(
            spec_expire_all(self.pending, now),
        )
    }

    /// Bytes came in. They are kept until they are decoded, unless the
    /// connection is closed.
    pub open spec fn receive(self, bytes: Seq<u8>) -> ConnectionView {
        if self.phase is Closed {
            self
        } else {
            ConnectionView { buffered: self.buffered + bytes, ..self }
        }
    }

    /// Whether the engine can go on decoding: the connection is not closed,
    /// the service is not at its limit, and a complete message or an error is
    /// at the front of the bytes that came in.
    pub open spec fn can_poll(self) -> bool {
        &&& !(self.phase is Closed)
        &&& self.inbound.len() < self.max_inbound
        &&& !(spec_decode(self.buffered, self.max_body) is Incomplete)
    }

    /// A response came in.
    ///
    /// It is delivered to the caller whose request has the `CSeq` of the
    /// response, and that request waits no longer. It is dropped if that
    /// caller has given up. A response without a `CSeq`, or with one for which
    /// no request waits, ends the connection.
    pub open spec fn response(self, response: MessageView) -> Step {
        match spec_typed::<CSeq>(response.headers) {
            Ok(Some(cseq)) if spec_find_cseq(self.pending, cseq) < self.pending.len() => {
                let index = spec_find_cseq(self.pending, cseq);
                let rest = ConnectionView { pending: self.pending.remove(index), ..self };
                if self.pending[index].abandoned {
                    rest.settle(Seq::empty())
                } else {
                    rest.settle(
                        seq![
                            ActionView::Deliver {
                                ticket: self.pending[index].ticket,
                                outcome: Ok(response),
                            },
                        ],
                    )
                }
            },
            _ => self.terminate(OperationError::Protocol(ProtocolError::UnsolicitedResponse)),
        }
    }

    /// A request came in.
    ///
    /// It is handed to the service under its `CSeq`. A request without a
    /// `CSeq` is answered with 400 Bad Request, and the connection stays open.
    /// A request with the `CSeq` of a request that the service is still
    /// working on ends the connection.
    pub open spec fn request(self, request: MessageView) -> Step {
        match spec_typed::<CSeq>(request.headers) {
            Ok(Some(cseq)) => {
                if spec_find_inbound(self.inbound, cseq) < self.inbound.len() {
                    self.terminate(OperationError::Protocol(ProtocolError::DuplicateCSeq))
                } else {
                    (
                        ConnectionView { inbound: self.inbound.push(cseq), ..self },
                        seq![ActionView::Call { cseq, request }],
                    )
                }
            },
            _ => (
                self,
                seq![
                    ActionView::Report(ProtocolError::MissingCSeq),
                    ActionView::Write(spec_encode(spec_status_response(StatusCode::BadRequest))),
                ],
            ),
        }
    }

    /// The engine decodes what is at the front of the bytes that came in, if
    /// it can go on decoding: a message is taken out of the bytes and handled
    /// as a response or as a request; bytes that are no message end the
    /// connection.
    pub open spec fn poll(self) -> Step {
        if !self.can_poll() {
            (self, Seq::empty())
        } else {
            match spec_decode(self.buffered, self.max_body) {
                Decoded::Complete(message, length) => {
                    let rest = ConnectionView { buffered: self.buffered.skip(length), ..self };
                    match message.start {
                        StartLine::Response { .. } => rest.response(message),
                        StartLine::Request { .. } => rest.request(message),
                    }
                },
                Decoded::Invalid(error) => self.terminate(
                    OperationError::Protocol(ProtocolError::spec_from_decode(error)),
                ),
                Decoded::Incomplete(_) => (self, Seq::empty()),
            }
        }
    }

    /// The connection ends with `error`, unless it is closed already.
    pub open spec fn fail(self, error: OperationError) -> Step {
        if self.phase is Closed {
            (self, Seq::empty())
        } else {
            self.terminate(error)
        }
    }

    /// The service replies to the request with the `CSeq` `cseq`. The
    /// response is written with that `CSeq`. A reply to a request that the
    /// service is not working on is dropped. A response that cannot be encoded
    /// ends the connection.
    pub open spec fn reply(self, cseq: u32, response: MessageView) -> Step {
        let index = spec_find_inbound(self.inbound, cseq);
        if self.phase is Closed || index >= self.inbound.len() || cseq > MAX_CSEQ {
            (self, Seq::empty())
        } else if response.body.len() > MAX_CONTENT_LENGTH {
            self.terminate(OperationError::Protocol(ProtocolError::Encode))
        } else {
            ConnectionView { inbound: self.inbound.remove(index), ..self }.settle(
                seq![ActionView::Write(spec_encode(spec_with_cseq(response, cseq)))],
            )
        }
    }

    /// The connection is asked to close. It takes no new request from then
    /// on, and closes once no caller waits for a response and the service
    /// works on no request.
    pub open spec fn close(self) -> Step {
        if self.phase == Phase::Open {
            ConnectionView { phase: Phase::Closing, ..self }.settle(Seq::empty())
        } else {
            (self, Seq::empty())
        }
    }
}

/// Whether the requests `pending` that wait for a response are numbered as
/// the engine numbers them: their `CSeq`s grow in the order in which the
/// requests went out, and are below the `CSeq` `next_cseq` of the next
/// request that goes out.
pub open spec fn spec_is_numbered(pending: Seq<Pending>, next_cseq: u32) -> bool {
    &&& forall|i: int| 0 <= i < pending.len() ==> (#[trigger] pending[i]).cseq < next_cseq
    &&& forall|i: int, j: int|
        0 <= i < j < pending.len() ==> (#[trigger] pending[i]).cseq < (#[trigger] pending[j]).cseq
}

impl ConnectionView {
    /// Whether the engine can be in this state: the requests that wait for a
    /// response are numbered as the engine numbers them.
    pub open spec fn reachable(self) -> bool {
        spec_is_numbered(self.pending, self.next_cseq)
    }
}

/// Taking a request out of the requests that wait, or marking one as given
/// up, keeps the numbering.
pub proof fn lemma_numbered_without(pending: Seq<Pending>, next_cseq: u32, index: int)
    requires
        spec_is_numbered(pending, next_cseq),
        0 <= index < pending.len(),
    ensures
        spec_is_numbered(pending.remove(index), next_cseq),
        spec_is_numbered(
            pending.update(index, Pending { abandoned: true, ..pending[index] }),
            next_cseq,
        ),
{
    let rest = pending.remove(index);
    assert forall|i: int| 0 <= i < rest.len() implies (#[trigger] rest[i]).cseq < next_cseq by {
        let a = if i < index { i } else { i + 1 };
        assert(rest[i] == pending[a]);
    }
    assert forall|i: int, j: int| 0 <= i < j < rest.len() implies (#[trigger] rest[i]).cseq < (
    #[trigger] rest[j]).cseq by {
        let a = if i < index { i } else { i + 1 };
        let b = if j < index { j } else { j + 1 };
        assert(rest[i] == pending[a]);
        assert(rest[j] == pending[b]);
        assert(pending[a].cseq < pending[b].cseq);
    }
    let marked = pending.update(index, Pending { abandoned: true, ..pending[index] });
    assert forall|i: int| 0 <= i < marked.len() implies (#[trigger] marked[i]).cseq < next_cseq by {
        assert(marked[i].cseq == pending[i].cseq);
    }
    assert forall|i: int, j: int| 0 <= i < j < marked.len() implies (#[trigger] marked[i]).cseq < (
    #[trigger] marked[j]).cseq by {
        assert(marked[i].cseq == pending[i].cseq);
        assert(marked[j].cseq == pending[j].cseq);
        assert(pending[i].cseq < pending[j].cseq);
    }
}

/// A request that goes out with the next `CSeq` keeps the numbering.
pub proof fn lemma_numbered_with(pending: Seq<Pending>, next_cseq: u32, request: Pending)
    requires
        spec_is_numbered(pending, next_cseq),
        next_cseq <= MAX_CSEQ,
        request.cseq == next_cseq,
    ensures
        spec_is_numbered(pending.push(request), (next_cseq + 1) as u32),
{
    let grown = pending.push(request);
    assert forall|i: int, j: int| 0 <= i < j < grown.len() implies (#[trigger] grown[i]).cseq < (
    #[trigger] grown[j]).cseq by {
        assert(grown[i] == pending[i]);
        if j < pending.len() {
            assert(grown[j] == pending[j]);
            assert(pending[i].cseq < pending[j].cseq);
        }
    }
    assert forall|i: int| 0 <= i < grown.len() implies (#[trigger] grown[i]).cseq < next_cseq + 1 by {
        if i < pending.len() {
            assert(grown[i] == pending[i]);
        }
    }
}

/// Taking the requests whose time is over out of the requests that wait
/// keeps the numbering.
pub proof fn lemma_numbered_unexpired(pending: Seq<Pending>, next_cseq: u32, now: u64)
    requires
        spec_is_numbered(pending, next_cseq),
    ensures
        spec_is_numbered(spec_unexpired(pending, now), next_cseq),
    decreases pending.len(),
{
    if pending.len() > 0 {
        let front = pending.drop_last();
        let last = pending.last();
        assert forall|i: int| 0 <= i < front.len() implies (#[trigger] front[i]).cseq
            < last.cseq by {
            assert(front[i] == pending[i]);
            assert(pending[i].cseq < pending[pending.len() - 1].cseq);
        }
        assert forall|i: int, j: int| 0 <= i < j < front.len() implies (#[trigger] front[i]).cseq < (
        #[trigger] front[j]).cseq by {
            assert(front[i] == pending[i]);
            assert(front[j] == pending[j]);
            assert(pending[i].cseq < pending[j].cseq);
        }
        lemma_numbered_unexpired(front, last.cseq, now);
        let kept = spec_unexpired(front, now);
        let all = spec_unexpired(pending, now);
        assert(last.cseq < next_cseq);
        assert forall|i: int| 0 <= i < all.len() implies (#[trigger] all[i]).cseq < next_cseq by {
            if i < kept.len() {
                assert(all[i] == kept[i]);
            }
        }
        assert forall|i: int, j: int| 0 <= i < j < all.len() implies (#[trigger] all[i]).cseq < (
        #[trigger] all[j]).cseq by {
            assert(all[i] == kept[i]);
            if j < kept.len() {
                assert(all[j] == kept[j]);
                assert(kept[i].cseq < kept[j].cseq);
            }
        }
    }
}

/// `spec_find_cseq` returns the first position at which the `CSeq` stands.
pub proof fn lemma_find_cseq(pending: Seq<Pending>, cseq: u32, index: int)
    requires
        0 <= index <= pending.len(),
        forall|j: int| 0 <= j < index ==> (#[trigger] pending[j]).cseq != cseq,
        index < pending.len() ==> pending[index].cseq == cseq,
    ensures
        spec_find_cseq(pending, cseq) == index,
    decreases pending.len(),
{
    if pending.len() == 0 || pending[0].cseq == cseq {
        if index > 0 {
            assert(pending[0].cseq != cseq);
        }
    } else {
        let rest = pending.skip(1);
        assert forall|j: int| 0 <= j < index - 1 implies (#[trigger] rest[j]).cseq != cseq by {
            assert(rest[j] == pending[j + 1]);
        }
        if index < pending.len() {
            assert(rest[index - 1] == pending[index]);
        }
        lemma_find_cseq(rest, cseq, index - 1);
    }
}

/// `spec_find_ticket` returns the first position at which a request with the
/// ticket stands that its caller has not given up on.
pub proof fn lemma_find_ticket(pending: Seq<Pending>, ticket: u64, index: int)
    requires
        0 <= index <= pending.len(),
        forall|j: int|
            0 <= j < index ==> !((#[trigger] pending[j]).ticket == ticket && !pending[j].abandoned),
        index < pending.len() ==> pending[index].ticket == ticket && !pending[index].abandoned,
    ensures
        spec_find_ticket(pending, ticket) == index,
    decreases pending.len(),
{
    if pending.len() == 0 || (pending[0].ticket == ticket && !pending[0].abandoned) {
        if index > 0 {
            assert(!(pending[0].ticket == ticket && !pending[0].abandoned));
        }
    } else {
        let rest = pending.skip(1);
        assert forall|j: int| 0 <= j < index - 1 implies !((#[trigger] rest[j]).ticket == ticket
            && !rest[j].abandoned) by {
            assert(rest[j] == pending[j + 1]);
        }
        if index < pending.len() {
            assert(rest[index - 1] == pending[index]);
        }
        lemma_find_ticket(rest, ticket, index - 1);
    }
}

/// `spec_find_inbound` returns the first position at which the `CSeq`
/// stands.
pub proof fn lemma_find_inbound(inbound: Seq<u32>, cseq: u32, index: int)
    requires
        0 <= index <= inbound.len(),
        forall|j: int| 0 <= j < index ==> #[trigger] inbound[j] != cseq,
        index < inbound.len() ==> inbound[index] == cseq,
    ensures
        spec_find_inbound(inbound, cseq) == index,
    decreases inbound.len(),
{
    if inbound.len() == 0 || inbound[0] == cseq {
        if index > 0 {
            assert(inbound[0] != cseq);
        }
    } else {
        let rest = inbound.skip(1);
        assert forall|j: int| 0 <= j < index - 1 implies #[trigger] rest[j] != cseq by {
            assert(rest[j] == inbound[j + 1]);
        }
        if index < inbound.len() {
            assert(rest[index - 1] == inbound[index]);
        }
        lemma_find_inbound(rest, cseq, index - 1);
    }
}

/// The connection engine.
#[derive(Debug)]
pub struct Connection {
    decoder: Decoder,
    phase: Phase,
    next_cseq: u32,
    pending: Vec<Pending>,
    inbound: Vec<u32>,
    max_inbound: usize,
    timeout: Option<u64>,
}

impl View for Connection {
    type V = ConnectionView;

    closed spec fn view(&self) -> ConnectionView {
        ConnectionView {
            phase: self.phase,
            next_cseq: self.next_cseq,
            pending: self.pending@,
            inbound: self.inbound@,
            buffered: self.decoder.buffered(),
            max_body: self.decoder.max_body_length(),
            max_inbound: self.max_inbound,
            timeout: self.timeout,
        }
    }
}

impl Connection {
    /// Creates the engine of a connection that accepts bodies of any length,
    /// lets the service work on `DEFAULT_MAX_INBOUND` requests at one time,
    /// and lets requests wait for their response without a limit.
    pub fn new() -> (res: Connection)
        ensures
            res@ == ConnectionView::new(usize::MAX, DEFAULT_MAX_INBOUND, None),
            res@.reachable(),
    {
        Connection::with_limits(usize::MAX, DEFAULT_MAX_INBOUND, None)
    }

    /// Creates the engine of a connection that accepts bodies of at most
    /// `max_body` bytes, lets the service work on `max_inbound` requests at
    /// one time, and lets a request wait for its response for the time
    /// `timeout` at most, if that is a time. Times are numbers on a clock of
    /// the driver, which runs forward.
    pub fn with_limits(max_body: usize, max_inbound: usize, timeout: Option<u64>) -> (res:
        Connection)
        ensures
            res@ == ConnectionView::new(max_body, max_inbound, timeout),
            res@.reachable(),
    {
        Connection {
            decoder: Decoder::with_max_body_length(max_body),
            phase: Phase::Open,
            next_cseq: 1,
            pending: Vec::new(),
            inbound: Vec::new(),
            max_inbound,
            timeout,
        }
    }

    /// Returns the phase of the connection.
    pub fn phase(&self) -> (res: Phase)
        ensures
            res == self@.phase,
    {
        self.phase
    }

    /// Returns the number of requests that wait for a response.
    pub fn pending_len(&self) -> (res: usize)
        ensures
            res == self@.pending.len(),
    {
        self.pending.len()
    }

    /// Decides whether the engine can go on decoding: whether `poll` would do
    /// anything.
    pub fn can_poll(&self) -> (res: bool)
        ensures
            res == self@.can_poll(),
    {
        if let Phase::Closed(_) = self.phase {
            return false;
        }
        if self.inbound.len() >= self.max_inbound {
            return false;
        }
        self.decoder.is_ready()
    }

    /// Appends to `actions` the deliveries that fail every request that waits
    /// for a response with `error`.
    fn fail_all(&self, error: OperationError, actions: &mut Vec<Action>)
        ensures
            spec_actions(final(actions)@) == spec_actions(old(actions)@) + spec_fail_all(
                self.pending@,
                error,
            ),
    {
        let ghost before = spec_actions(actions@);
        let mut i: usize = 0;
        proof {
            assert(self.pending@.take(0) =~= Seq::<Pending>::empty());
            assert(spec_actions(actions@) =~= before + spec_fail_all(self.pending@.take(0), error));
        }
        while i < self.pending.len()
            invariant
                i <= self.pending@.len(),
                spec_actions(actions@) == before + spec_fail_all(self.pending@.take(i as int), error),
            decreases self.pending@.len() - i,
        {
            let entry = self.pending[i];
            let ghost done = spec_actions(actions@);
            proof {
                assert(self.pending@.take(i + 1).drop_last() =~= self.pending@.take(i as int));
                assert(self.pending@.take(i + 1).last() == entry);
            }
            if !entry.abandoned {
                actions.push(Action::Deliver { ticket: entry.ticket, outcome: Err(error) });
                assert(spec_actions(actions@) =~= done.push(
                    ActionView::Deliver { ticket: entry.ticket, outcome: Err(error) },
                ));
            }
            i += 1;
        }
        assert(self.pending@.take(self.pending@.len() as int) =~= self.pending@);
    }

    /// Ends the connection with `error`.
    fn terminate(&mut self, error: OperationError, actions: &mut Vec<Action>)
        ensures
            final(self)@ == old(self)@.terminate(error).0,
            spec_actions(final(actions)@) == spec_actions(old(actions)@) + old(self)@.terminate(
                error,
            ).1,
            old(self)@.reachable() ==> final(self)@.reachable(),
    {
        self.fail_all(error, actions);
        let ghost failed = spec_actions(actions@);
        actions.push(Action::Shutdown);
        assert(spec_actions(actions@) =~= failed.push(ActionView::Shutdown));
        self.phase = Phase::Closed(Some(error));
        self.pending = Vec::new();
        self.inbound = Vec::new();
    }

    /// Decides whether a caller still waits for a response.
    fn has_live(&self) -> (res: bool)
        ensures
            res == spec_has_live(self.pending@),
    {
        let mut i: usize = 0;
        while i < self.pending.len()
            invariant
                i <= self.pending@.len(),
                forall|j: int| 0 <= j < i ==> (#[trigger] self.pending@[j]).abandoned,
            decreases self.pending@.len() - i,
        {
            if !self.pending[i].abandoned {
                return true;
            }
            i += 1;
        }
        false
    }

    /// Ends a step: closes a connection that is closing and has nothing left
    /// to wait for.
    fn settle(&mut self, actions: &mut Vec<Action>)
        ensures
            final(self)@ == old(self)@.settle(spec_actions(old(actions)@)).0,
            spec_actions(final(actions)@) == old(self)@.settle(spec_actions(old(actions)@)).1,
            old(self)@.reachable() ==> final(self)@.reachable(),
    {
        let closing = match self.phase {
            Phase::Closing => true,
            _ => false,
        };
        if closing && self.inbound.len() == 0 && !self.has_live() {
            let ghost before = spec_actions(actions@);
            actions.push(Action::Shutdown);
            assert(spec_actions(actions@) =~= before.push(ActionView::Shutdown));
            self.phase = Phase::Closed(None);
            self.pending = Vec::new();
        }
    }

    /// Finds the first request with the `CSeq` `cseq` that waits for a
    /// response.
    fn find_cseq(&self, cseq: u32) -> (res: usize)
        ensures
            res == spec_find_cseq(self.pending@, cseq),
            res <= self.pending@.len(),
    {
        let mut i: usize = 0;
        while i < self.pending.len() && self.pending[i].cseq != cseq
            invariant
                i <= self.pending@.len(),
                forall|j: int| 0 <= j < i ==> (#[trigger] self.pending@[j]).cseq != cseq,
            decreases self.pending@.len() - i,
        {
            i += 1;
        }
        proof {
            lemma_find_cseq(self.pending@, cseq, i as int);
        }
        i
    }

    /// Finds the first request with the ticket `ticket` that waits for a
    /// response and that its caller has not given up on.
    fn find_ticket(&self, ticket: u64) -> (res: usize)
        ensures
            res == spec_find_ticket(self.pending@, ticket),
            res <= self.pending@.len(),
    {
        let mut i: usize = 0;
        while i < self.pending.len() && !(self.pending[i].ticket == ticket
            && !self.pending[i].abandoned)
            invariant
                i <= self.pending@.len(),
                forall|j: int|
                    0 <= j < i ==> !((#[trigger] self.pending@[j]).ticket == ticket
                        && !self.pending@[j].abandoned),
            decreases self.pending@.len() - i,
        {
            i += 1;
        }
        proof {
            lemma_find_ticket(self.pending@, ticket, i as int);
        }
        i
    }

    /// Finds the first inbound request with the `CSeq` `cseq` that the
    /// service is working on.
    fn find_inbound(&self, cseq: u32) -> (res: usize)
        ensures
            res == spec_find_inbound(self.inbound@, cseq),
            res <= self.inbound@.len(),
    {
        let mut i: usize = 0;
        while i < self.inbound.len() && self.inbound[i] != cseq
            invariant
                i <= self.inbound@.len(),
                forall|j: int| 0 <= j < i ==> #[trigger] self.inbound@[j] != cseq,
            decreases self.inbound@.len() - i,
        {
            i += 1;
        }
        proof {
            lemma_find_inbound(self.inbound@, cseq, i as int);
        }
        i
    }

    /// A caller with the ticket `ticket` sends `request` at the time `now`.
    ///
    /// The request is written with the next `CSeq` of the connection, in
    /// place of whatever `CSeq` header it holds, and waits for its response.
    /// The caller gets its outcome by a `Deliver` action with its ticket:
    /// from this call if the request fails at once, else from a later step.
    pub fn send_request(
        &mut self,
        ticket: u64,
        request: Request<Vec<u8>, HeaderMap>,
        now: u64,
    ) -> (res: Vec<Action>)
        ensures
            final(self)@ == old(self)@.send(ticket, Message::Request(request)@, now).0,
            spec_actions(res@) == old(self)@.send(ticket, Message::Request(request)@, now).1,
            old(self)@.reachable() ==> final(self)@.reachable(),
    {
        let mut actions: Vec<Action> = Vec::new();
        assert(spec_actions(actions@) =~= Seq::<ActionView>::empty());
        let open = match self.phase {
            Phase::Open => true,
            _ => false,
        };
        if !open {
            actions.push(
                Action::Deliver { ticket, outcome: Err(OperationError::ConnectionClosed) },
            );
            assert(spec_actions(actions@) =~= old(self)@.send(
                ticket,
                Message::Request(request)@,
                now,
            ).1);
            return actions;
        }
        let cseq = match CSeq::try_from(self.next_cseq) {
            Ok(cseq) => cseq,
            Err(_) => {
                actions.push(
                    Action::Deliver {
                        ticket,
                        outcome: Err(OperationError::Protocol(ProtocolError::DuplicateCSeq)),
                    },
                );
                assert(spec_actions(actions@) =~= old(self)@.send(
                    ticket,
                    Message::Request(request)@,
                    now,
                ).1);
                return actions;
            },
        };
        let mut request = request;
        let ghost given = Message::Request(request)@;
        request.headers_mut().set(HeaderName::CSeq, cseq.to_header_raw());
        assert(Message::Request(request)@ == spec_with_cseq(given, self.next_cseq));
        let mut bytes: Vec<u8> = Vec::new();
        match encode_request(&request, &mut bytes) {
            Ok(()) => {
                assert(bytes@ =~= spec_encode(spec_with_cseq(given, self.next_cseq)));
                actions.push(Action::Write(bytes));
                let deadline = match self.timeout {
                    Some(limit) => Some(now.saturating_add(limit)),
                    None => None,
                };
                let entry = Pending { cseq: self.next_cseq, ticket, deadline, abandoned: false };
                proof {
                    if self@.reachable() {
                        lemma_numbered_with(self.pending@, self.next_cseq, entry);
                    }
                }
                self.next_cseq = self.next_cseq + 1;
                self.pending.push(entry);
                assert(spec_actions(actions@) =~= old(self)@.send(ticket, given, now).1);
            },
            Err(_) => {
                let error = OperationError::Protocol(ProtocolError::Encode);
                actions.push(Action::Deliver { ticket, outcome: Err(error) });
                assert(spec_actions(actions@) =~= seq![
                    ActionView::Deliver { ticket, outcome: Err(error) },
                ]);
                self.terminate(error, &mut actions);
            },
        }
        actions
    }

    /// The caller with the ticket `ticket` gives up on its request. No other
    /// request is touched.
    pub fn cancel(&mut self, ticket: u64) -> (res: Vec<Action>)
        ensures
            final(self)@ == old(self)@.cancel(ticket).0,
            spec_actions(res@) == old(self)@.cancel(ticket).1,
            old(self)@.reachable() ==> final(self)@.reachable(),
    {
        let mut actions: Vec<Action> = Vec::new();
        assert(spec_actions(actions@) =~= Seq::<ActionView>::empty());
        let index = self.find_ticket(ticket);
        if index < self.pending.len() {
            let entry = self.pending[index];
            proof {
                if self@.reachable() {
                    lemma_numbered_without(self.pending@, self.next_cseq, index as int);
                }
            }
            self.pending.set(index, Pending { abandoned: true, ..entry });
            self.settle(&mut actions);
        }
        actions
    }

    /// The time `now` has come. Every request whose deadline has come fails
    /// with `Timeout`.
    pub fn expire(&mut self, now: u64) -> (res: Vec<Action>)
        ensures
            final(self)@ == old(self)@.expire(now).0,
            spec_actions(res@) == old(self)@.expire(now).1,
            old(self)@.reachable() ==> final(self)@.reachable(),
    {
        let mut actions: Vec<Action> = Vec::new();
        let mut kept: Vec<Pending> = Vec::new();
        let mut i: usize = 0;
        proof {
            assert(self.pending@.take(0) =~= Seq::<Pending>::empty());
            assert(spec_actions(actions@) =~= spec_expire_all(self.pending@.take(0), now));
            assert(kept@ =~= spec_unexpired(self.pending@.take(0), now));
        }
        while i < self.pending.len()
            invariant
                i <= self.pending@.len(),
                kept@ == spec_unexpired(self.pending@.take(i as int), now),
                spec_actions(actions@) == spec_expire_all(self.pending@.take(i as int), now),
            decreases self.pending@.len() - i,
        {
            let entry = self.pending[i];
            let ghost done = spec_actions(actions@);
            proof {
                assert(self.pending@.take(i + 1).drop_last() =~= self.pending@.take(i as int));
                assert(self.pending@.take(i + 1).last() == entry);
            }
            let expired = !entry.abandoned && match entry.deadline {
                Some(deadline) => deadline <= now,
                None => false,
            };
            if expired {
                actions.push(
                    Action::Deliver { ticket: entry.ticket, outcome: Err(OperationError::Timeout) },
                );
                assert(spec_actions(actions@) =~= done.push(
                    ActionView::Deliver {
                        ticket: entry.ticket,
                        outcome: Err(OperationError::Timeout),
                    },
                ));
            } else {
                kept.push(entry);
            }
            i += 1;
        }
        proof {
            assert(self.pending@.take(self.pending@.len() as int) =~= self.pending@);
            if self@.reachable() {
                lemma_numbered_unexpired(self.pending@, self.next_cseq, now);
            }
        }
        self.pending = kept;
        self.settle(&mut actions);
        actions
    }

    /// Returns the earliest deadline of the requests that a caller waits for,
    /// if one of them has a deadline: the time at which the driver is to call
    /// `expire` next.
    pub fn next_deadline(&self) -> (res: Option<u64>)
        ensures
            res == spec_next_deadline(self@.pending),
    {
        let mut earliest: Option<u64> = None;
        let mut i: usize = 0;
        assert(self.pending@.take(0) =~= Seq::<Pending>::empty());
        while i < self.pending.len()
            invariant
                i <= self.pending@.len(),
                earliest == spec_next_deadline(self.pending@.take(i as int)),
            decreases self.pending@.len() - i,
        {
            let entry = self.pending[i];
            proof {
                assert(self.pending@.take(i + 1).drop_last() =~= self.pending@.take(i as int));
                assert(self.pending@.take(i + 1).last() == entry);
            }
            if !entry.abandoned {
                if let Some(deadline) = entry.deadline {
                    earliest = match earliest {
                        Some(earlier) if earlier <= deadline => earliest,
                        _ => Some(deadline),
                    };
                }
            }
            i += 1;
        }
        assert(self.pending@.take(self.pending@.len() as int) =~= self.pending@);
        earliest
    }

    /// Bytes came in from the transport.
    pub fn receive(&mut self, bytes: &[u8])
        ensures
            final(self)@ == old(self)@.receive(bytes@),
            old(self)@.reachable() ==> final(self)@.reachable(),
    {
        if let Phase::Closed(_) = self.phase {
            return ;
        }
        self.decoder.extend(bytes);
    }

    /// Handles a response that came in.
    fn handle_response(&mut self, response: Response<Vec<u8>, HeaderMap>, actions: &mut Vec<Action>)
        requires
            old(actions)@.len() == 0,
        ensures
            final(self)@ == old(self)@.response(Message::Response(response)@).0,
            spec_actions(final(actions)@) == old(self)@.response(Message::Response(response)@).1,
            old(self)@.reachable() ==> final(self)@.reachable(),
    {
        assert(spec_actions(actions@) =~= Seq::<ActionView>::empty());
        let cseq = match typed_header::<CSeq>(response.headers()) {
            Ok(Some(cseq)) => cseq.value(),
            _ => {
                self.terminate(
                    OperationError::Protocol(ProtocolError::UnsolicitedResponse),
                    actions,
                );
                return ;
            },
        };
        let index = self.find_cseq(cseq);
        if index >= self.pending.len() {
            self.terminate(OperationError::Protocol(ProtocolError::UnsolicitedResponse), actions);
            return ;
        }
        proof {
            if self@.reachable() {
                lemma_numbered_without(self.pending@, self.next_cseq, index as int);
            }
        }
        let entry = self.pending.remove(index);
        if !entry.abandoned {
            let ghost view = Message::Response(response)@;
            actions.push(Action::Deliver { ticket: entry.ticket, outcome: Ok(response) });
            assert(spec_actions(actions@) =~= seq![
                ActionView::Deliver { ticket: entry.ticket, outcome: Ok(view) },
            ]);
        }
        self.settle(actions);
    }

    /// Handles a request that came in.
    fn handle_request(&mut self, request: Request<Vec<u8>, HeaderMap>, actions: &mut Vec<Action>)
        requires
            old(actions)@.len() == 0,
        ensures
            final(self)@ == old(self)@.request(Message::Request(request)@).0,
            spec_actions(final(actions)@) == old(self)@.request(Message::Request(request)@).1,
            old(self)@.reachable() ==> final(self)@.reachable(),
    {
        assert(spec_actions(actions@) =~= Seq::<ActionView>::empty());
        let cseq = match typed_header::<CSeq>(request.headers()) {
            Ok(Some(cseq)) => cseq.value(),
            _ => {
                let response = status_response(StatusCode::BadRequest);
                let mut bytes: Vec<u8> = Vec::new();
                match encode_response(&response, &mut bytes) {
                    Ok(()) => {
                        assert(bytes@ =~= spec_encode(
                            spec_status_response(StatusCode::BadRequest),
                        ));
                        actions.push(Action::Report(ProtocolError::MissingCSeq));
                        actions.push(Action::Write(bytes));
                        assert(spec_actions(actions@) =~= seq![
                            ActionView::Report(ProtocolError::MissingCSeq),
                            ActionView::Write(
                                spec_encode(spec_status_response(StatusCode::BadRequest)),
                            ),
                        ]);
                    },
                    Err(_) => {},
                }
                return ;
            },
        };
        if self.find_inbound(cseq) < self.inbound.len() {
            self.terminate(OperationError::Protocol(ProtocolError::DuplicateCSeq), actions);
            return ;
        }
        self.inbound.push(cseq);
        let ghost view = Message::Request(request)@;
        actions.push(Action::Call { cseq, request });
        assert(spec_actions(actions@) =~= seq![ActionView::Call { cseq, request: view }]);
    }

    /// Decodes what is at the front of the bytes that came in, and handles
    /// it. Nothing happens unless the engine can go on decoding: the driver
    /// calls `poll` after `receive`, and again after every step that lets the
    /// service go on, for as long as `can_poll` holds.
    pub fn poll(&mut self) -> (res: Vec<Action>)
        ensures
            final(self)@ == old(self)@.poll().0,
            spec_actions(res@) == old(self)@.poll().1,
            old(self)@.reachable() ==> final(self)@.reachable(),
    {
        let mut actions: Vec<Action> = Vec::new();
        assert(spec_actions(actions@) =~= Seq::<ActionView>::empty());
        if let Phase::Closed(_) = self.phase {
            return actions;
        }
        if self.inbound.len() >= self.max_inbound {
            return actions;
        }
        match self.decoder.decode() {
            Ok(None) => {},
            Ok(Some(Message::Response(response))) => {
                self.handle_response(response, &mut actions);
            },
            Ok(Some(Message::Request(request))) => {
                self.handle_request(request, &mut actions);
            },
            Err(error) => {
                self.terminate(
                    OperationError::Protocol(ProtocolError::from_decode(error)),
                    &mut actions,
                );
            },
        }
        actions
    }

    /// Ends the connection with `error`, unless it is closed already.
    fn fail(&mut self, error: OperationError) -> (res: Vec<Action>)
        ensures
            final(self)@ == old(self)@.fail(error).0,
            spec_actions(res@) == old(self)@.fail(error).1,
            old(self)@.reachable() ==> final(self)@.reachable(),
    {
        let mut actions: Vec<Action> = Vec::new();
        assert(spec_actions(actions@) =~= Seq::<ActionView>::empty());
        if let Phase::Closed(_) = self.phase {
            return actions;
        }
        self.terminate(error, &mut actions);
        actions
    }

    /// The peer closed the transport. Every request that waits for a response
    /// fails with `ConnectionClosed`.
    pub fn read_closed(&mut self) -> (res: Vec<Action>)
        ensures
            final(self)@ == old(self)@.fail(OperationError::ConnectionClosed).0,
            spec_actions(res@) == old(self)@.fail(OperationError::ConnectionClosed).1,
            old(self)@.reachable() ==> final(self)@.reachable(),
    {
        self.fail(OperationError::ConnectionClosed)
    }

    /// Reading from the transport or writing to it failed. Every request that
    /// waits for a response fails with `Transport`.
    pub fn transport_failed(&mut self) -> (res: Vec<Action>)
        ensures
            final(self)@ == old(self)@.fail(OperationError::Transport).0,
            spec_actions(res@) == old(self)@.fail(OperationError::Transport).1,
            old(self)@.reachable() ==> final(self)@.reachable(),
    {
        self.fail(OperationError::Transport)
    }

    /// The service panicked. Every request that waits for a response fails
    /// with `ServicePanicked`.
    pub fn service_panicked(&mut self) -> (res: Vec<Action>)
        ensures
            final(self)@ == old(self)@.fail(
                OperationError::Protocol(ProtocolError::ServicePanicked),
            ).0,
            spec_actions(res@) == old(self)@.fail(
                OperationError::Protocol(ProtocolError::ServicePanicked),
            ).1,
            old(self)@.reachable() ==> final(self)@.reachable(),
    {
        self.fail(OperationError::Protocol(ProtocolError::ServicePanicked))
    }

    /// The service replies with `response` to the request that was handed to
    /// it under `cseq`. The response is written with that `CSeq`, in place of
    /// whatever `CSeq` header it holds.
    pub fn service_replied(&mut self, cseq: u32, response: Response<Vec<u8>, HeaderMap>) -> (res:
        Vec<Action>)
        ensures
            final(self)@ == old(self)@.reply(cseq, Message::Response(response)@).0,
            spec_actions(res@) == old(self)@.reply(cseq, Message::Response(response)@).1,
            old(self)@.reachable() ==> final(self)@.reachable(),
    {
        let mut actions: Vec<Action> = Vec::new();
        assert(spec_actions(actions@) =~= Seq::<ActionView>::empty());
        if let Phase::Closed(_) = self.phase {
            return actions;
        }
        let index = self.find_inbound(cseq);
        if index >= self.inbound.len() {
            return actions;
        }
        let header = match CSeq::try_from(cseq) {
            Ok(header) => header,
            Err(_) => {
                return actions;
            },
        };
        let mut response = response;
        let ghost given = Message::Response(response)@;
        response.headers_mut().set(HeaderName::CSeq, header.to_header_raw());
        assert(Message::Response(response)@ == spec_with_cseq(given, cseq));
        let mut bytes: Vec<u8> = Vec::new();
        match encode_response(&response, &mut bytes) {
            Ok(()) => {
                assert(bytes@ =~= spec_encode(spec_with_cseq(given, cseq)));
                self.inbound.remove(index);
                actions.push(Action::Write(bytes));
                assert(spec_actions(actions@) =~= seq![
                    ActionView::Write(spec_encode(spec_with_cseq(given, cseq))),
                ]);
                self.settle(&mut actions);
            },
            Err(_) => {
                self.terminate(OperationError::Protocol(ProtocolError::Encode), &mut actions);
            },
        }
        actions
    }

    /// Asks the connection to close. It takes no new request from then on,
    /// and closes once no caller waits for a response and the service works
    /// on no request.
    pub fn close(&mut self) -> (res: Vec<Action>)
        ensures
            final(self)@ == old(self)@.close().0,
            spec_actions(res@) == old(self)@.close().1,
            old(self)@.reachable() ==> final(self)@.reachable(),
    {
        let mut actions: Vec<Action> = Vec::new();
        assert(spec_actions(actions@) =~= Seq::<ActionView>::empty());
        let open = match self.phase {
            Phase::Open => true,
            _ => false,
        };
        if open {
            self.phase = Phase::Closing;
            self.settle(&mut actions);
        }
        actions
    }
}

/// Makes the response with the status code `status`, its canonical reason
/// phrase, no header and no body.
pub fn status_response(status: StatusCode) -> (res: Response<Vec<u8>, HeaderMap>)
    requires
        status !is Extension,
    ensures
        Message::Response(res)@ == spec_status_response(status),
        res.wf(),
{
    proof {
        lemma_canonical_reason(status);
    }
    let reason = match status.canonical_reason() {
        Some(reason) => reason,
        None => unreached(),
    };
    let body: Vec<u8> = Vec::new();
    Response::from_parts(Version::RTSP20, status, reason, HeaderMap::new(), body)
}

/// A handler of the requests that come in on a connection.
pub trait Service {
    /// Answers `request`.
    fn call(&mut self, request: Request<Vec<u8>, HeaderMap>) -> Response<Vec<u8>, HeaderMap>;
}

/// The service of a connection that is used as a client only: it answers
/// every request with 501 Not Implemented.
#[derive(Clone, Copy, Debug, Default)]
pub struct EmptyService;

impl Service for EmptyService {
    fn call(&mut self, request: Request<Vec<u8>, HeaderMap>) -> (res: Response<
        Vec<u8>,
        HeaderMap,
    >)
        ensures
            Message::Response(res)@ == spec_status_response(StatusCode::NotImplemented),
    {
        status_response(StatusCode::NotImplemented)
    }
}

} // verus!
