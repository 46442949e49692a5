//! What holds of the connection engine in every state that it can reach.

use vstd::prelude::*;

use super::connection::{
    lemma_find_cseq, lemma_numbered_unexpired, lemma_numbered_with, lemma_numbered_without,
    spec_deadline, spec_expire_all, spec_fail_all, spec_find_cseq, spec_find_ticket,
    spec_has_live, spec_is_expired, spec_unexpired, ActionView, ConnectionView, OperationError,
    Pending, Phase, ProtocolError,
};
use super::message::MessageView;
use crate::header::typed_map::spec_typed;
use crate::header::types::{CSeq, InvalidTypedHeader, MAX_CSEQ};

verus! {

/// A new engine is in a state that it can be in.
pub proof fn lemma_new_is_reachable(max_body: usize, max_inbound: usize, timeout: Option<u64>)
    ensures
        ConnectionView::new(max_body, max_inbound, timeout).reachable(),
{
}

/// Every step of the engine leads from a state that it can be in to a state
/// that it can be in.
pub proof fn lemma_steps_keep_reachable(
    connection: ConnectionView,
    ticket: u64,
    cseq: u32,
    message: MessageView,
    bytes: Seq<u8>,
    error: OperationError,
    now: u64,
)
    requires
        connection.reachable(),
    ensures
        connection.send(ticket, message, now).0.reachable(),
        connection.cancel(ticket).0.reachable(),
        connection.expire(now).0.reachable(),
        connection.receive(bytes).reachable(),
        connection.response(message).0.reachable(),
        connection.request(message).0.reachable(),
        connection.poll().0.reachable(),
        connection.fail(error).0.reachable(),
        connection.reply(cseq, message).0.reachable(),
        connection.close().0.reachable(),
{
    let pending = connection.pending;
    let next = connection.next_cseq;
    // send
    if next <= MAX_CSEQ {
        lemma_numbered_with(
            pending,
            next,
            Pending {
                cseq: next,
                ticket,
                deadline: spec_deadline(connection.timeout, now),
                abandoned: false,
            },
        );
    }
    // expire
    lemma_numbered_unexpired(pending, next, now);
    // cancel
    let by_ticket = spec_find_ticket(pending, ticket);
    lemma_find_ticket_bounds(pending, ticket);
    if by_ticket < pending.len() {
        lemma_numbered_without(pending, next, by_ticket);
    }
    // response
    match spec_typed::<CSeq>(message.headers) {
        Ok(Some(found)) => {
            lemma_find_cseq_bounds(pending, found);
            let by_cseq = spec_find_cseq(pending, found);
            if by_cseq < pending.len() {
                lemma_numbered_without(pending, next, by_cseq);
            }
        },
        _ => {},
    }
    // poll
    assert(connection.poll().0.reachable()) by {
        lemma_poll_keeps_reachable(connection);
    }
}

/// `poll` leads from a state that the engine can be in to a state that it
/// can be in.
proof fn lemma_poll_keeps_reachable(connection: ConnectionView)
    requires
        connection.reachable(),
    ensures
        connection.poll().0.reachable(),
{
    if connection.can_poll() {
        match super::decode::spec_decode(connection.buffered, connection.max_body) {
            super::decode::Decoded::Complete(message, length) => {
                let rest = ConnectionView { buffered: connection.buffered.skip(length), ..connection };
                match spec_typed::<CSeq>(message.headers) {
                    Ok(Some(found)) => {
                        lemma_find_cseq_bounds(rest.pending, found);
                        let by_cseq = spec_find_cseq(rest.pending, found);
                        if by_cseq < rest.pending.len() {
                            lemma_numbered_without(rest.pending, rest.next_cseq, by_cseq);
                        }
                    },
                    _ => {},
                }
            },
            _ => {},
        }
    }
}

/// `spec_find_cseq` returns a position in the requests or their number.
pub proof fn lemma_find_cseq_bounds(pending: Seq<Pending>, cseq: u32)
    ensures
        0 <= spec_find_cseq(pending, cseq) <= pending.len(),
        spec_find_cseq(pending, cseq) < pending.len() ==> pending[spec_find_cseq(
            pending,
            cseq,
        )].cseq == cseq,
    decreases pending.len(),
{
    if pending.len() == 0 || pending[0].cseq == cseq {
    } else {
        lemma_find_cseq_bounds(pending.skip(1), cseq);
        let found = spec_find_cseq(pending.skip(1), cseq);
        if found < pending.skip(1).len() {
            assert(pending.skip(1)[found] == pending[found + 1]);
        }
    }
}

/// `spec_find_ticket` returns a position in the requests or their number.
pub proof fn lemma_find_ticket_bounds(pending: Seq<Pending>, ticket: u64)
    ensures
        0 <= spec_find_ticket(pending, ticket) <= pending.len(),
        spec_find_ticket(pending, ticket) < pending.len() ==> {
            &&& pending[spec_find_ticket(pending, ticket)].ticket == ticket
            &&& !pending[spec_find_ticket(pending, ticket)].abandoned
        },
    decreases pending.len(),
{
    if pending.len() == 0 || (pending[0].ticket == ticket && !pending[0].abandoned) {
    } else {
        lemma_find_ticket_bounds(pending.skip(1), ticket);
        let found = spec_find_ticket(pending.skip(1), ticket);
        if found < pending.skip(1).len() {
            assert(pending.skip(1)[found] == pending[found + 1]);
        }
    }
}

/// Correlation by `CSeq`. In a state that the engine can be in, a response
/// with the `CSeq` of a request that waits is delivered to the caller of
/// that request and to no other, whatever the order in which requests went
/// out and responses come in; and the other requests go on waiting.
pub proof fn lemma_response_goes_to_its_caller(
    connection: ConnectionView,
    response: MessageView,
    cseq: u32,
    index: int,
)
    requires
        connection.reachable(),
        spec_typed::<CSeq>(response.headers) == Ok::<Option<u32>, InvalidTypedHeader>(Some(cseq)),
        0 <= index < connection.pending.len(),
        connection.pending[index].cseq == cseq,
        !connection.pending[index].abandoned,
    ensures
        ({
            let delivery = ActionView::Deliver {
                ticket: connection.pending[index].ticket,
                outcome: Ok(response),
            };
            let step = connection.response(response);
            &&& step.1 == seq![delivery] || step.1 == seq![delivery, ActionView::Shutdown]
            &&& step.1 == seq![delivery] ==> step.0.pending == connection.pending.remove(index)
            &&& step.1 == seq![delivery] ==> step.0.phase == connection.phase
            &&& spec_has_live(connection.pending.remove(index)) ==> step.1 == seq![delivery]
        }),
{
    let pending = connection.pending;
    assert forall|j: int| 0 <= j < index implies (#[trigger] pending[j]).cseq != cseq by {
        assert(pending[j].cseq < pending[index].cseq);
    }
    lemma_find_cseq(pending, cseq, index);
    let delivery = ActionView::Deliver { ticket: pending[index].ticket, outcome: Ok(response) };
    assert(seq![delivery].push(ActionView::Shutdown) =~= seq![delivery, ActionView::Shutdown]);
}

/// A delivery that fails a request is among the deliveries that fail all
/// requests, for every request that its caller has not given up on.
pub proof fn lemma_fail_all_reaches(pending: Seq<Pending>, error: OperationError, index: int)
    requires
        0 <= index < pending.len(),
        !pending[index].abandoned,
    ensures
        spec_fail_all(pending, error).contains(
            ActionView::Deliver { ticket: pending[index].ticket, outcome: Err(error) },
        ),
    decreases pending.len(),
{
    let delivery = ActionView::Deliver { ticket: pending[index].ticket, outcome: Err(error) };
    let before = spec_fail_all(pending.drop_last(), error);
    if index == pending.len() - 1 {
        assert(before.push(delivery)[before.len() as int] == delivery);
    } else {
        assert(pending.drop_last()[index] == pending[index]);
        lemma_fail_all_reaches(pending.drop_last(), error, index);
        let at = choose|k: int| 0 <= k < before.len() && before[k] == delivery;
        if !pending.last().abandoned {
            let all = spec_fail_all(pending, error);
            assert(all[at] == delivery);
        }
    }
}

/// Unsolicited responses. A response without a `CSeq`, or with a `CSeq` for
/// which no request waits, ends the connection: the connection is closed with
/// `UnsolicitedResponse`, every caller that waits for a response gets that
/// error, and the transport is closed.
pub proof fn lemma_unsolicited_response_ends_connection(
    connection: ConnectionView,
    response: MessageView,
    index: int,
)
    requires
        match spec_typed::<CSeq>(response.headers) {
            Ok(Some(cseq)) => forall|j: int|
                0 <= j < connection.pending.len() ==> (#[trigger] connection.pending[j]).cseq
                    != cseq,
            _ => true,
        },
        0 <= index < connection.pending.len(),
        !connection.pending[index].abandoned,
    ensures
        ({
            let error = OperationError::Protocol(ProtocolError::UnsolicitedResponse);
            let step = connection.response(response);
            &&& step.0.phase == Phase::Closed(Some(error))
            &&& step.0.pending.len() == 0
            &&& step.1.last() == ActionView::Shutdown
            &&& step.1.contains(
                ActionView::Deliver {
                    ticket: connection.pending[index].ticket,
                    outcome: Err(error),
                },
            )
        }),
{
    let error = OperationError::Protocol(ProtocolError::UnsolicitedResponse);
    match spec_typed::<CSeq>(response.headers) {
        Ok(Some(cseq)) => {
            lemma_find_cseq(connection.pending, cseq, connection.pending.len() as int);
        },
        _ => {},
    }
    lemma_fail_all_reaches(connection.pending, error, index);
    let failed = spec_fail_all(connection.pending, error);
    let delivery = ActionView::Deliver {
        ticket: connection.pending[index].ticket,
        outcome: Err(error),
    };
    let at = choose|k: int| 0 <= k < failed.len() && failed[k] == delivery;
    assert(failed.push(ActionView::Shutdown)[at] == delivery);
}

/// Cancellation safety. Where a caller gives up on its request, every other
/// request that a caller waits for goes on waiting as before, nothing is
/// delivered or written, and the connection stays in its phase.
pub proof fn lemma_cancel_touches_no_other_request(
    connection: ConnectionView,
    ticket: u64,
    other: int,
)
    requires
        0 <= other < connection.pending.len(),
        !connection.pending[other].abandoned,
        other != spec_find_ticket(connection.pending, ticket),
    ensures
        ({
            let step = connection.cancel(ticket);
            &&& step.1 == Seq::<ActionView>::empty()
            &&& step.0.pending.len() == connection.pending.len()
            &&& step.0.pending[other] == connection.pending[other]
            &&& step.0.phase == connection.phase
            &&& step.0.next_cseq == connection.next_cseq
            &&& step.0.inbound == connection.inbound
            &&& step.0.buffered == connection.buffered
        }),
{
    let pending = connection.pending;
    let index = spec_find_ticket(pending, ticket);
    lemma_find_ticket_bounds(pending, ticket);
    if index < pending.len() {
        let marked = pending.update(index, Pending { abandoned: true, ..pending[index] });
        assert(!marked[other].abandoned);
        assert(spec_has_live(marked));
    }
}

/// No request whose time is over is among the requests whose time is not
/// over; every other request is.
pub proof fn lemma_unexpired(pending: Seq<Pending>, now: u64)
    ensures
        forall|k: int|
            0 <= k < spec_unexpired(pending, now).len() ==> !spec_is_expired(
                #[trigger] spec_unexpired(pending, now)[k],
                now,
            ),
        forall|i: int|
            0 <= i < pending.len() && !spec_is_expired(#[trigger] pending[i], now)
                ==> spec_unexpired(pending, now).contains(pending[i]),
    decreases pending.len(),
{
    if pending.len() > 0 {
        let front = pending.drop_last();
        let kept = spec_unexpired(front, now);
        let all = spec_unexpired(pending, now);
        lemma_unexpired(front, now);
        assert forall|k: int| 0 <= k < all.len() implies !spec_is_expired(#[trigger] all[k], now) by {
            if k < kept.len() {
                assert(all[k] == kept[k]);
            }
        }
        assert forall|i: int|
            0 <= i < pending.len() && !spec_is_expired(#[trigger] pending[i], now) implies all.contains(
            pending[i],
        ) by {
            if i < front.len() {
                assert(front[i] == pending[i]);
                assert(kept.contains(front[i]));
                let at = choose|k: int| 0 <= k < kept.len() && kept[k] == front[i];
                assert(all[at] == pending[i]);
            } else {
                assert(all[all.len() - 1] == pending[i]);
            }
        }
    }
}

/// A delivery that fails a request with `Timeout` is among the deliveries for
/// the requests whose time is over, for every such request.
pub proof fn lemma_expire_all_reaches(pending: Seq<Pending>, now: u64, index: int)
    requires
        0 <= index < pending.len(),
        spec_is_expired(pending[index], now),
    ensures
        spec_expire_all(pending, now).contains(
            ActionView::Deliver {
                ticket: pending[index].ticket,
                outcome: Err(OperationError::Timeout),
            },
        ),
    decreases pending.len(),
{
    let delivery = ActionView::Deliver {
        ticket: pending[index].ticket,
        outcome: Err(OperationError::Timeout),
    };
    let before = spec_expire_all(pending.drop_last(), now);
    if index == pending.len() - 1 {
        assert(before.push(delivery)[before.len() as int] == delivery);
    } else {
        assert(pending.drop_last()[index] == pending[index]);
        lemma_expire_all_reaches(pending.drop_last(), now, index);
        let at = choose|k: int| 0 <= k < before.len() && before[k] == delivery;
        if spec_is_expired(pending.last(), now) {
            assert(spec_expire_all(pending, now)[at] == delivery);
        }
    }
}

/// Timeouts. When the time `now` has come, a request whose deadline has come
/// fails with `Timeout`, and no request that goes on waiting has a deadline
/// that has come; a request whose time is not over goes on waiting, unless
/// the connection closes for having nothing left to wait for.
pub proof fn lemma_expire_fails_what_is_due(connection: ConnectionView, now: u64, index: int)
    requires
        0 <= index < connection.pending.len(),
    ensures
        ({
            let request = connection.pending[index];
            let step = connection.expire(now);
            &&& spec_is_expired(request, now) ==> step.1.contains(
                ActionView::Deliver { ticket: request.ticket, outcome: Err(OperationError::Timeout) },
            )
            &&& forall|k: int|
                0 <= k < step.0.pending.len() ==> !spec_is_expired(#[trigger] step.0.pending[k], now)
            &&& !spec_is_expired(request, now) && !request.abandoned ==> step.0.pending.contains(
                request,
            ) && step.0.phase == connection.phase
        }),
{
    let pending = connection.pending;
    let request = pending[index];
    let kept = spec_unexpired(pending, now);
    let failed = spec_expire_all(pending, now);
    lemma_unexpired(pending, now);
    if spec_is_expired(request, now) {
        lemma_expire_all_reaches(pending, now, index);
        let delivery = ActionView::Deliver {
            ticket: request.ticket,
            outcome: Err(OperationError::Timeout),
        };
        let at = choose|k: int| 0 <= k < failed.len() && failed[k] == delivery;
        assert(failed.push(ActionView::Shutdown)[at] == delivery);
    } else if !request.abandoned {
        assert(kept.contains(request));
        let at = choose|k: int| 0 <= k < kept.len() && kept[k] == request;
        assert(!kept[at].abandoned);
        assert(spec_has_live(kept));
    }
}

} // verus!
