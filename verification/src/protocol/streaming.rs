//! Streaming: what the decoder finds at the front of a buffer as the bytes
//! come in.
//!
//! Until a message is complete, the decoder asks for more bytes: it finds no
//! message and no error in any proper prefix of the bytes of a message. Once
//! it finds a message or an error, the bytes that come later change neither.

use vstd::prelude::*;

use super::decode::{
    lemma_find_crlf, lemma_find_crlf_is, spec_decode, spec_find_crlf, spec_parse_headers,
    spec_parse_line, Parsed, MAX_HEADER_LINE_LENGTH, MAX_START_LINE_LENGTH,
};
use super::encode::{spec_encode, HeaderLine};
use super::message::MessageView;
use super::roundtrip::{lemma_round_trip, spec_is_canonical};
use crate::header::map::HeaderMapView;
use crate::syntax::{CR, LF};

verus! {

/// The end of a line is found in a prefix of the bytes where the prefix holds
/// it, and is not found where the prefix ends before it.
pub proof fn lemma_find_crlf_prefix(bytes: Seq<u8>, length: int, from: int)
    requires
        0 <= from <= length <= bytes.len(),
    ensures
        spec_find_crlf(bytes.take(length), from) == if spec_find_crlf(bytes, from) + 2 <= length {
            spec_find_crlf(bytes, from)
        } else {
            length
        },
{
    let prefix = bytes.take(length);
    let end = spec_find_crlf(bytes, from);
    lemma_find_crlf(bytes, from);
    if end + 2 <= length {
        assert forall|j: int| from <= j < end && j + 1 < prefix.len() implies !(#[trigger] prefix[j]
            == CR && prefix[j + 1] == LF) by {
            assert(prefix[j] == bytes[j]);
            assert(prefix[j + 1] == bytes[j + 1]);
            assert(!(bytes[j] == CR && bytes[j + 1] == LF));
        }
        assert(prefix[end] == bytes[end]);
        assert(prefix[end + 1] == bytes[end + 1]);
        lemma_find_crlf_is(prefix, from, end);
    } else {
        assert forall|j: int| from <= j < length && j + 1 < prefix.len() implies !(
        #[trigger] prefix[j] == CR && prefix[j + 1] == LF) by {
            assert(prefix[j] == bytes[j]);
            assert(prefix[j + 1] == bytes[j + 1]);
            assert(!(bytes[j] == CR && bytes[j + 1] == LF));
        }
        lemma_find_crlf_is(prefix, from, length);
    }
}

/// A line that the decoder finds in the bytes, it finds in a prefix of the
/// bytes that holds the line with its end; in a prefix that ends before, it
/// finds the beginning of a line.
pub proof fn lemma_parse_line_prefix(bytes: Seq<u8>, length: int, from: int, max: int)
    requires
        0 <= from <= length <= bytes.len(),
        spec_parse_line(bytes, from, max) is Done,
    ensures
        spec_parse_line(bytes.take(length), from, max) == if spec_parse_line(bytes, from, max)->Done_1
            <= length {
            spec_parse_line(bytes, from, max)
        } else {
            Parsed::Incomplete
        },
        from < spec_parse_line(bytes, from, max)->Done_1 <= bytes.len(),
{
    let prefix = bytes.take(length);
    let end = spec_find_crlf(bytes, from);
    lemma_find_crlf(bytes, from);
    lemma_find_crlf_prefix(bytes, length, from);
    if end + 2 <= length {
        assert(prefix.subrange(from, end) =~= bytes.subrange(from, end));
    }
}

/// Headers that the decoder finds in the bytes, it finds in a prefix of the
/// bytes that holds them with the empty line that ends them; in a prefix that
/// ends before, it finds the beginning of headers.
pub proof fn lemma_parse_headers_prefix(
    bytes: Seq<u8>,
    length: int,
    from: int,
    headers: HeaderMapView,
    pending: Option<HeaderLine>,
)
    requires
        0 <= from <= length <= bytes.len(),
        spec_parse_headers(bytes, from, headers, pending) is Done,
    ensures
        spec_parse_headers(bytes.take(length), from, headers, pending) == if spec_parse_headers(
            bytes,
            from,
            headers,
            pending,
        )->Done_1 <= length {
            spec_parse_headers(bytes, from, headers, pending)
        } else {
            Parsed::Incomplete
        },
        from < spec_parse_headers(bytes, from, headers, pending)->Done_1 <= bytes.len(),
    decreases bytes.len() - from,
{
    let max = MAX_HEADER_LINE_LENGTH as int;
    lemma_parse_line_prefix(bytes, length, from, max);
    match spec_parse_line(bytes, from, max) {
        Parsed::Done(line, next) => {
            if line.len() > 0 && crate::syntax::spec_is_whitespace(line[0]) {
                let last = pending->Some_0;
                let joined = super::decode::spec_fold(last.1, line)->Ok_0;
                if next <= length {
                    lemma_parse_headers_prefix(bytes, length, next, headers, Some((last.0, joined)));
                } else {
                    lemma_parse_headers_prefix(bytes, next, next, headers, Some((last.0, joined)));
                }
            } else if line.len() == 0 {
            } else {
                let header = super::decode::spec_parse_header_line(line)->Ok_0;
                let flushed = super::decode::spec_flush(headers, pending);
                if next <= length {
                    lemma_parse_headers_prefix(bytes, length, next, flushed, Some(header));
                } else {
                    lemma_parse_headers_prefix(bytes, next, next, flushed, Some(header));
                }
            }
        },
        _ => {},
    }
}

/// The decoder finds the beginning of a message, and neither a message nor
/// an error, in every prefix of the bytes that ends before the message that
/// it finds in the bytes.
pub proof fn lemma_prefix_is_incomplete(bytes: Seq<u8>, max_body: usize, length: int)
    requires
        spec_decode(bytes, max_body) is Complete,
        0 <= length < spec_decode(bytes, max_body)->Complete_1,
        length <= bytes.len(),
    ensures
        spec_decode(bytes.take(length), max_body) is Incomplete,
{
    let max = MAX_START_LINE_LENGTH as int;
    lemma_parse_line_prefix(bytes, length, 0, max);
    match spec_parse_line(bytes, 0, max) {
        Parsed::Done(line, next) => {
            if next <= length {
                lemma_parse_headers_prefix(bytes, length, next, HeaderMapView::empty(), None);
            }
        },
        _ => {},
    }
}

/// The streaming guarantee. The decoder finds the beginning of a message in
/// every proper prefix of the bytes of a canonical message: it asks for more
/// bytes until the message is complete.
pub proof fn lemma_streaming(message: MessageView, max_body: usize, length: int)
    requires
        spec_is_canonical(message),
        message.body.len() <= max_body,
        0 <= length < spec_encode(message).len(),
    ensures
        spec_decode(spec_encode(message).take(length), max_body) is Incomplete,
{
    let bytes = spec_encode(message);
    lemma_round_trip(message, Seq::empty(), max_body);
    assert(bytes + Seq::<u8>::empty() =~= bytes);
    lemma_prefix_is_incomplete(bytes, max_body, length);
}

/// The end of a line that is found in the bytes is found in the same place
/// when more bytes follow; and where none is found, none is found before the
/// last of the bytes.
pub proof fn lemma_find_crlf_more(bytes: Seq<u8>, more: Seq<u8>, from: int)
    requires
        0 <= from <= bytes.len(),
    ensures
        spec_find_crlf(bytes, from) < bytes.len() ==> spec_find_crlf(bytes + more, from)
            == spec_find_crlf(bytes, from),
        spec_find_crlf(bytes, from) == bytes.len() ==> spec_find_crlf(bytes + more, from)
            >= bytes.len() - 1,
        from <= spec_find_crlf(bytes + more, from) <= bytes.len() + more.len(),
{
    let all = bytes + more;
    let end = spec_find_crlf(bytes, from);
    lemma_find_crlf(bytes, from);
    lemma_find_crlf(all, from);
    if end < bytes.len() {
        assert forall|j: int| from <= j < end && j + 1 < all.len() implies !(#[trigger] all[j] == CR
            && all[j + 1] == LF) by {
            assert(all[j] == bytes[j]);
            assert(all[j + 1] == bytes[j + 1]);
            assert(!(bytes[j] == CR && bytes[j + 1] == LF));
        }
        assert(all[end] == bytes[end]);
        assert(all[end + 1] == bytes[end + 1]);
        lemma_find_crlf_is(all, from, end);
    } else {
        let found = spec_find_crlf(all, from);
        if found < bytes.len() - 1 {
            assert(all[found] == bytes[found]);
            assert(all[found + 1] == bytes[found + 1]);
            assert(!(bytes[found] == CR && bytes[found + 1] == LF));
        }
    }
}

/// What the decoder finds where it looks for a line, a line or an error, it
/// finds when more bytes follow.
pub proof fn lemma_parse_line_more(bytes: Seq<u8>, more: Seq<u8>, from: int, max: int)
    requires
        0 <= from <= bytes.len(),
        0 <= max,
        !(spec_parse_line(bytes, from, max) is Incomplete),
    ensures
        spec_parse_line(bytes + more, from, max) == spec_parse_line(bytes, from, max),
        spec_parse_line(bytes, from, max) matches Parsed::Done(_, next) ==> from < next
            <= bytes.len(),
{
    let all = bytes + more;
    let end = spec_find_crlf(bytes, from);
    lemma_find_crlf(bytes, from);
    lemma_find_crlf_more(bytes, more, from);
    if end < bytes.len() {
        assert(all.subrange(from, end) =~= bytes.subrange(from, end));
    }
}

/// What the decoder finds where it looks for headers, headers or an error,
/// it finds when more bytes follow.
pub proof fn lemma_parse_headers_more(
    bytes: Seq<u8>,
    more: Seq<u8>,
    from: int,
    headers: HeaderMapView,
    pending: Option<HeaderLine>,
)
    requires
        0 <= from <= bytes.len(),
        !(spec_parse_headers(bytes, from, headers, pending) is Incomplete),
    ensures
        spec_parse_headers(bytes + more, from, headers, pending) == spec_parse_headers(
            bytes,
            from,
            headers,
            pending,
        ),
        spec_parse_headers(bytes, from, headers, pending) matches Parsed::Done(_, next) ==> from
            < next <= bytes.len(),
    decreases bytes.len() - from,
{
    let max = MAX_HEADER_LINE_LENGTH as int;
    lemma_parse_line_more(bytes, more, from, max);
    match spec_parse_line(bytes, from, max) {
        Parsed::Done(line, next) => {
            if line.len() > 0 && crate::syntax::spec_is_whitespace(line[0]) {
                match pending {
                    Some(last) => match super::decode::spec_fold(last.1, line) {
                        Ok(joined) => {
                            lemma_parse_headers_more(
                                bytes,
                                more,
                                next,
                                headers,
                                Some((last.0, joined)),
                            );
                        },
                        Err(_) => {},
                    },
                    None => {},
                }
            } else if line.len() == 0 {
            } else {
                match super::decode::spec_parse_header_line(line) {
                    Ok(header) => {
                        lemma_parse_headers_more(
                            bytes,
                            more,
                            next,
                            super::decode::spec_flush(headers, pending),
                            Some(header),
                        );
                    },
                    Err(_) => {},
                }
            }
        },
        _ => {},
    }
}

/// What the decoder finds at the front of a buffer, a message or an error,
/// it finds at the front of the buffer when more bytes have come: the bytes
/// that follow a message do not change the message, and an error stays.
pub proof fn lemma_decode_is_stable(bytes: Seq<u8>, more: Seq<u8>, max_body: usize)
    requires
        !(spec_decode(bytes, max_body) is Incomplete),
    ensures
        spec_decode(bytes + more, max_body) == spec_decode(bytes, max_body),
{
    let all = bytes + more;
    let max = MAX_START_LINE_LENGTH as int;
    lemma_parse_line_more(bytes, more, 0, max);
    match spec_parse_line(bytes, 0, max) {
        Parsed::Done(line, next) => {
            if super::decode::spec_parse_start(line) is Some {
                lemma_parse_headers_more(bytes, more, next, HeaderMapView::empty(), None);
                match spec_parse_headers(bytes, next, HeaderMapView::empty(), None) {
                    Parsed::Done(headers, body) => {
                        match crate::header::typed_map::spec_typed::<
                            crate::header::types::ContentLength,
                        >(headers) {
                            Ok(Some(length)) => {
                                if length <= max_body {
                                    assert(all.subrange(body, body + length) =~= bytes.subrange(
                                        body,
                                        body + length,
                                    ));
                                }
                            },
                            _ => {},
                        }
                    },
                    _ => {},
                }
            }
        },
        _ => {},
    }
}

} // verus!
