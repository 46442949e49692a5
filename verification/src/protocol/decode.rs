//! The decoder: from the bytes that come off the wire to messages.
//!
//! `spec_decode` says what a buffer of bytes holds at its front: a complete
//! message, the beginning of one, or something that is no message. The
//! executable decoder computes exactly that.

use vstd::prelude::*;
use vstd::slice::slice_subrange;

use super::encode::HeaderLine;
use super::message::{Message, MessageView, StartLine};
use crate::header::map::{spec_append, HeaderMapView};
use crate::header::name::{lemma_parsed_view, spec_name_view, HeaderName};
use crate::header::typed_map::{spec_typed, typed_header};
use crate::header::types::ContentLength;
use crate::header::value::{spec_is_valid_value, spec_value_byte_ok, HeaderValue};
use crate::header::{HeaderMap, MAX_HEADER_NAME_LENGTH, MAX_HEADER_VALUE_LENGTH};
use crate::method::Method;
use crate::number::{
    lemma_digits_bound, lemma_pow10_19, parse_decimal, spec_digits_value, spec_is_digits,
};
use crate::reason::{spec_is_reason_phrase, ReasonPhrase};
use crate::request::Request;
use crate::response::Response;
use crate::status::{
    lemma_canonical_reason, spec_canonical_reason_of, spec_is_standard_code, StatusCode,
};
use crate::syntax::{
    bytes_eq, bytes_to_vec, index_of, is_whitespace, spec_index_of, spec_is_printable,
    spec_is_token, spec_is_whitespace, spec_trim_whitespace, trim_whitespace, CR, HTAB, LF, SP,
};
use crate::uri::{spec_is_request_uri, RequestURIField};
use crate::version::Version;

verus! {

/// The longest first line that is accepted, in bytes, without the end of the
/// line.
pub const MAX_START_LINE_LENGTH: usize = 8192;

/// The longest header line that is accepted, in bytes, without the end of
/// the line.
pub const MAX_HEADER_LINE_LENGTH: usize = 8192;

/// An error of the decoder: the bytes are no message. It is fatal to the
/// connection.
#[derive(Clone, Copy, Debug, PartialEq, Eq, Structural, Hash)]
pub enum DecodeError {
    /// The first line is neither a request line nor a status line of RTSP
    /// 2.0.
    BadStartLine,
    /// A header line has no colon, a name that is no token or a value with a
    /// byte that is not allowed; or a line continues a header that is not
    /// there.
    BadHeader,
    /// The body is longer than the decoder accepts.
    BodyTooLarge,
    /// The `Content-Length` header has more than one value, or a value that
    /// is not a number of at most 19 digits that the platform can hold.
    BadContentLength,
    /// The first line, a header line, a header name or a header value is
    /// longer than the decoder accepts.
    LineTooLong,
}

impl DecodeError {
    /// A short description of the error.
    pub fn description(&self) -> (res: &'static str)
        ensures
            res@ == (match self {
                DecodeError::BadStartLine => "invalid RTSP start line"@,
                DecodeError::BadHeader => "invalid RTSP header"@,
                DecodeError::BodyTooLarge => "RTSP message body too large"@,
                DecodeError::BadContentLength => "invalid RTSP content length"@,
                DecodeError::LineTooLong => "RTSP line too long"@,
            }),
    {
        match self {
            DecodeError::BadStartLine => "invalid RTSP start line",
            DecodeError::BadHeader => "invalid RTSP header",
            DecodeError::BodyTooLarge => "RTSP message body too large",
            DecodeError::BadContentLength => "invalid RTSP content length",
            DecodeError::LineTooLong => "RTSP line too long",
        }
    }
}

/// How far the decoder has come with the message at the front of its buffer.
#[derive(Clone, Copy, Debug, PartialEq, Eq, Structural, Hash)]
pub enum DecodeState {
    /// The first line is not complete.
    StartLine,
    /// The first line is read; the headers are not complete.
    Headers,
    /// The headers are read; so many bytes of the body are still to come.
    Body(usize),
    /// Bytes that are no message are at the front of the buffer: there is
    /// nothing more to read.
    Done,
}

/// What a step of the decoder finds at a position of the buffer.
pub enum Parsed<T> {
    /// The buffer ends before the step is done.
    Incomplete,
    /// The bytes are no message.
    Invalid(DecodeError),
    /// The step is done: what was read, and the position after it.
    Done(T, int),
}

/// What the decoder finds at the front of a buffer.
pub enum Decoded {
    /// The beginning of a message, read so far.
    Incomplete(DecodeState),
    /// Bytes that are no message.
    Invalid(DecodeError),
    /// A message, and the number of bytes that it takes.
    Complete(MessageView, int),
}

/// The first position from `from` on at which a carriage return is followed
/// by a line feed; the length of `bytes` if there is none.
pub open spec fn spec_find_crlf(bytes: Seq<u8>, from: int) -> int
    decreases bytes.len() - from,
{
    if from + 1 >= bytes.len() {
        bytes.len() as int
    } else if bytes[from] == CR && bytes[from + 1] == LF {
        from
    } else {
        spec_find_crlf(bytes, from + 1)
    }
}

/// The line that starts at `from`, without its end, and the position after
/// its end. A line of more than `max` bytes is an error, whether its end is
/// there yet or not.
pub open spec fn spec_parse_line(bytes: Seq<u8>, from: int, max: int) -> Parsed<Seq<u8>> {
    let end = spec_find_crlf(bytes, from);
    if end < bytes.len() {
        if end - from > max {
            Parsed::Invalid(DecodeError::LineTooLong)
        } else {
            Parsed::Done(bytes.subrange(from, end), end + 2)
        }
    } else if bytes.len() - from > max + 1 {
        Parsed::Invalid(DecodeError::LineTooLong)
    } else {
        Parsed::Incomplete
    }
}

/// What the first line `line` says, if it is a request line or a status line
/// of RTSP 2.0. The reason phrase of a standardized status code is its
/// canonical reason phrase, whatever the line holds.
pub open spec fn spec_parse_start(line: Seq<u8>) -> Option<StartLine> {
    let first_end = spec_index_of(line, SP);
    let first = line.take(first_end);
    let rest = line.skip(first_end + 1);
    let second_end = spec_index_of(rest, SP);
    let second = rest.take(second_end);
    let third = rest.skip(second_end + 1);
    if first_end >= line.len() || second_end >= rest.len() {
        None
    } else if first == Version::RTSP20@ {
        if second.len() == 3 && spec_is_digits(second) && 100 <= spec_digits_value(second) <= 599
            && spec_is_reason_phrase(third) {
            let status = spec_digits_value(second) as u16;
            Some(
                StartLine::Response {
                    status,
                    reason: if spec_is_standard_code(status) {
                        spec_canonical_reason_of(status)
                    } else {
                        third
                    },
                },
            )
        } else {
            None
        }
    } else if spec_is_token(first) && spec_is_request_uri(second) && third == Version::RTSP20@ {
        Some(StartLine::Request { method: first, uri: second })
    } else {
        None
    }
}

/// Whether `bytes` may stand in a header value on one line: printable ASCII
/// bytes and horizontal tabs.
pub open spec fn spec_is_value_text(bytes: Seq<u8>) -> bool {
    forall|i: int| 0 <= i < bytes.len() ==> spec_is_printable(#[trigger] bytes[i]) || bytes[i] == HTAB
}

/// What the header line `line` says: the name before the first colon and the
/// value after it, each without the whitespace around it.
pub open spec fn spec_parse_header_line(line: Seq<u8>) -> Result<HeaderLine, DecodeError> {
    let colon = spec_index_of(line, 0x3a);
    let name = spec_trim_whitespace(line.take(colon));
    let value = spec_trim_whitespace(line.skip(colon + 1));
    if colon >= line.len() {
        Err(DecodeError::BadHeader)
    } else if name.len() > MAX_HEADER_NAME_LENGTH {
        Err(DecodeError::LineTooLong)
    } else if !spec_is_token(name) || !spec_is_value_text(value) {
        Err(DecodeError::BadHeader)
    } else if value.len() > MAX_HEADER_VALUE_LENGTH {
        Err(DecodeError::LineTooLong)
    } else {
        Ok((spec_name_view(name), value))
    }
}

/// The header value `value` continued by the line `line`: the text of the
/// line, without the whitespace around it, joins the value after one space.
pub open spec fn spec_fold(value: Seq<u8>, line: Seq<u8>) -> Result<Seq<u8>, DecodeError> {
    let more = spec_trim_whitespace(line);
    let joined = if more.len() == 0 {
        value
    } else if value.len() == 0 {
        more
    } else {
        value + seq![SP] + more
    };
    if !spec_is_value_text(more) {
        Err(DecodeError::BadHeader)
    } else if joined.len() > MAX_HEADER_VALUE_LENGTH {
        Err(DecodeError::LineTooLong)
    } else {
        Ok(joined)
    }
}

/// The headers `headers` with the header line that was read last, if there
/// is one.
pub open spec fn spec_flush(headers: HeaderMapView, pending: Option<HeaderLine>) -> HeaderMapView {
    match pending {
        Some(line) => spec_append(headers, line.0, line.1),
        None => headers,
    }
}

/// The headers that the lines from `from` on hold, up to the empty line that
/// ends them, joined to `headers` and to the header line `pending` that was
/// read last, which the next line may still continue.
pub open spec fn spec_parse_headers(
    bytes: Seq<u8>,
    from: int,
    headers: HeaderMapView,
    pending: Option<HeaderLine>,
) -> Parsed<HeaderMapView>
    decreases bytes.len() - from,
{
    match spec_parse_line(bytes, from, MAX_HEADER_LINE_LENGTH as int) {
        Parsed::Incomplete => Parsed::Incomplete,
        Parsed::Invalid(error) => Parsed::Invalid(error),
        Parsed::Done(line, next) => {
            if next <= from || next > bytes.len() {
                Parsed::Incomplete
            } else if line.len() > 0 && spec_is_whitespace(line[0]) {
                match pending {
                    None => Parsed::Invalid(DecodeError::BadHeader),
                    Some(last) => match spec_fold(last.1, line) {
                        Err(error) => Parsed::Invalid(error),
                        Ok(joined) => spec_parse_headers(
                            bytes,
                            next,
                            headers,
                            Some((last.0, joined)),
                        ),
                    },
                }
            } else if line.len() == 0 {
                Parsed::Done(spec_flush(headers, pending), next)
            } else {
                match spec_parse_header_line(line) {
                    Err(error) => Parsed::Invalid(error),
                    Ok(header) => spec_parse_headers(
                        bytes,
                        next,
                        spec_flush(headers, pending),
                        Some(header),
                    ),
                }
            }
        },
    }
}

/// What the buffer `bytes` holds at its front, for a decoder that accepts
/// bodies of at most `max_body` bytes.
pub open spec fn spec_decode(bytes: Seq<u8>, max_body: usize) -> Decoded {
    match spec_parse_line(bytes, 0, MAX_START_LINE_LENGTH as int) {
        Parsed::Incomplete => Decoded::Incomplete(DecodeState::StartLine),
        Parsed::Invalid(error) => Decoded::Invalid(error),
        Parsed::Done(line, next) => match spec_parse_start(line) {
            None => Decoded::Invalid(DecodeError::BadStartLine),
            Some(start) => match spec_parse_headers(bytes, next, HeaderMapView::empty(), None) {
                Parsed::Incomplete => Decoded::Incomplete(DecodeState::Headers),
                Parsed::Invalid(error) => Decoded::Invalid(error),
                Parsed::Done(headers, body) => match spec_typed::<ContentLength>(headers) {
                    Ok(Some(length)) => {
                        if length > max_body {
                            Decoded::Invalid(DecodeError::BodyTooLarge)
                        } else if bytes.len() - body < length {
                            Decoded::Incomplete(
                                DecodeState::Body((length - (bytes.len() - body)) as usize),
                            )
                        } else {
                            Decoded::Complete(
                                MessageView {
                                    version: Version::RTSP20,
                                    start,
                                    headers,
                                    body: bytes.subrange(body, body + length),
                                },
                                body + length,
                            )
                        }
                    },
                    _ => Decoded::Invalid(DecodeError::BadContentLength),
                },
            },
        },
    }
}

/// `spec_find_crlf` returns the first position at which a line ends.
pub proof fn lemma_find_crlf(bytes: Seq<u8>, from: int)
    requires
        0 <= from <= bytes.len(),
    ensures
        from <= spec_find_crlf(bytes, from) <= bytes.len(),
        spec_find_crlf(bytes, from) < bytes.len() ==> {
            &&& spec_find_crlf(bytes, from) + 1 < bytes.len()
            &&& bytes[spec_find_crlf(bytes, from)] == CR
            &&& bytes[spec_find_crlf(bytes, from) + 1] == LF
        },
        forall|j: int|
            from <= j < spec_find_crlf(bytes, from) && j + 1 < bytes.len() ==> !(#[trigger] bytes[j]
                == CR && bytes[j + 1] == LF),
    decreases bytes.len() - from,
{
    if from + 1 >= bytes.len() {
    } else if bytes[from] == CR && bytes[from + 1] == LF {
    } else {
        lemma_find_crlf(bytes, from + 1);
    }
}

/// A position before which no line ends, and at which a line ends or which
/// is the end of the bytes, is what `spec_find_crlf` returns.
pub proof fn lemma_find_crlf_is(bytes: Seq<u8>, from: int, end: int)
    requires
        0 <= from <= end <= bytes.len(),
        forall|j: int|
            from <= j < end && j + 1 < bytes.len() ==> !(#[trigger] bytes[j] == CR && bytes[j + 1]
                == LF),
        end < bytes.len() ==> end + 1 < bytes.len() && bytes[end] == CR && bytes[end + 1] == LF,
    ensures
        spec_find_crlf(bytes, from) == end,
    decreases end - from,
{
    if from + 1 >= bytes.len() {
    } else if from == end {
    } else {
        assert(!(bytes[from] == CR && bytes[from + 1] == LF));
        lemma_find_crlf_is(bytes, from + 1, end);
    }
}

/// Text that may stand in a header value, and is short enough, is a header
/// value.
pub proof fn lemma_text_is_value(bytes: Seq<u8>)
    requires
        spec_is_value_text(bytes),
        bytes.len() <= MAX_HEADER_VALUE_LENGTH,
    ensures
        spec_is_valid_value(bytes),
{
    assert forall|i: int| 0 <= i < bytes.len() implies #[trigger] spec_value_byte_ok(bytes, i) by {
        assert(spec_is_printable(bytes[i]) || bytes[i] == HTAB);
    }
}

/// What the executable decoder finds where it looks for a line.
enum Line {
    /// The buffer ends before the line does.
    Incomplete,
    /// The line is too long.
    TooLong,
    /// The line ends at this position.
    Ends(usize),
}

/// Finds the end of the line that starts at `from`.
fn parse_line(bytes: &[u8], from: usize, max: usize) -> (res: Line)
    requires
        from <= bytes@.len(),
        max <= MAX_START_LINE_LENGTH,
    ensures
        match spec_parse_line(bytes@, from as int, max as int) {
            Parsed::Incomplete => res is Incomplete,
            Parsed::Invalid(error) => res is TooLong && error == DecodeError::LineTooLong,
            Parsed::Done(line, next) => res matches Line::Ends(end) && from <= end && end + 2
                <= bytes.len() && next == end + 2 && line == bytes@.subrange(
                from as int,
                end as int,
            ),
        },
{
    let mut end: usize = from;
    while end < bytes.len() && end + 1 < bytes.len() && !(bytes[end] == CR && bytes[end + 1] == LF)
        && end - from <= max
        invariant
            from <= end <= bytes@.len(),
            max <= MAX_START_LINE_LENGTH,
            forall|j: int|
                from <= j < end && j + 1 < bytes@.len() ==> !(#[trigger] bytes@[j] == CR
                    && bytes@[j + 1] == LF),
        decreases bytes@.len() - end,
    {
        end += 1;
    }
    proof {
        lemma_find_crlf(bytes@, from as int);
        let found = spec_find_crlf(bytes@, from as int);
        if found < end {
            assert(!(bytes@[found] == CR && bytes@[found + 1] == LF));
        }
    }
    if end < bytes.len() && end + 1 < bytes.len() {
        if bytes[end] == CR && bytes[end + 1] == LF {
            proof {
                lemma_find_crlf_is(bytes@, from as int, end as int);
            }
            if end - from > max {
                Line::TooLong
            } else {
                Line::Ends(end)
            }
        } else {
            Line::TooLong
        }
    } else {
        proof {
            lemma_find_crlf_is(bytes@, from as int, bytes@.len() as int);
        }
        if bytes.len() - from > max + 1 {
            Line::TooLong
        } else {
            Line::Incomplete
        }
    }
}

/// What a first line says, as the executable decoder holds it.
enum Start {
    /// A request line.
    Request(Method, RequestURIField),
    /// A status line.
    Response(StatusCode, ReasonPhrase),
}

impl Start {
    /// What the first line says.
    spec fn view(self) -> StartLine {
        match self {
            Start::Request(method, uri) => StartLine::Request { method: method@, uri: uri@ },
            Start::Response(status, reason) => StartLine::Response {
                status: status@,
                reason: reason@,
            },
        }
    }

    /// Whether the parts of the first line are well-formed.
    spec fn wf(self) -> bool {
        match self {
            Start::Request(method, uri) => method.wf() && uri.wf(),
            Start::Response(status, reason) => status.wf() && reason.wf(),
        }
    }
}

/// Reads the first line `line`.
fn parse_start(line: &[u8]) -> (res: Option<Start>)
    ensures
        match spec_parse_start(line@) {
            Some(start) => res matches Some(found) && found.view() == start && found.wf()
                && start.wf(),
            None => res is None,
        },
{
    let first_end = index_of(line, SP);
    if first_end >= line.len() {
        return None;
    }
    let first = slice_subrange(line, 0, first_end);
    let rest = slice_subrange(line, first_end + 1, line.len());
    let second_end = index_of(rest, SP);
    if second_end >= rest.len() {
        return None;
    }
    let second = slice_subrange(rest, 0, second_end);
    let third = slice_subrange(rest, second_end + 1, rest.len());
    proof {
        assert(first@ == line@.take(first_end as int));
        assert(rest@ == line@.skip(first_end + 1));
        assert(second@ == rest@.take(second_end as int));
        assert(third@ == rest@.skip(second_end + 1));
    }
    if bytes_eq(first, Version::RTSP20.as_bytes()) {
        if second.len() != 3 {
            return None;
        }
        let code = match parse_decimal(second, 3) {
            Some(code) => code,
            None => {
                return None;
            },
        };
        proof {
            lemma_digits_bound(second@);
            lemma_pow10_19();
        }
        if code < 100 || code > 599 {
            return None;
        }
        let status = match StatusCode::try_from(code as u16) {
            Ok(status) => status,
            Err(_) => {
                return None;
            },
        };
        let given = match ReasonPhrase::try_from(third) {
            Ok(reason) => reason,
            Err(_) => {
                return None;
            },
        };
        proof {
            if status !is Extension {
                lemma_canonical_reason(status);
            }
        }
        let reason = match status.canonical_reason() {
            Some(canonical) => canonical,
            None => given,
        };
        Some(Start::Response(status, reason))
    } else {
        let method = match Method::try_from(first) {
            Ok(method) => method,
            Err(_) => {
                return None;
            },
        };
        let uri = match RequestURIField::try_from(second) {
            Ok(uri) => uri,
            Err(_) => {
                return None;
            },
        };
        if !bytes_eq(third, Version::RTSP20.as_bytes()) {
            return None;
        }
        Some(Start::Request(method, uri))
    }
}

/// Decides whether `bytes` may stand in a header value on one line.
fn is_value_text(bytes: &[u8]) -> (res: bool)
    ensures
        res == spec_is_value_text(bytes@),
{
    let mut i: usize = 0;
    while i < bytes.len()
        invariant
            i <= bytes@.len(),
            forall|j: int|
                0 <= j < i ==> spec_is_printable(#[trigger] bytes@[j]) || bytes@[j] == HTAB,
        decreases bytes@.len() - i,
    {
        let byte = bytes[i];
        if !((0x20 <= byte && byte <= 0x7e) || byte == HTAB) {
            return false;
        }
        i += 1;
    }
    true
}

/// Reads the header line `line`.
fn parse_header_line(line: &[u8]) -> (res: Result<(HeaderName, Vec<u8>), DecodeError>)
    ensures
        match spec_parse_header_line(line@) {
            Ok(header) => res matches Ok(found) && found.0@ == header.0 && found.1@ == header.1
                && found.0.wf() && spec_is_value_text(header.1) && header.1.len()
                <= MAX_HEADER_VALUE_LENGTH,
            Err(error) => res == Err::<(HeaderName, Vec<u8>), DecodeError>(error),
        },
{
    let colon = index_of(line, 0x3a);
    if colon >= line.len() {
        return Err(DecodeError::BadHeader);
    }
    let name = trim_whitespace(slice_subrange(line, 0, colon));
    let value = trim_whitespace(slice_subrange(line, colon + 1, line.len()));
    proof {
        assert(name@ == spec_trim_whitespace(line@.take(colon as int)));
        assert(value@ == spec_trim_whitespace(line@.skip(colon + 1)));
    }
    if name.len() > MAX_HEADER_NAME_LENGTH {
        return Err(DecodeError::LineTooLong);
    }
    let header_name = match HeaderName::try_from(name) {
        Ok(header_name) => header_name,
        Err(_) => {
            return Err(DecodeError::BadHeader);
        },
    };
    if !is_value_text(value) {
        return Err(DecodeError::BadHeader);
    }
    if value.len() > MAX_HEADER_VALUE_LENGTH {
        return Err(DecodeError::LineTooLong);
    }
    proof {
        lemma_parsed_view(name@, header_name);
    }
    Ok((header_name, bytes_to_vec(value)))
}

/// Continues the header value `value` by the line `line`.
fn fold(value: &mut Vec<u8>, line: &[u8]) -> (res: Result<(), DecodeError>)
    requires
        spec_is_value_text(old(value)@),
    ensures
        match spec_fold(old(value)@, line@) {
            Ok(joined) => res is Ok && final(value)@ == joined && spec_is_value_text(joined)
                && joined.len() <= MAX_HEADER_VALUE_LENGTH,
            Err(error) => res == Err::<(), DecodeError>(error),
        },
{
    let more = trim_whitespace(line);
    if !is_value_text(more) {
        return Err(DecodeError::BadHeader);
    }
    if more.len() == 0 {
        if value.len() > MAX_HEADER_VALUE_LENGTH {
            return Err(DecodeError::LineTooLong);
        }
        return Ok(());
    }
    if value.len() > MAX_HEADER_VALUE_LENGTH || more.len() > MAX_HEADER_VALUE_LENGTH - value.len() {
        return Err(DecodeError::LineTooLong);
    }
    if value.len() == 0 {
        let mut joined = bytes_to_vec(more);
        value.append(&mut joined);
        assert(value@ =~= more@);
        return Ok(());
    }
    if more.len() + 1 > MAX_HEADER_VALUE_LENGTH - value.len() {
        return Err(DecodeError::LineTooLong);
    }
    let ghost before = value@;
    value.push(SP);
    let mut joined = bytes_to_vec(more);
    value.append(&mut joined);
    proof {
        assert(value@ =~= before + seq![SP] + more@);
        assert forall|i: int| 0 <= i < value@.len() implies spec_is_printable(#[trigger] value@[i])
            || value@[i] == HTAB by {
            if i < before.len() {
                assert(value@[i] == before[i]);
            } else if i > before.len() {
                assert(value@[i] == more@[i - before.len() - 1]);
            }
        }
    }
    Ok(())
}

/// The view of the header line that the executable decoder read last.
spec fn spec_pending(pending: Option<(HeaderName, Vec<u8>)>) -> Option<HeaderLine> {
    match pending {
        Some(line) => Some((line.0@, line.1@)),
        None => None,
    }
}

/// Joins the header line that was read last to the headers.
fn flush(headers: &mut HeaderMap, pending: Option<(HeaderName, Vec<u8>)>)
    requires
        old(headers).wf(),
        pending matches Some(line) ==> line.0.wf() && spec_is_value_text(line.1@) && line.1@.len()
            <= MAX_HEADER_VALUE_LENGTH,
    ensures
        final(headers)@ == spec_flush(old(headers)@, spec_pending(pending)),
        final(headers).wf(),
{
    match pending {
        Some((name, value)) => {
            proof {
                lemma_text_is_value(value@);
            }
            headers.append(name, HeaderValue::from_valid(value));
        },
        None => {},
    }
}

/// What the executable decoder finds where it looks for the headers.
enum Head {
    /// The buffer ends before the headers do.
    Incomplete,
    /// The bytes are no headers.
    Invalid(DecodeError),
    /// The headers, and the position after the empty line that ends them.
    Done(HeaderMap, usize),
}

/// Reads the headers from `from` on, up to the empty line that ends them.
fn parse_headers(bytes: &[u8], from: usize) -> (res: Head)
    requires
        from <= bytes@.len(),
    ensures
        match spec_parse_headers(bytes@, from as int, HeaderMapView::empty(), None) {
            Parsed::Incomplete => res is Incomplete,
            Parsed::Invalid(error) => res matches Head::Invalid(found) && found == error,
            Parsed::Done(headers, next) => res matches Head::Done(found, end) && found@ == headers
                && end == next && end <= bytes@.len() && found.wf(),
        },
{
    let ghost expected = spec_parse_headers(bytes@, from as int, HeaderMapView::empty(), None);
    let mut headers = HeaderMap::new();
    let mut pending: Option<(HeaderName, Vec<u8>)> = None;
    let mut position: usize = from;
    loop
        invariant
            position <= bytes@.len(),
            expected == spec_parse_headers(bytes@, from as int, HeaderMapView::empty(), None),
            expected == spec_parse_headers(
                bytes@,
                position as int,
                headers@,
                spec_pending(pending),
            ),
            headers.wf(),
            pending matches Some(line) ==> line.0.wf() && spec_is_value_text(line.1@)
                && line.1@.len() <= MAX_HEADER_VALUE_LENGTH,
        decreases bytes@.len() - position,
    {
        let end = match parse_line(bytes, position, MAX_HEADER_LINE_LENGTH) {
            Line::Incomplete => {
                return Head::Incomplete;
            },
            Line::TooLong => {
                return Head::Invalid(DecodeError::LineTooLong);
            },
            Line::Ends(end) => end,
        };
        let line = slice_subrange(bytes, position, end);
        if line.len() > 0 && is_whitespace(line[0]) {
            match pending {
                None => {
                    return Head::Invalid(DecodeError::BadHeader);
                },
                Some((name, mut value)) => {
                    match fold(&mut value, line) {
                        Err(error) => {
                            return Head::Invalid(error);
                        },
                        Ok(()) => {
                            pending = Some((name, value));
                        },
                    }
                },
            }
        } else if line.len() == 0 {
            flush(&mut headers, pending);
            return Head::Done(headers, end + 2);
        } else {
            match parse_header_line(line) {
                Err(error) => {
                    return Head::Invalid(error);
                },
                Ok(header) => {
                    flush(&mut headers, pending);
                    pending = Some(header);
                },
            }
        }
        position = end + 2;
    }
}

/// What the decoder found at the front of a buffer.
#[derive(Debug)]
pub enum DecodeResult {
    /// The beginning of a message, read so far.
    Incomplete(DecodeState),
    /// Bytes that are no message.
    Invalid(DecodeError),
    /// A message, and the number of bytes that it takes.
    Complete(Message, usize),
}

impl DecodeResult {
    /// Whether this is the executable form of `decoded`.
    pub open spec fn is(self, decoded: Decoded) -> bool {
        match decoded {
            Decoded::Incomplete(state) => self matches DecodeResult::Incomplete(found) && found
                == state,
            Decoded::Invalid(error) => self matches DecodeResult::Invalid(found) && found == error,
            Decoded::Complete(message, length) => self matches DecodeResult::Complete(found, taken)
                && found@ == message && taken == length,
        }
    }
}

/// Decodes the message at the front of `bytes`. Bodies of more than
/// `max_body` bytes are not accepted.
pub fn decode(bytes: &[u8], max_body: usize) -> (res: DecodeResult)
    ensures
        res.is(spec_decode(bytes@, max_body)),
        res matches DecodeResult::Complete(message, taken) ==> message@.wf() && taken
            <= bytes@.len(),
{
    let end = match parse_line(bytes, 0, MAX_START_LINE_LENGTH) {
        Line::Incomplete => {
            return DecodeResult::Incomplete(DecodeState::StartLine);
        },
        Line::TooLong => {
            return DecodeResult::Invalid(DecodeError::LineTooLong);
        },
        Line::Ends(end) => end,
    };
    let start = match parse_start(slice_subrange(bytes, 0, end)) {
        None => {
            return DecodeResult::Invalid(DecodeError::BadStartLine);
        },
        Some(start) => start,
    };
    let (headers, body_start) = match parse_headers(bytes, end + 2) {
        Head::Incomplete => {
            return DecodeResult::Incomplete(DecodeState::Headers);
        },
        Head::Invalid(error) => {
            return DecodeResult::Invalid(error);
        },
        Head::Done(headers, body_start) => (headers, body_start),
    };
    let length = match typed_header::<ContentLength>(&headers) {
        Ok(Some(content_length)) => content_length.value(),
        _ => {
            return DecodeResult::Invalid(DecodeError::BadContentLength);
        },
    };
    if length > max_body {
        return DecodeResult::Invalid(DecodeError::BodyTooLarge);
    }
    let available = bytes.len() - body_start;
    if available < length {
        return DecodeResult::Incomplete(DecodeState::Body(length - available));
    }
    let body = bytes_to_vec(slice_subrange(bytes, body_start, body_start + length));
    let message = match start {
        Start::Request(method, uri) => Message::Request(
            Request::from_parts(method, uri, Version::RTSP20, headers, body),
        ),
        Start::Response(status, reason) => Message::Response(
            Response::from_parts(Version::RTSP20, status, reason, headers, body),
        ),
    };
    DecodeResult::Complete(message, body_start + length)
}

/// What a decoder has read of the message at the front of its buffer, once
/// it has found `decoded` there.
pub open spec fn spec_state_after(decoded: Decoded) -> DecodeState {
    match decoded {
        Decoded::Incomplete(state) => state,
        Decoded::Invalid(_) => DecodeState::Done,
        Decoded::Complete(_, _) => DecodeState::StartLine,
    }
}

/// A streaming decoder: it buffers the bytes that come off the wire and hands
/// out the messages in them, one at a time.
#[derive(Debug)]
pub struct Decoder {
    buffer: Vec<u8>,
    max_body_length: usize,
    state: DecodeState,
}

impl Decoder {
    /// The bytes that the decoder holds: those that it was given and has not
    /// handed out as a message.
    pub closed spec fn buffered(&self) -> Seq<u8> {
        self.buffer@
    }

    /// The length of the longest body that the decoder accepts.
    pub closed spec fn max_body_length(&self) -> usize {
        self.max_body_length
    }

    /// How far the decoder had come with the message at the front of its
    /// buffer when it last looked.
    pub closed spec fn spec_state(&self) -> DecodeState {
        self.state
    }

    /// Creates a decoder that accepts bodies of any length.
    pub fn new() -> (res: Decoder)
        ensures
            res.buffered() == Seq::<u8>::empty(),
            res.max_body_length() == usize::MAX,
            res.spec_state() == DecodeState::StartLine,
    {
        Decoder::with_max_body_length(usize::MAX)
    }

    /// Creates a decoder that accepts bodies of at most `max_body_length`
    /// bytes.
    pub fn with_max_body_length(max_body_length: usize) -> (res: Decoder)
        ensures
            res.buffered() == Seq::<u8>::empty(),
            res.max_body_length() == max_body_length,
            res.spec_state() == DecodeState::StartLine,
    {
        Decoder { buffer: Vec::new(), max_body_length, state: DecodeState::StartLine }
    }

    /// Gives the decoder bytes that came off the wire after those that it
    /// holds.
    pub fn extend(&mut self, bytes: &[u8])
        ensures
            final(self).buffered() == old(self).buffered() + bytes@,
            final(self).max_body_length() == old(self).max_body_length(),
            final(self).spec_state() == old(self).spec_state(),
    {
        let mut more = bytes_to_vec(bytes);
        self.buffer.append(&mut more);
    }

    /// Returns how far the decoder had come with the message at the front of
    /// its buffer when it last looked.
    pub fn state(&self) -> (res: DecodeState)
        ensures
            res == self.spec_state(),
    {
        self.state
    }

    /// Returns the number of bytes that the decoder holds.
    pub fn buffered_len(&self) -> (res: usize)
        ensures
            res == self.buffered().len(),
    {
        self.buffer.len()
    }

    /// Decides whether a complete message, or bytes that are no message, are
    /// at the front of the buffer: whether `decode` would return anything but
    /// no message.
    pub fn is_ready(&self) -> (res: bool)
        ensures
            res == !(spec_decode(self.buffered(), self.max_body_length()) is Incomplete),
    {
        match decode(self.buffer.as_slice(), self.max_body_length) {
            DecodeResult::Incomplete(_) => false,
            _ => true,
        }
    }

    /// Decodes the message at the front of the buffer, and takes its bytes
    /// out of the buffer. Returns no message while the message is not
    /// complete; the buffer then stays as it is.
    ///
    /// # Errors
    ///
    /// An error is returned if the bytes at the front of the buffer are no
    /// message. The buffer then stays as it is, so that the decoder returns
    /// the error again whenever it is asked again.
    pub fn decode(&mut self) -> (res: Result<Option<Message>, DecodeError>)
        ensures
            final(self).max_body_length() == old(self).max_body_length(),
            final(self).spec_state() == spec_state_after(
                spec_decode(old(self).buffered(), old(self).max_body_length()),
            ),
            match spec_decode(old(self).buffered(), old(self).max_body_length()) {
                Decoded::Incomplete(_) => {
                    &&& res matches Ok(None)
                    &&& final(self).buffered() == old(self).buffered()
                },
                Decoded::Invalid(error) => {
                    &&& res == Err::<Option<Message>, DecodeError>(error)
                    &&& final(self).buffered() == old(self).buffered()
                },
                Decoded::Complete(message, length) => {
                    &&& res matches Ok(Some(found))
                    &&& found@ == message
                    &&& found@.wf()
                    &&& 0 <= length <= old(self).buffered().len()
                    &&& final(self).buffered() == old(self).buffered().skip(length)
                },
            },
    {
        match decode(self.buffer.as_slice(), self.max_body_length) {
            DecodeResult::Incomplete(state) => {
                self.state = state;
                Ok(None)
            },
            DecodeResult::Invalid(error) => {
                self.state = DecodeState::Done;
                Err(error)
            },
            DecodeResult::Complete(message, length) => {
                let rest = self.buffer.split_off(length);
                self.buffer = rest;
                self.state = DecodeState::StartLine;
                Ok(Some(message))
            },
        }
    }
}

} // verus!
