//! The encoder: from messages to the bytes that go on the wire.
//!
//! A message is written as its first line, one line for each header value
//! and an empty line, each ended by a carriage return and a line feed, and
//! then its body. The `Content-Length` header is always written, and always
//! states the length of the body, whatever the message holds under that
//! name.

use vstd::prelude::*;

use super::message::{Message, MessageView, StartLine};
use crate::header::map::{spec_set, spec_values_view, HeaderMapView};
use crate::header::name::{HeaderName, HeaderNameView};
use crate::header::types::{ContentLength, TypedHeader, MAX_CONTENT_LENGTH};
use crate::header::HeaderMap;
use crate::number::{format_decimal, spec_decimal};
use crate::request::Request;
use crate::response::Response;
use crate::syntax::{CR, LF, SP};

verus! {

/// A possible error value when encoding a message.
///
/// This error indicates that the body of the message is longer than a
/// `Content-Length` header can state.
#[derive(Clone, Copy, Debug, PartialEq, Eq, Structural, Hash)]
pub struct EncodeError;

impl EncodeError {
    /// A short description of the error.
    pub fn description(&self) -> (res: &'static str)
        ensures
            res@ == "RTSP message body too large"@,
    {
        "RTSP message body too large"
    }
}

/// The end of a line: a carriage return and a line feed.
pub open spec fn spec_crlf() -> Seq<u8> {
    seq![CR, LF]
}

/// What separates a header name from its value on the wire: a colon and a
/// space.
pub open spec fn spec_colon() -> Seq<u8> {
    seq![0x3au8, SP]
}

/// A header name with one of its values.
pub type HeaderLine = (HeaderNameView, Seq<u8>);

/// The header lines of one name: one for each of its values, in order.
pub open spec fn spec_lines_of(name: HeaderNameView, values: Seq<Seq<u8>>) -> Seq<HeaderLine> {
    Seq::new(values.len(), |i: int| (name, values[i]))
}

/// The header lines of a header map: those of its names, in order.
pub open spec fn spec_lines(entries: HeaderMapView) -> Seq<HeaderLine>
    decreases entries.len(),
{
    if entries.len() == 0 {
        Seq::empty()
    } else {
        spec_lines_of(entries[0].0, entries[0].1) + spec_lines(entries.skip(1))
    }
}

/// One header line on the wire: the canonical spelling of the name, a colon
/// and a space, the value, and the end of the line.
pub open spec fn spec_encode_line(line: HeaderLine) -> Seq<u8> {
    line.0.canonical + spec_colon() + line.1 + spec_crlf()
}

/// Header lines on the wire, one after the other.
pub open spec fn spec_encode_lines(lines: Seq<HeaderLine>) -> Seq<u8>
    decreases lines.len(),
{
    if lines.len() == 0 {
        Seq::empty()
    } else {
        spec_encode_line(lines[0]) + spec_encode_lines(lines.skip(1))
    }
}

/// The headers of a message with a body of `length` bytes, as they are
/// written: the `Content-Length` header states `length`, in place of whatever
/// the message holds under that name.
pub open spec fn spec_with_content_length(headers: HeaderMapView, length: nat) -> HeaderMapView {
    spec_set(headers, HeaderName::ContentLength@, seq![spec_decimal(length)])
}

/// The first line of a message on the wire, without the end of the line.
pub open spec fn spec_encode_start(message: MessageView) -> Seq<u8> {
    match message.start {
        StartLine::Request { method, uri } => method + seq![SP] + uri + seq![SP] + message.version@,
        StartLine::Response { status, reason } => message.version@ + seq![SP] + spec_decimal(
            status as nat,
        ) + seq![SP] + reason,
    }
}

/// The first line and the headers of a message on the wire, with the empty
/// line that ends them.
pub open spec fn spec_encode_head(message: MessageView) -> Seq<u8> {
    spec_encode_start(message) + spec_crlf() + spec_encode_lines(
        spec_lines(spec_with_content_length(message.headers, message.body.len())),
    ) + spec_crlf()
}

/// A message on the wire.
pub open spec fn spec_encode(message: MessageView) -> Seq<u8> {
    spec_encode_head(message) + message.body
}

/// Writing header lines one after the other is writing them all.
pub proof fn lemma_encode_lines_concat(a: Seq<HeaderLine>, b: Seq<HeaderLine>)
    ensures
        spec_encode_lines(a + b) == spec_encode_lines(a) + spec_encode_lines(b),
    decreases a.len(),
{
    if a.len() == 0 {
        assert(a + b =~= b);
        assert(spec_encode_lines(a) + spec_encode_lines(b) =~= spec_encode_lines(b));
    } else {
        assert((a + b).skip(1) =~= a.skip(1) + b);
        assert((a + b)[0] == a[0]);
        lemma_encode_lines_concat(a.skip(1), b);
        assert(spec_encode_lines(a + b) =~= spec_encode_lines(a) + spec_encode_lines(b));
    }
}

/// The header lines of a header map, name by name.
pub proof fn lemma_lines_push(
    entries: HeaderMapView,
    name: HeaderNameView,
    values: Seq<Seq<u8>>,
)
    ensures
        spec_lines(entries.push((name, values))) == spec_lines(entries) + spec_lines_of(
            name,
            values,
        ),
    decreases entries.len(),
{
    let more = entries.push((name, values));
    if entries.len() == 0 {
        assert(more.skip(1) =~= HeaderMapView::empty());
        assert(spec_lines(more.skip(1)) =~= Seq::<HeaderLine>::empty());
        assert(spec_lines(more) =~= spec_lines_of(name, values));
        assert(spec_lines(entries) + spec_lines_of(name, values) =~= spec_lines_of(name, values));
    } else {
        assert(more.skip(1) =~= entries.skip(1).push((name, values)));
        lemma_lines_push(entries.skip(1), name, values);
        assert(spec_lines(more) =~= spec_lines(entries) + spec_lines_of(name, values));
    }
}

/// Appends `bytes` to `out`.
fn write(out: &mut Vec<u8>, bytes: &[u8])
    ensures
        final(out)@ == old(out)@ + bytes@,
{
    let mut i: usize = 0;
    while i < bytes.len()
        invariant
            i <= bytes@.len(),
            out@ == old(out)@ + bytes@.take(i as int),
        decreases bytes@.len() - i,
    {
        out.push(bytes[i]);
        assert(bytes@.take(i + 1) =~= bytes@.take(i as int).push(bytes@[i as int]));
        assert(out@ =~= old(out)@ + bytes@.take(i + 1));
        i += 1;
    }
    assert(bytes@.take(bytes@.len() as int) =~= bytes@);
}

/// Appends the end of a line to `out`.
fn write_crlf(out: &mut Vec<u8>)
    ensures
        final(out)@ == old(out)@ + spec_crlf(),
{
    out.push(CR);
    out.push(LF);
    assert(out@ =~= old(out)@ + spec_crlf());
}

/// Appends the header lines of `headers` to `out`.
fn write_headers(out: &mut Vec<u8>, headers: &HeaderMap)
    ensures
        final(out)@ == old(out)@ + spec_encode_lines(spec_lines(headers@)),
{
    let ghost entries = headers@;
    let mut i: usize = 0;
    proof {
        assert(entries.take(0) =~= HeaderMapView::empty());
        assert(out@ =~= old(out)@ + spec_encode_lines(spec_lines(entries.take(0))));
    }
    while i < headers.len()
        invariant
            i <= entries.len(),
            entries == headers@,
            out@ == old(out)@ + spec_encode_lines(spec_lines(entries.take(i as int))),
        decreases entries.len() - i,
    {
        let name = headers.name_at(i);
        let values = headers.values_at(i);
        let ghost done = spec_lines(entries.take(i as int));
        let ghost lines = spec_lines_of(entries[i as int].0, entries[i as int].1);
        let mut k: usize = 0;
        proof {
            assert(lines.take(0) =~= Seq::<HeaderLine>::empty());
            assert(out@ =~= old(out)@ + spec_encode_lines(done) + spec_encode_lines(lines.take(0)));
        }
        while k < values.len()
            invariant
                k <= values@.len(),
                i < entries.len(),
                lines == spec_lines_of(entries[i as int].0, entries[i as int].1),
                spec_values_view(values@) == entries[i as int].1,
                name@ == entries[i as int].0,
                out@ == old(out)@ + spec_encode_lines(done) + spec_encode_lines(
                    lines.take(k as int),
                ),
            decreases values@.len() - k,
        {
            let ghost before = out@;
            write(out, name.canonical_bytes());
            out.push(0x3a);
            out.push(SP);
            write(out, values[k].as_bytes());
            write_crlf(out);
            proof {
                let line = lines[k as int];
                assert(line.1 == values@[k as int]@) by {
                    assert(spec_values_view(values@)[k as int] == values@[k as int]@);
                }
                assert(out@ =~= before + spec_encode_line(line));
                assert(lines.take(k + 1) =~= lines.take(k as int) + seq![line]);
                lemma_encode_lines_concat(lines.take(k as int), seq![line]);
                assert(seq![line].skip(1) =~= Seq::<HeaderLine>::empty());
                assert(spec_encode_lines(seq![line].skip(1)) =~= Seq::<u8>::empty());
                assert(spec_encode_lines(seq![line]) =~= spec_encode_line(line));
                assert(out@ =~= old(out)@ + spec_encode_lines(done) + spec_encode_lines(
                    lines.take(k + 1),
                ));
            }
            k += 1;
        }
        proof {
            assert(lines.take(values@.len() as int) =~= lines);
            assert(entries.take(i + 1) =~= entries.take(i as int).push(entries[i as int]));
            lemma_lines_push(entries.take(i as int), entries[i as int].0, entries[i as int].1);
            lemma_encode_lines_concat(done, lines);
            assert(out@ =~= old(out)@ + spec_encode_lines(spec_lines(entries.take(i + 1))));
        }
        i += 1;
    }
    assert(entries.take(entries.len() as int) =~= entries);
}

/// Appends the headers of a message with the body `body` to `out`, with the
/// empty line that ends them, and then the body.
fn write_headers_and_body(out: &mut Vec<u8>, headers: &HeaderMap, body: &Vec<u8>)
    requires
        body@.len() <= MAX_CONTENT_LENGTH,
    ensures
        final(out)@ == old(out)@ + spec_encode_lines(
            spec_lines(spec_with_content_length(headers@, body@.len())),
        ) + spec_crlf() + body@,
{
    let mut forced = headers.clone();
    match ContentLength::try_from(body.len()) {
        Ok(content_length) => {
            forced.set(HeaderName::ContentLength, content_length.to_header_raw());
        },
        Err(_) => {},
    }
    write_headers(out, &forced);
    write_crlf(out);
    write(out, body.as_slice());
}

/// Encodes `request` and appends the bytes to `out`.
///
/// # Errors
///
/// An error is returned, and nothing is appended, if the body is longer than
/// `MAX_CONTENT_LENGTH`.
pub fn encode_request(request: &Request<Vec<u8>, HeaderMap>, out: &mut Vec<u8>) -> (res: Result<
    (),
    EncodeError,
>)
    ensures
        res is Ok <==> request@.body@.len() <= MAX_CONTENT_LENGTH,
        res is Ok ==> final(out)@ == old(out)@ + spec_encode(
            Message::Request(*request)@,
        ),
        res is Err ==> final(out)@ == old(out)@,
{
    if request.body().len() as u64 > MAX_CONTENT_LENGTH {
        return Err(EncodeError);
    }
    write(out, request.method().as_bytes());
    out.push(SP);
    write(out, request.uri().as_bytes());
    out.push(SP);
    write(out, request.version().as_bytes());
    write_crlf(out);
    proof {
        let message = Message::Request(*request)@;
        assert(out@ =~= old(out)@ + spec_encode_start(message) + spec_crlf());
    }
    write_headers_and_body(out, request.headers(), request.body());
    proof {
        let message = Message::Request(*request)@;
        assert(out@ =~= old(out)@ + spec_encode(message));
    }
    Ok(())
}

/// Encodes `response` and appends the bytes to `out`.
///
/// # Errors
///
/// An error is returned, and nothing is appended, if the body is longer than
/// `MAX_CONTENT_LENGTH`.
pub fn encode_response(response: &Response<Vec<u8>, HeaderMap>, out: &mut Vec<u8>) -> (res: Result<
    (),
    EncodeError,
>)
    ensures
        res is Ok <==> response@.body@.len() <= MAX_CONTENT_LENGTH,
        res is Ok ==> final(out)@ == old(out)@ + spec_encode(
            Message::Response(*response)@,
        ),
        res is Err ==> final(out)@ == old(out)@,
{
    if response.body().len() as u64 > MAX_CONTENT_LENGTH {
        return Err(EncodeError);
    }
    write(out, response.version().as_bytes());
    out.push(SP);
    let status = format_decimal(response.status_code().code() as u64);
    write(out, status.as_slice());
    out.push(SP);
    write(out, response.reason().as_bytes());
    write_crlf(out);
    proof {
        let message = Message::Response(*response)@;
        assert(out@ =~= old(out)@ + spec_encode_start(message) + spec_crlf());
    }
    write_headers_and_body(out, response.headers(), response.body());
    proof {
        let message = Message::Response(*response)@;
        assert(out@ =~= old(out)@ + spec_encode(message));
    }
    Ok(())
}

/// Encodes `message` and appends the bytes to `out`.
///
/// # Errors
///
/// An error is returned, and nothing is appended, if the body is longer than
/// `MAX_CONTENT_LENGTH`.
pub fn encode(message: &Message, out: &mut Vec<u8>) -> (res: Result<(), EncodeError>)
    ensures
        res is Ok <==> message@.body.len() <= MAX_CONTENT_LENGTH,
        res is Ok ==> final(out)@ == old(out)@ + spec_encode(message@),
        res is Err ==> final(out)@ == old(out)@,
{
    match message {
        Message::Request(request) => encode_request(request, out),
        Message::Response(response) => encode_response(response, out),
    }
}

} // verus!
