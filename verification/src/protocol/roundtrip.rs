//! The round trip: what the decoder reads of what the encoder wrote.
//!
//! A canonical message comes back from the wire as it went out, but for two
//! things that the codec settles: the `Content-Length` header states the
//! length of the body, and the reason phrase of a standardized status code is
//! its canonical reason phrase.

use vstd::prelude::*;

use super::decode::{
    lemma_find_crlf_is, spec_decode, spec_flush, spec_parse_header_line, spec_parse_headers,
    spec_parse_line, spec_parse_start, Decoded, Parsed, MAX_HEADER_LINE_LENGTH,
    MAX_START_LINE_LENGTH,
};
use super::encode::{
    spec_colon, spec_crlf, spec_encode, spec_encode_line, spec_encode_lines,
    spec_encode_start, spec_lines, spec_lines_of, spec_with_content_length, HeaderLine,
};
use super::message::{MessageView, StartLine};
use crate::header::map::{
    lemma_find, lemma_find_is, lemma_set_wf, spec_append, spec_contains, spec_find, spec_get,
    spec_map_wf, HeaderMapView,
};
use crate::header::name::{spec_is_standard, spec_name_view, HeaderName, HeaderNameView};
use crate::header::typed_map::spec_typed;
use crate::header::types::content_length::lemma_decimal_is_value;
use crate::header::types::{ContentLength, MAX_CONTENT_LENGTH};
use crate::header::value::spec_is_plain_value;
use crate::number::{lemma_decimal, lemma_pow10_19, spec_decimal, spec_digits_value, spec_is_digits};
use crate::status::{spec_canonical_reason_of, spec_is_standard_code};
use crate::syntax::{
    lemma_index_of_is, lemma_leading_whitespace, lemma_token_has_no_separator,
    lemma_trailing_whitespace, spec_is_digit, spec_is_token, spec_is_token_char,
    spec_is_visible, spec_is_whitespace, spec_trim_whitespace, CR, LF, SP,
};
use crate::uri::spec_is_absolute_uri;
use crate::version::{lemma_version_bytes, Version};

verus! {

/// Whether every value in `headers` is a plain value: on one line, without
/// whitespace around it.
pub open spec fn spec_has_plain_values(headers: HeaderMapView) -> bool {
    forall|i: int, k: int|
        0 <= i < headers.len() && 0 <= k < headers[i].1.len() ==> spec_is_plain_value(
            #[trigger] headers[i].1[k],
        )
}

/// Whether `message` is canonical: a valid message that the encoder accepts
/// and that the decoder reads back as it is. Its first line is no longer than
/// the decoder accepts, and its header values are plain.
pub open spec fn spec_is_canonical(message: MessageView) -> bool {
    &&& message.wf()
    &&& message.body.len() <= MAX_CONTENT_LENGTH
    &&& message.body.len() <= usize::MAX
    &&& spec_encode_start(message).len() <= MAX_START_LINE_LENGTH
    &&& spec_has_plain_values(message.headers)
}

/// The message as it comes back from the wire: with the `Content-Length`
/// header that states the length of its body, and with the canonical reason
/// phrase where its status code is a standardized one.
pub open spec fn spec_normalize(message: MessageView) -> MessageView {
    MessageView {
        version: message.version,
        start: match message.start {
            StartLine::Response { status, reason } => StartLine::Response {
                status,
                reason: if spec_is_standard_code(status) {
                    spec_canonical_reason_of(status)
                } else {
                    reason
                },
            },
            StartLine::Request { method, uri } => StartLine::Request { method, uri },
        },
        headers: spec_with_content_length(message.headers, message.body.len()),
        body: message.body,
    }
}

/// The headers after the header lines `lines` were appended, one after the
/// other.
pub open spec fn spec_append_all(headers: HeaderMapView, lines: Seq<HeaderLine>) -> HeaderMapView
    decreases lines.len(),
{
    if lines.len() == 0 {
        headers
    } else {
        spec_append_all(spec_append(headers, lines[0].0, lines[0].1), lines.skip(1))
    }
}

/// Whether `line` is a header line that the decoder reads back as it is: the
/// name is well-formed and the value is plain.
pub open spec fn spec_is_plain_line(line: HeaderLine) -> bool {
    line.0.wf() && spec_is_plain_value(line.1)
}

/// Where `bytes` holds `line` and the end of a line after `prefix`, and the
/// line holds no carriage return and is not too long, the decoder finds the
/// line there.
pub proof fn lemma_line_at(
    bytes: Seq<u8>,
    prefix: Seq<u8>,
    line: Seq<u8>,
    tail: Seq<u8>,
    max: int,
)
    requires
        bytes == prefix + line + spec_crlf() + tail,
        forall|i: int| 0 <= i < line.len() ==> #[trigger] line[i] != CR,
        line.len() <= max,
    ensures
        spec_parse_line(bytes, prefix.len() as int, max) == Parsed::Done(
            line,
            (prefix.len() + line.len() + 2) as int,
        ),
{
    let from = prefix.len() as int;
    let end = from + line.len();
    assert(bytes[end] == spec_crlf()[0]);
    assert(bytes[end + 1] == spec_crlf()[1]);
    assert forall|j: int| from <= j < end && j + 1 < bytes.len() implies !(#[trigger] bytes[j] == CR
        && bytes[j + 1] == LF) by {
        assert(bytes[j] == line[j - from]);
    }
    lemma_find_crlf_is(bytes, from, end);
    assert(bytes.subrange(from, end) =~= line);
}

/// Trimming a plain value that follows one space gives the value.
pub proof fn lemma_trim_after_space(value: Seq<u8>)
    requires
        spec_is_plain_value(value),
    ensures
        spec_trim_whitespace(seq![SP] + value) == value,
{
    let padded = seq![SP] + value;
    assert(padded[0] == SP);
    if value.len() > 0 {
        assert(padded[1] == value[0]);
    }
    lemma_leading_whitespace(padded, 1);
    let left = padded.skip(1);
    assert(left =~= value);
    if value.len() > 0 {
        assert(left.last() == value.last());
    }
    lemma_trailing_whitespace(left, 0);
    assert(left.take(left.len() as int) =~= value);
}

/// The spellings of a well-formed name are those of the name that the
/// decoder makes of the canonical spelling.
pub proof fn lemma_name_view_of_canonical(name: HeaderNameView)
    requires
        name.wf(),
    ensures
        spec_name_view(name.canonical) == name,
{
    if spec_is_standard(name.lower) {
        let standard = choose|other: HeaderName|
            other !is Extension && #[trigger] other.lower() == name.lower;
        assert(standard.canonical() == name.canonical);
    }
}

/// The decoder reads a plain header line back as it is.
pub proof fn lemma_parse_plain_line(line: HeaderLine)
    requires
        spec_is_plain_line(line),
    ensures
        spec_parse_header_line(line.0.canonical + spec_colon() + line.1) == Ok::<
            HeaderLine,
            super::decode::DecodeError,
        >(line),
        (line.0.canonical + spec_colon() + line.1).len() <= MAX_HEADER_LINE_LENGTH,
        (line.0.canonical + spec_colon() + line.1).len() > 0,
        !spec_is_whitespace((line.0.canonical + spec_colon() + line.1)[0]),
        forall|i: int|
            0 <= i < (line.0.canonical + spec_colon() + line.1).len() ==> (#[trigger] (
            line.0.canonical + spec_colon() + line.1)[i]) != CR,
{
    let name = line.0.canonical;
    let value = line.1;
    let text = name + spec_colon() + value;
    assert(spec_is_token(name));
    lemma_token_has_no_separator(name);
    assert forall|j: int| 0 <= j < name.len() implies #[trigger] text[j] != 0x3a by {
        assert(text[j] == name[j]);
        assert(spec_is_token_char(name[j]));
    }
    assert(text[name.len() as int] == spec_colon()[0]);
    lemma_index_of_is(text, 0x3a, name.len() as int);
    assert(text.take(name.len() as int) =~= name);
    assert(text.skip(name.len() as int + 1) =~= seq![SP] + value);
    lemma_trim_after_space(value);
    lemma_name_view_of_canonical(line.0);
    assert(text[0] == name[0]);
    assert(spec_is_token_char(name[0]));
    assert forall|i: int| 0 <= i < text.len() implies (#[trigger] text[i]) != CR by {
        if i < name.len() {
            assert(text[i] == name[i]);
            assert(spec_is_token_char(name[i]));
        } else if i < name.len() + 2 {
            assert(text[i] == spec_colon()[i - name.len()]);
        } else {
            assert(text[i] == value[i - name.len() - 2]);
        }
    }
}

/// The decoder reads plain header lines, and the empty line that ends them,
/// back as they are: they join the headers and the header line that it has
/// read before.
pub proof fn lemma_parse_plain_lines(
    bytes: Seq<u8>,
    prefix: Seq<u8>,
    lines: Seq<HeaderLine>,
    tail: Seq<u8>,
    headers: HeaderMapView,
    pending: Option<HeaderLine>,
)
    requires
        bytes == prefix + spec_encode_lines(lines) + spec_crlf() + tail,
        forall|i: int| 0 <= i < lines.len() ==> spec_is_plain_line(#[trigger] lines[i]),
    ensures
        spec_parse_headers(bytes, prefix.len() as int, headers, pending) == Parsed::Done(
            spec_append_all(spec_flush(headers, pending), lines),
            (prefix.len() + spec_encode_lines(lines).len() + 2) as int,
        ),
    decreases lines.len(),
{
    let from = prefix.len() as int;
    if lines.len() == 0 {
        let empty = Seq::<u8>::empty();
        assert(bytes =~= prefix + empty + spec_crlf() + tail);
        lemma_line_at(bytes, prefix, empty, tail, MAX_HEADER_LINE_LENGTH as int);
    } else {
        let line = lines[0];
        let text = line.0.canonical + spec_colon() + line.1;
        let rest = spec_encode_lines(lines.skip(1));
        assert(spec_is_plain_line(line));
        lemma_parse_plain_line(line);
        assert(spec_encode_line(line) =~= text + spec_crlf());
        assert(bytes =~= prefix + text + spec_crlf() + (rest + spec_crlf() + tail));
        lemma_line_at(bytes, prefix, text, rest + spec_crlf() + tail, MAX_HEADER_LINE_LENGTH as int);
        let next_prefix = prefix + text + spec_crlf();
        assert(bytes =~= next_prefix + rest + spec_crlf() + tail);
        assert forall|i: int| 0 <= i < lines.skip(1).len() implies spec_is_plain_line(
            #[trigger] lines.skip(1)[i],
        ) by {
            assert(lines.skip(1)[i] == lines[i + 1]);
        }
        lemma_parse_plain_lines(
            bytes,
            next_prefix,
            lines.skip(1),
            tail,
            spec_flush(headers, pending),
            Some(line),
        );
        assert(spec_encode_lines(lines).len() == text.len() + 2 + rest.len());
    }
}

/// Appending the values of a name that the headers do not hold yet, after
/// the values `first` of that name, makes one entry of them at the end.
pub proof fn lemma_append_entry(
    headers: HeaderMapView,
    name: HeaderNameView,
    first: Seq<Seq<u8>>,
    more: Seq<Seq<u8>>,
    lines: Seq<HeaderLine>,
)
    requires
        !spec_contains(headers, name.lower),
        first.len() > 0,
    ensures
        spec_append_all(headers.push((name, first)), spec_lines_of(name, more) + lines)
            == spec_append_all(headers.push((name, first + more)), lines),
    decreases more.len(),
{
    let all = spec_lines_of(name, more) + lines;
    if more.len() == 0 {
        assert(all =~= lines);
        assert(first + more =~= first);
    } else {
        let held = headers.push((name, first));
        lemma_find(headers, name.lower);
        assert forall|j: int| 0 <= j < headers.len() implies (#[trigger] held[j]).0.lower
            != name.lower by {
            assert(held[j] == headers[j]);
        }
        lemma_find_is(held, name.lower, headers.len() as int);
        assert(all[0] == (name, more[0]));
        assert(spec_append(held, name, more[0]) =~= headers.push((name, first.push(more[0]))));
        assert(all.skip(1) =~= spec_lines_of(name, more.skip(1)) + lines);
        lemma_append_entry(headers, name, first.push(more[0]), more.skip(1), lines);
        assert(first.push(more[0]) + more.skip(1) =~= first + more);
    }
}

/// Appending the header lines of well-formed headers, whose names the
/// headers `headers` do not hold, joins the two.
pub proof fn lemma_append_lines(headers: HeaderMapView, entries: HeaderMapView)
    requires
        spec_map_wf(entries),
        forall|i: int|
            0 <= i < entries.len() ==> !spec_contains(headers, (#[trigger] entries[i]).0.lower),
    ensures
        spec_append_all(headers, spec_lines(entries)) == headers + entries,
    decreases entries.len(),
{
    if entries.len() == 0 {
        assert(headers + entries =~= headers);
    } else {
        let name = entries[0].0;
        let values = entries[0].1;
        let rest = entries.skip(1);
        let tail = spec_lines(rest);
        let lines = spec_lines_of(name, values) + tail;
        assert(values.len() > 0);
        lemma_find(headers, name.lower);
        assert(lines[0] == (name, values[0]));
        assert(spec_append(headers, name, values[0]) == headers.push((name, seq![values[0]])));
        assert(lines.skip(1) =~= spec_lines_of(name, values.skip(1)) + tail);
        lemma_append_entry(headers, name, seq![values[0]], values.skip(1), tail);
        assert(seq![values[0]] + values.skip(1) =~= values);
        let held = headers.push((name, values));
        assert forall|i: int| 0 <= i < rest.len() implies !spec_contains(
            held,
            (#[trigger] rest[i]).0.lower,
        ) by {
            let lower = rest[i].0.lower;
            assert(rest[i] == entries[i + 1]);
            assert(!spec_contains(headers, lower));
            lemma_find(headers, lower);
            assert(entries[0].0.lower != entries[i + 1].0.lower);
            assert forall|j: int| 0 <= j < held.len() implies (#[trigger] held[j]).0.lower
                != lower by {
                if j < headers.len() {
                    assert(held[j] == headers[j]);
                }
            }
            lemma_find_is(held, lower, held.len() as int);
        }
        assert(spec_map_wf(rest)) by {
            assert forall|i: int| 0 <= i < rest.len() implies #[trigger] rest[i] == entries[i
                + 1] by {}
            assert forall|i: int, j: int| 0 <= i < j < rest.len() implies (#[trigger] rest[i]).0.lower
                != (#[trigger] rest[j]).0.lower by {
                assert(entries[i + 1].0.lower != entries[j + 1].0.lower);
            }
            assert forall|i: int| 0 <= i < rest.len() implies (#[trigger] rest[i]).1.len() > 0 by {
                assert(entries[i + 1].1.len() > 0);
            }
            assert forall|i: int| 0 <= i < rest.len() implies (#[trigger] rest[i]).0.wf() by {
                assert(entries[i + 1].0.wf());
            }
            assert forall|i: int, k: int|
                0 <= i < rest.len() && 0 <= k < rest[i].1.len() implies crate::header::value::spec_is_valid_value(
                #[trigger] rest[i].1[k],
            ) by {
                assert(rest[i].1[k] == entries[i + 1].1[k]);
            }
        }
        lemma_append_lines(held, rest);
        assert(held + rest =~= headers + entries);
    }
}

/// Every header line of well-formed headers with plain values is a plain
/// line.
pub proof fn lemma_lines_are_plain(entries: HeaderMapView)
    requires
        spec_map_wf(entries),
        spec_has_plain_values(entries),
    ensures
        forall|i: int|
            0 <= i < spec_lines(entries).len() ==> spec_is_plain_line(
                #[trigger] spec_lines(entries)[i],
            ),
    decreases entries.len(),
{
    if entries.len() > 0 {
        let rest = entries.skip(1);
        assert forall|i: int| 0 <= i < rest.len() implies #[trigger] rest[i] == entries[i + 1] by {}
        assert(spec_has_plain_values(rest)) by {
            assert forall|i: int, k: int|
                0 <= i < rest.len() && 0 <= k < rest[i].1.len() implies spec_is_plain_value(
                #[trigger] rest[i].1[k],
            ) by {
                assert(rest[i].1[k] == entries[i + 1].1[k]);
            }
        }
        assert(spec_map_wf(rest)) by {
            assert forall|i: int, j: int| 0 <= i < j < rest.len() implies (#[trigger] rest[i]).0.lower
                != (#[trigger] rest[j]).0.lower by {
                assert(entries[i + 1].0.lower != entries[j + 1].0.lower);
            }
            assert forall|i: int| 0 <= i < rest.len() implies (#[trigger] rest[i]).1.len() > 0 by {
                assert(entries[i + 1].1.len() > 0);
            }
            assert forall|i: int| 0 <= i < rest.len() implies (#[trigger] rest[i]).0.wf() by {
                assert(entries[i + 1].0.wf());
            }
            assert forall|i: int, k: int|
                0 <= i < rest.len() && 0 <= k < rest[i].1.len() implies crate::header::value::spec_is_valid_value(
                #[trigger] rest[i].1[k],
            ) by {
                assert(rest[i].1[k] == entries[i + 1].1[k]);
            }
        }
        lemma_lines_are_plain(rest);
        let first = spec_lines_of(entries[0].0, entries[0].1);
        let lines = spec_lines(entries);
        assert forall|i: int| 0 <= i < lines.len() implies spec_is_plain_line(#[trigger] lines[i]) by {
            if i < first.len() {
                assert(lines[i] == first[i]);
                assert(entries[0].0.wf());
                assert(spec_is_plain_value(entries[0].1[i]));
            } else {
                assert(lines[i] == spec_lines(rest)[i - first.len()]);
            }
        }
    }
}

/// The headers that the encoder writes for a message with well-formed
/// headers and plain values: they are well-formed, their values are plain,
/// and they state the length of the body.
pub proof fn lemma_forced_content_length(headers: HeaderMapView, length: nat)
    requires
        spec_map_wf(headers),
        length <= MAX_CONTENT_LENGTH,
        length <= usize::MAX,
    ensures
        spec_map_wf(spec_with_content_length(headers, length)),
        spec_has_plain_values(headers) ==> spec_has_plain_values(
            spec_with_content_length(headers, length),
        ),
        spec_get(spec_with_content_length(headers, length), HeaderName::ContentLength.lower())
            == seq![spec_decimal(length)],
        spec_typed::<ContentLength>(spec_with_content_length(headers, length)) == Ok::<
            Option<usize>,
            crate::header::types::InvalidTypedHeader,
        >(Some(length as usize)),
{
    let name = HeaderName::ContentLength;
    let digits = spec_decimal(length);
    let values = seq![digits];
    let forced = spec_with_content_length(headers, length);
    lemma_pow10_19();
    lemma_decimal_is_value(length, 19);
    lemma_decimal(length);
    assert(spec_is_plain_value(digits)) by {
        assert forall|i: int| 0 <= i < digits.len() implies crate::syntax::spec_is_printable(
            #[trigger] digits[i],
        ) || digits[i] == crate::syntax::HTAB by {
            assert(spec_is_digit(digits[i]));
        }
        assert(spec_is_digit(digits[0]));
        assert(spec_is_digit(digits.last()));
    }
    assert forall|k: int| 0 <= k < values.len() implies crate::header::value::spec_is_valid_value(
        #[trigger] values[k],
    ) by {}
    lemma_set_wf(headers, name, values);
    lemma_find(headers, name.lower());
    let index = spec_find(headers, name.lower());
    assert forall|j: int| 0 <= j < index implies (#[trigger] forced[j]).0.lower != name.lower() by {
        assert(forced[j] == headers[j]);
    }
    lemma_find_is(forced, name.lower(), index);
    assert(forced[index].1 == values);
    if spec_has_plain_values(headers) {
        assert forall|i: int, k: int|
            0 <= i < forced.len() && 0 <= k < forced[i].1.len() implies spec_is_plain_value(
            #[trigger] forced[i].1[k],
        ) by {
            if i != index {
                assert(forced[i].1[k] == headers[i].1[k]);
            }
        }
    }
    assert(values[0] == digits);
}

/// The decoder reads the first line of a canonical message back, with the
/// canonical reason phrase where the status code is a standardized one.
pub proof fn lemma_parse_start(message: MessageView)
    requires
        message.wf(),
    ensures
        spec_parse_start(spec_encode_start(message)) == Some(spec_normalize(message).start),
        forall|i: int|
            0 <= i < spec_encode_start(message).len() ==> #[trigger] spec_encode_start(message)[i]
                != CR,
{
    let line = spec_encode_start(message);
    let version = Version::RTSP20@;
    lemma_version_bytes(Version::RTSP20);
    assert(message.version == Version::RTSP20);
    match message.start {
        StartLine::Request { method, uri } => {
            assert(line == method + seq![SP] + uri + seq![SP] + version);
            assert forall|j: int| 0 <= j < method.len() implies #[trigger] line[j] != SP && line[j]
                != CR by {
                assert(line[j] == method[j]);
                assert(spec_is_token_char(method[j]));
            }
            assert(line[method.len() as int] == SP);
            lemma_index_of_is(line, SP, method.len() as int);
            assert(line.take(method.len() as int) =~= method);
            let rest = line.skip(method.len() as int + 1);
            assert(rest =~= uri + seq![SP] + version);
            assert forall|j: int| 0 <= j < uri.len() implies #[trigger] rest[j] != SP && rest[j]
                != CR by {
                assert(rest[j] == uri[j]);
                if uri != seq![0x2au8] {
                    assert(spec_is_absolute_uri(uri));
                    assert(spec_is_visible(uri[j]));
                } else {
                    assert(uri[j] == 0x2a);
                }
            }
            assert(rest[uri.len() as int] == SP);
            lemma_index_of_is(rest, SP, uri.len() as int);
            assert(rest.take(uri.len() as int) =~= uri);
            assert(rest.skip(uri.len() as int + 1) =~= version);
            assert(method != version) by {
                if method == version {
                    assert(spec_is_token_char(method[4]));
                }
            }
            assert forall|i: int| 0 <= i < line.len() implies #[trigger] line[i] != CR by {
                if i < method.len() {
                } else if i == method.len() {
                } else {
                    assert(line[i] == rest[i - method.len() - 1]);
                    if i - method.len() - 1 < uri.len() {
                    } else if i - method.len() - 1 == uri.len() {
                    } else {
                        assert(rest[i - method.len() - 1] == version[i - method.len() - 1 - uri.len()
                            - 1]);
                    }
                }
            }
        },
        StartLine::Response { status, reason } => {
            let digits = spec_decimal(status as nat);
            lemma_status_digits(status);
            assert(line == version + seq![SP] + digits + seq![SP] + reason);
            assert forall|j: int| 0 <= j < version.len() implies #[trigger] line[j] != SP by {
                assert(line[j] == version[j]);
            }
            assert(line[8] == SP);
            lemma_index_of_is(line, SP, 8);
            assert(line.take(8) =~= version);
            let rest = line.skip(9);
            assert(rest =~= digits + seq![SP] + reason);
            assert forall|j: int| 0 <= j < digits.len() implies #[trigger] rest[j] != SP by {
                assert(rest[j] == digits[j]);
                assert(spec_is_digit(digits[j]));
            }
            assert(rest[3] == SP);
            lemma_index_of_is(rest, SP, 3);
            assert(rest.take(3) =~= digits);
            assert(rest.skip(4) =~= reason);
            assert forall|i: int| 0 <= i < line.len() implies #[trigger] line[i] != CR by {
                if i < 8 {
                    assert(line[i] == version[i]);
                } else if i == 8 {
                } else {
                    assert(line[i] == rest[i - 9]);
                    if i - 9 < 3 {
                        assert(spec_is_digit(digits[i - 9]));
                    } else if i - 9 == 3 {
                    } else {
                        assert(rest[i - 9] == reason[i - 9 - 4]);
                    }
                }
            }
        },
    }
}

/// The decimal form of a status code is three digits that denote the code.
pub proof fn lemma_status_digits(status: u16)
    requires
        100 <= status <= 599,
    ensures
        spec_decimal(status as nat).len() == 3,
        spec_is_digits(spec_decimal(status as nat)),
        spec_digits_value(spec_decimal(status as nat)) == status,
{
    lemma_decimal(status as nat);
    reveal_with_fuel(spec_decimal, 3);
}

/// The round trip. The decoder reads a canonical message that the encoder
/// wrote, whatever follows it in the buffer, back as the message was, with
/// the `Content-Length` header that states the length of its body and with
/// the canonical reason phrase of a standardized status code; and it takes
/// exactly the bytes of the message.
pub proof fn lemma_round_trip(message: MessageView, rest: Seq<u8>, max_body: usize)
    requires
        spec_is_canonical(message),
        message.body.len() <= max_body,
    ensures
        spec_decode(spec_encode(message) + rest, max_body) == Decoded::Complete(
            spec_normalize(message),
            spec_encode(message).len() as int,
        ),
{
    let start = spec_encode_start(message);
    let forced = spec_with_content_length(message.headers, message.body.len());
    let lines = spec_lines(forced);
    let written = spec_encode_lines(lines);
    let bytes = spec_encode(message) + rest;
    let empty = Seq::<u8>::empty();
    lemma_parse_start(message);
    assert(bytes =~= empty + start + spec_crlf() + (written + spec_crlf() + message.body + rest));
    lemma_line_at(
        bytes,
        empty,
        start,
        written + spec_crlf() + message.body + rest,
        MAX_START_LINE_LENGTH as int,
    );
    lemma_forced_content_length(message.headers, message.body.len());
    lemma_lines_are_plain(forced);
    let prefix = start + spec_crlf();
    assert(bytes =~= prefix + written + spec_crlf() + (message.body + rest));
    lemma_parse_plain_lines(bytes, prefix, lines, message.body + rest, HeaderMapView::empty(), None);
    assert forall|i: int| 0 <= i < forced.len() implies !spec_contains(
        HeaderMapView::empty(),
        (#[trigger] forced[i]).0.lower,
    ) by {}
    lemma_append_lines(HeaderMapView::empty(), forced);
    assert(HeaderMapView::empty() + forced =~= forced);
    let body = (prefix.len() + written.len() + 2) as int;
    assert(bytes.subrange(body, body + message.body.len() as int) =~= message.body);
    assert(spec_encode(message).len() == body + message.body.len());
}

/// The header lines of two header maps, one after the other, are the header
/// lines of the two together.
pub proof fn lemma_lines_concat(a: HeaderMapView, b: HeaderMapView)
    ensures
        spec_lines(a + b) == spec_lines(a) + spec_lines(b),
    decreases a.len(),
{
    if a.len() == 0 {
        assert(a + b =~= b);
        assert(spec_lines(a) + spec_lines(b) =~= spec_lines(b));
    } else {
        assert((a + b).skip(1) =~= a.skip(1) + b);
        assert((a + b)[0] == a[0]);
        lemma_lines_concat(a.skip(1), b);
        assert(spec_lines(a + b) =~= spec_lines(a) + spec_lines(b));
    }
}

/// Every header line of a header map carries the name of one of its entries.
pub proof fn lemma_line_names(entries: HeaderMapView, index: int) -> (entry: int)
    requires
        0 <= index < spec_lines(entries).len(),
    ensures
        0 <= entry < entries.len(),
        entries[entry].0 == spec_lines(entries)[index].0,
    decreases entries.len(),
{
    let first = spec_lines_of(entries[0].0, entries[0].1);
    if index < first.len() {
        assert(spec_lines(entries)[index] == first[index]);
        0
    } else {
        let rest = entries.skip(1);
        assert(spec_lines(entries)[index] == spec_lines(rest)[index - first.len()]);
        let entry = lemma_line_names(rest, index - first.len());
        assert(rest[entry] == entries[entry + 1]);
        entry + 1
    }
}

/// The `Content-Length` override. Among the header lines that the encoder
/// writes for a message with well-formed headers, exactly one is named
/// `Content-Length`, and it states the length of the body, whatever the
/// message holds under that name. The position of that line is returned.
pub proof fn lemma_one_content_length_line(headers: HeaderMapView, length: nat) -> (at: int)
    requires
        spec_map_wf(headers),
        length <= MAX_CONTENT_LENGTH,
        length <= usize::MAX,
    ensures
        ({
            let lines = spec_lines(spec_with_content_length(headers, length));
            &&& 0 <= at < lines.len()
            &&& lines[at] == (HeaderName::ContentLength@, spec_decimal(length))
            &&& forall|j: int|
                0 <= j < lines.len() && j != at ==> (#[trigger] lines[j]).0.lower
                    != HeaderName::ContentLength.lower()
        }),
{
    let name = HeaderName::ContentLength;
    let forced = spec_with_content_length(headers, length);
    let lines = spec_lines(forced);
    lemma_forced_content_length(headers, length);
    lemma_find(forced, name.lower());
    let index = spec_find(forced, name.lower());
    assert(index < forced.len());
    lemma_find(headers, name.lower());
    assert(forced[index] == (name@, seq![spec_decimal(length)])) by {
        let old_index = spec_find(headers, name.lower());
        assert forall|j: int| 0 <= j < old_index implies (#[trigger] forced[j]).0.lower
            != name.lower() by {
            assert(forced[j] == headers[j]);
        }
        lemma_find_is(forced, name.lower(), old_index);
    }
    let before = forced.take(index);
    let entry = seq![forced[index]];
    let after = forced.skip(index + 1);
    assert(forced =~= before + entry + after);
    lemma_lines_concat(before + entry, after);
    lemma_lines_concat(before, entry);
    assert(entry.skip(1) =~= HeaderMapView::empty());
    assert(spec_lines(entry.skip(1)) =~= Seq::<HeaderLine>::empty());
    let own = spec_lines_of(forced[index].0, forced[index].1);
    assert(spec_lines(entry) =~= own);
    assert(own =~= seq![(name@, spec_decimal(length))]);
    let at = spec_lines(before).len() as int;
    assert(lines =~= spec_lines(before) + own + spec_lines(after));
    assert(lines[at] == own[0]);
    assert forall|j: int| 0 <= j < lines.len() && j != at implies (#[trigger] lines[j]).0.lower
        != name.lower() by {
        if j < at {
            assert(lines[j] == spec_lines(before)[j]);
            let i = lemma_line_names(before, j);
            assert(before[i] == forced[i]);
            assert(forced[i].0.lower != forced[index].0.lower);
        } else {
            assert(lines[j] == spec_lines(after)[j - at - 1]);
            let i = lemma_line_names(after, j - at - 1);
            assert(after[i] == forced[i + index + 1]);
            assert(forced[index].0.lower != forced[i + index + 1].0.lower);
        }
    }
    at
}

} // verus!
