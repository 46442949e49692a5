//! The `Session` header.

use vstd::prelude::*;
use vstd::slice::slice_subrange;
use vstd::string::StringSliceAdditionalSpecFns;

use super::content_length::lemma_decimal_is_value;
use super::{InvalidTypedHeader, TypedHeader};
use crate::header::map::spec_values_view;
use crate::header::name::HeaderName;
use crate::header::value::{spec_is_valid_value, spec_value_byte_ok, HeaderValue};
use crate::number::{
    format_decimal, lemma_digits_bound, lemma_pow10_19, lemma_pow10_monotonic,
    parse_decimal, spec_decimal, spec_digits_value, spec_is_digits, spec_pow10,
};
use crate::syntax::{
    bytes_eq, bytes_to_vec, index_of, is_token, lemma_ascii_literal, lemma_index_of_is,
    lemma_token_has_no_separator, lemma_trim_of_trimmed, spec_index_of, spec_is_digit,
    spec_is_token, spec_is_token_char, spec_is_whitespace, spec_trim_whitespace,
    trim_whitespace,
};

verus! {

/// The longest session identifier that is accepted, in bytes.
pub const MAX_SESSION_ID_LENGTH: usize = 256;

/// What a `Session` header says.
pub struct SessionView {
    /// The session identifier.
    pub id: Seq<u8>,
    /// The session timeout in seconds, where the header states one.
    pub timeout: Option<u64>,
}

/// The `Session` typed header as described by
/// [RFC7826](https://tools.ietf.org/html/rfc7826#section-18.49).
///
/// It names the session to which a request belongs, and may state after how
/// many seconds without a request the server may close the session.
#[derive(Debug, PartialEq, Eq, Hash)]
pub struct Session {
    id: Vec<u8>,
    timeout: Option<u64>,
}

impl View for Session {
    type V = SessionView;

    closed spec fn view(&self) -> SessionView {
        SessionView { id: self.id@, timeout: self.timeout }
    }
}

/// The text that introduces the timeout parameter.
pub open spec fn spec_timeout_prefix() -> Seq<u8> {
    ";timeout=".spec_bytes()
}

/// Whether `id` is a session identifier: a token of at most
/// `MAX_SESSION_ID_LENGTH` bytes.
pub open spec fn spec_is_session_id(id: Seq<u8>) -> bool {
    spec_is_token(id) && id.len() <= MAX_SESSION_ID_LENGTH
}

/// The timeout that the parameter `parameter` states, which is what follows
/// the session identifier: nothing, or `;timeout=` and at most 19 digits.
/// `None` where the parameter is neither.
pub open spec fn spec_parse_timeout(parameter: Seq<u8>) -> Option<Option<u64>> {
    let prefix = spec_timeout_prefix();
    if parameter.len() == 0 {
        Some(None)
    } else if parameter.len() > prefix.len() && parameter.take(prefix.len() as int) == prefix
        && spec_is_digits(parameter.skip(prefix.len() as int)) && parameter.len() - prefix.len()
        <= 19 {
        Some(Some(spec_digits_value(parameter.skip(prefix.len() as int)) as u64))
    } else {
        None
    }
}

impl Session {
    /// The invariant of the type: the identifier is a session identifier, and
    /// the timeout is one that the header can state.
    #[verifier::type_invariant]
    closed spec fn inv(self) -> bool {
        &&& spec_is_session_id(self.id@)
        &&& self.timeout matches Some(seconds) ==> seconds < spec_pow10(19)
    }

    /// Creates the header for the session `id`, with the timeout `timeout` if
    /// there is one. The identifier must be a token of at most
    /// `MAX_SESSION_ID_LENGTH` bytes, and the timeout at most 19 digits long.
    pub fn try_from(id: &[u8], timeout: Option<u64>) -> (res: Result<Session, InvalidTypedHeader>)
        ensures
            res is Ok <==> spec_is_session_id(id@) && (timeout matches Some(seconds) ==> seconds
                < spec_pow10(19)),
            res matches Ok(session) ==> session.wf() && session@ == (SessionView {
                id: id@,
                timeout,
            }),
    {
        proof {
            lemma_pow10_19();
        }
        if id.len() > MAX_SESSION_ID_LENGTH || !is_token(id) {
            return Err(InvalidTypedHeader);
        }
        match timeout {
            Some(seconds) => {
                if seconds > 9_999_999_999_999_999_999 {
                    return Err(InvalidTypedHeader);
                }
            },
            None => {},
        }
        Ok(Session { id: bytes_to_vec(id), timeout })
    }

    /// Returns the session identifier.
    pub fn id(&self) -> (res: &[u8])
        ensures
            res@ == self@.id,
    {
        self.id.as_slice()
    }

    /// Returns the session timeout in seconds, where the header states one.
    pub fn timeout(&self) -> (res: Option<u64>)
        ensures
            res == self@.timeout,
    {
        self.timeout
    }
}

impl Clone for Session {
    fn clone(&self) -> (res: Session)
        ensures
            res@ == self@,
    {
        proof {
            use_type_invariant(self);
        }
        Session { id: bytes_to_vec(self.id.as_slice()), timeout: self.timeout }
    }
}

impl TypedHeader for Session {
    open spec fn wf(&self) -> bool {
        &&& spec_is_session_id(self@.id)
        &&& self@.timeout matches Some(seconds) ==> seconds < spec_pow10(19)
    }

    open spec fn spec_header_name() -> HeaderName {
        HeaderName::Session
    }

    /// One value: the session identifier, followed by `;timeout=` and the
    /// decimal form of the timeout where there is one.
    open spec fn spec_to_header_raw(value: SessionView) -> Seq<Seq<u8>> {
        match value.timeout {
            Some(seconds) => seq![value.id + spec_timeout_prefix() + spec_decimal(seconds as nat)],
            None => seq![value.id],
        }
    }

    /// Exactly one value. With whitespace around it ignored, it is a session
    /// identifier up to its first `;`, and a timeout parameter from there.
    open spec fn spec_try_from_header_raw(header: Seq<Seq<u8>>) -> Option<SessionView> {
        if header.len() != 1 {
            None
        } else {
            let value = spec_trim_whitespace(header[0]);
            let split = spec_index_of(value, 0x3b);
            let id = value.take(split);
            match spec_parse_timeout(value.skip(split)) {
                Some(timeout) if spec_is_session_id(id) => Some(SessionView { id, timeout }),
                _ => None,
            }
        }
    }

    /// Returns the statically assigned `HeaderName` for this header.
    fn header_name() -> (res: HeaderName) {
        HeaderName::Session
    }

    /// Converts the `Session` type to raw header values.
    fn to_header_raw(&self) -> (res: Vec<HeaderValue>) {
        proof {
            use_type_invariant(self);
        }
        let mut bytes = bytes_to_vec(self.id.as_slice());
        match self.timeout {
            Some(seconds) => {
                let mut prefix = bytes_to_vec(";timeout=".as_bytes());
                let mut digits = format_decimal(seconds);
                bytes.append(&mut prefix);
                bytes.append(&mut digits);
            },
            None => {},
        }
        proof {
            lemma_session_value(self@);
        }
        let mut res: Vec<HeaderValue> = Vec::new();
        res.push(HeaderValue::from_valid(bytes));
        assert(spec_values_view(res@) =~= Self::spec_to_header_raw(self@));
        res
    }

    /// Converts the raw header values to the `Session` header type. Based on
    /// the syntax provided by
    /// [RFC7826](https://tools.ietf.org/html/rfc7826#section-20), this header
    /// has the following syntax:
    ///
    /// ```text
    /// Session = "Session" HCOLON session-id [ ";" "timeout" "=" 1*19DIGIT ]
    /// ```
    fn try_from_header_raw(header: &[HeaderValue]) -> (res: Result<Self, InvalidTypedHeader>) {
        if header.len() != 1 {
            return Err(InvalidTypedHeader);
        }
        assert(spec_values_view(header@)[0] == header@[0]@);
        let value = trim_whitespace(header[0].as_bytes());
        let split = index_of(value, 0x3b);
        let id = slice_subrange(value, 0, split);
        let parameter = slice_subrange(value, split, value.len());
        assert(id@ == value@.take(split as int));
        assert(parameter@ == value@.skip(split as int));
        if id.len() > MAX_SESSION_ID_LENGTH || !is_token(id) {
            return Err(InvalidTypedHeader);
        }
        let prefix = ";timeout=".as_bytes();
        if parameter.len() == 0 {
            Ok(Session { id: bytes_to_vec(id), timeout: None })
        } else if parameter.len() > prefix.len() && parameter.len() - prefix.len() <= 19
            && bytes_eq(slice_subrange(parameter, 0, prefix.len()), prefix) {
            let digits = slice_subrange(parameter, prefix.len(), parameter.len());
            assert(digits@ == parameter@.skip(prefix@.len() as int));
            assert(parameter@.take(prefix@.len() as int) == prefix@);
            match parse_decimal(digits, 19) {
                Some(seconds) => {
                    proof {
                        lemma_digits_bound(digits@);
                        lemma_pow10_monotonic(digits@.len(), 19);
                        lemma_pow10_19();
                    }
                    Ok(Session { id: bytes_to_vec(id), timeout: Some(seconds) })
                },
                None => Err(InvalidTypedHeader),
            }
        } else {
            Err(InvalidTypedHeader)
        }
    }

    proof fn lemma_round_trip(&self) {
        lemma_session_value(self@);
    }
}

/// The raw value of a well-formed session header is a header value, and is
/// read back as the session header.
pub proof fn lemma_session_value(session: SessionView)
    requires
        spec_is_session_id(session.id),
        session.timeout matches Some(seconds) ==> seconds < spec_pow10(19),
    ensures
        Session::spec_to_header_raw(session).len() == 1,
        spec_is_valid_value(Session::spec_to_header_raw(session)[0]),
        Session::spec_try_from_header_raw(Session::spec_to_header_raw(session)) == Some(session),
{
    let value = Session::spec_to_header_raw(session)[0];
    let id = session.id;
    let prefix = spec_timeout_prefix();
    reveal_strlit(";timeout=");
    lemma_ascii_literal(";timeout=");
    assert(prefix.len() == 9);
    assert(prefix[0] == 0x3b);
    assert forall|j: int| 0 <= j < id.len() implies #[trigger] id[j] != 0x3b && !spec_is_whitespace(
        id[j],
    ) && 0x21 <= id[j] <= 0x7e by {
        assert(spec_is_token_char(id[j]));
    }
    match session.timeout {
        Some(seconds) => {
            let digits = spec_decimal(seconds as nat);
            lemma_decimal_is_value(seconds as nat, 19);
            assert(value == id + prefix + digits);
            assert forall|i: int| 0 <= i < value.len() implies #[trigger] spec_value_byte_ok(
                value,
                i,
            ) by {
                if i < id.len() {
                    assert(value[i] == id[i]);
                } else if i < id.len() + prefix.len() {
                    assert(value[i] == prefix[i - id.len()]);
                } else {
                    assert(value[i] == digits[i - id.len() - prefix.len()]);
                    assert(spec_is_digit(digits[i - id.len() - prefix.len()]));
                }
            }
            assert(value[0] == id[0]);
            assert(value.last() == digits.last());
            assert(spec_is_digit(digits.last()));
            lemma_trim_of_trimmed(value);
            assert forall|j: int| 0 <= j < id.len() implies #[trigger] value[j] != 0x3b by {
                assert(value[j] == id[j]);
            }
            assert(value[id.len() as int] == prefix[0]);
            lemma_index_of_is(value, 0x3b, id.len() as int);
            assert(value.take(id.len() as int) =~= id);
            let parameter = value.skip(id.len() as int);
            assert(parameter =~= prefix + digits);
            assert(parameter.take(prefix.len() as int) =~= prefix);
            assert(parameter.skip(prefix.len() as int) =~= digits);
        },
        None => {
            assert(value == id);
            lemma_token_has_no_separator(id);
            assert forall|i: int| 0 <= i < value.len() implies #[trigger] spec_value_byte_ok(
                value,
                i,
            ) by {
                assert(spec_is_token_char(id[i]));
            }
            assert(value.take(id.len() as int) =~= id);
            assert(value.skip(id.len() as int) =~= Seq::<u8>::empty());
        },
    }
}

} // verus!
