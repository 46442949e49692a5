//! RTSP header values.
//!
//! A header value is a string of printable ASCII bytes and horizontal tabs.
//! A line break is allowed in it only where it folds the line: a carriage
//! return and line feed directly followed by a space or a tab.

use vstd::prelude::*;
use vstd::std_specs::cmp::PartialEqSpecImpl;
use vstd::string::StringSliceAdditionalSpecFns;

use super::MAX_HEADER_VALUE_LENGTH;
use crate::syntax::{
    bytes_eq, bytes_to_vec, is_whitespace, spec_is_printable, spec_is_trimmed,
    spec_is_whitespace, CR, HTAB, LF,
};

verus! {

/// Whether the byte at `index` may stand where it does in a header value.
pub open spec fn spec_value_byte_ok(bytes: Seq<u8>, index: int) -> bool {
    let byte = bytes[index];
    if byte == CR {
        index + 2 < bytes.len() && bytes[index + 1] == LF && spec_is_whitespace(bytes[index + 2])
    } else if byte == LF {
        index > 0 && bytes[index - 1] == CR
    } else {
        spec_is_printable(byte) || byte == HTAB
    }
}

/// Whether `bytes` is a header value: at most `MAX_HEADER_VALUE_LENGTH`
/// bytes, each of which may stand where it does.
pub open spec fn spec_is_valid_value(bytes: Seq<u8>) -> bool {
    &&& bytes.len() <= MAX_HEADER_VALUE_LENGTH
    &&& forall|i: int| 0 <= i < bytes.len() ==> #[trigger] spec_value_byte_ok(bytes, i)
}

/// Whether `bytes` is a header value on one line, without whitespace around
/// it: the form in which a decoder hands values out.
pub open spec fn spec_is_plain_value(bytes: Seq<u8>) -> bool {
    &&& bytes.len() <= MAX_HEADER_VALUE_LENGTH
    &&& forall|i: int|
        0 <= i < bytes.len() ==> spec_is_printable(#[trigger] bytes[i]) || bytes[i] == HTAB
    &&& spec_is_trimmed(bytes)
}

/// A possible error value when converting to a `HeaderValue` from bytes.
///
/// This error indicates that the header value was too long, contained a byte
/// that is not allowed or a line break that does not fold the line.
#[derive(Clone, Copy, Debug, PartialEq, Eq, Hash)]
pub struct InvalidHeaderValue;

impl InvalidHeaderValue {
    /// A short description of the error.
    pub fn description(&self) -> (res: &'static str)
        ensures
            res@ == "invalid RTSP header value"@,
    {
        "invalid RTSP header value"
    }
}

/// An RTSP header value.
#[derive(Debug, Hash)]
pub struct HeaderValue {
    bytes: Vec<u8>,
}

impl View for HeaderValue {
    type V = Seq<u8>;

    closed spec fn view(&self) -> Seq<u8> {
        self.bytes@
    }
}

impl HeaderValue {
    /// Well-formedness: the bytes are a header value. It holds of every value
    /// that `try_from` returns.
    pub open spec fn wf(&self) -> bool {
        spec_is_valid_value(self@)
    }

    /// Converts bytes to a header value, unless they are not one.
    pub fn try_from(value: &[u8]) -> (res: Result<HeaderValue, InvalidHeaderValue>)
        ensures
            res is Ok <==> spec_is_valid_value(value@),
            res matches Ok(header) ==> header@ == value@,
    {
        if value.len() > MAX_HEADER_VALUE_LENGTH {
            return Err(InvalidHeaderValue);
        }
        let mut i: usize = 0;
        while i < value.len()
            invariant
                i <= value.len(),
                value.len() <= MAX_HEADER_VALUE_LENGTH,
                forall|j: int| 0 <= j < i ==> #[trigger] spec_value_byte_ok(value@, j),
            decreases value.len() - i,
        {
            let byte = value[i];
            let ok = if byte == CR {
                i + 2 < value.len() && value[i + 1] == LF && is_whitespace(value[i + 2])
            } else if byte == LF {
                i > 0 && value[i - 1] == CR
            } else {
                (0x20 <= byte && byte <= 0x7e) || byte == HTAB
            };
            if !ok {
                assert(!spec_value_byte_ok(value@, i as int));
                return Err(InvalidHeaderValue);
            }
            i += 1;
        }
        Ok(HeaderValue { bytes: bytes_to_vec(value) })
    }

    /// Makes bytes that are known to be a header value into one.
    pub(crate) fn from_valid(bytes: Vec<u8>) -> (res: HeaderValue)
        requires
            spec_is_valid_value(bytes@),
        ensures
            res@ == bytes@,
            res.wf(),
    {
        HeaderValue { bytes }
    }

    /// Converts a string to a header value, as `try_from` does with its
    /// bytes.
    pub fn try_from_str(value: &str) -> (res: Result<HeaderValue, InvalidHeaderValue>)
        ensures
            res is Ok <==> spec_is_valid_value(value.spec_bytes()),
            res matches Ok(header) ==> header@ == value.spec_bytes(),
    {
        HeaderValue::try_from(value.as_bytes())
    }

    /// Returns the bytes of the value.
    pub fn as_bytes(&self) -> (res: &[u8])
        ensures
            res@ == self@,
    {
        self.bytes.as_slice()
    }

    /// Returns the length of the value in bytes.
    pub fn len(&self) -> (res: usize)
        ensures
            res == self@.len(),
    {
        self.bytes.len()
    }

    /// Decides whether the value is empty.
    pub fn is_empty(&self) -> (res: bool)
        ensures
            res == (self@.len() == 0),
    {
        self.bytes.len() == 0
    }
}

impl Clone for HeaderValue {
    fn clone(&self) -> (res: HeaderValue)
        ensures
            res@ == self@,
    {
        HeaderValue { bytes: bytes_to_vec(self.bytes.as_slice()) }
    }
}

impl PartialEq for HeaderValue {
    /// Two header values are equal when their bytes are.
    fn eq(&self, other: &HeaderValue) -> (res: bool) {
        bytes_eq(self.bytes.as_slice(), other.bytes.as_slice())
    }
}

impl PartialEqSpecImpl for HeaderValue {
    open spec fn obeys_eq_spec() -> bool {
        true
    }

    open spec fn eq_spec(&self, other: &HeaderValue) -> bool {
        self@ == other@
    }
}

impl Eq for HeaderValue {

}

} // verus!
