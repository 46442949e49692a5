//! The `Content-Length` header.

use std::ops::Deref;
use vstd::prelude::*;

use super::{InvalidTypedHeader, TypedHeader};
use crate::header::map::spec_values_view;
use crate::header::name::HeaderName;
use crate::header::value::{spec_is_valid_value, spec_value_byte_ok, HeaderValue};
use crate::number::{
    format_decimal, lemma_decimal, lemma_decimal_len, lemma_digits_bound, lemma_pow10_19,
    lemma_pow10_monotonic, parse_decimal, spec_decimal, spec_digits_value, spec_is_digits, spec_pow10,
};
use crate::syntax::{
    lemma_trim_of_trimmed, spec_is_digit, spec_is_whitespace, spec_trim_whitespace,
    trim_whitespace,
};

verus! {

/// The largest content length that the header can state: nineteen digits.
pub const MAX_CONTENT_LENGTH: u64 = 9_999_999_999_999_999_999;

/// The `Content-Length` typed header as described by
/// [RFC7826](https://tools.ietf.org/html/rfc7826#section-18.17).
///
/// The RFC allows a content length of up to 19 digits. The length of a buffer
/// is a `usize`, so on some platforms not every such length can be held.
///
/// The default value for this header is 0.
#[derive(Clone, Copy, Debug, PartialEq, Eq, Structural, Hash, PartialOrd, Ord)]
pub struct ContentLength(usize);

impl View for ContentLength {
    type V = usize;

    closed spec fn view(&self) -> usize {
        self.0
    }
}

/// The content length that the digits `digits` state, if they are at most 19
/// digits and the number fits the platform.
pub open spec fn spec_parse_content_length(digits: Seq<u8>) -> Option<usize> {
    if spec_is_digits(digits) && digits.len() <= 19 && spec_digits_value(digits) <= usize::MAX {
        Some(spec_digits_value(digits) as usize)
    } else {
        None
    }
}

impl ContentLength {
    /// The invariant of the type: the length is one that the header can
    /// state.
    #[verifier::type_invariant]
    closed spec fn inv(self) -> bool {
        self.0 <= MAX_CONTENT_LENGTH
    }

    /// Creates the header for a content of `value` bytes, unless that is more
    /// than `MAX_CONTENT_LENGTH`.
    pub fn try_from(value: usize) -> (res: Result<ContentLength, InvalidTypedHeader>)
        ensures
            res is Ok <==> value <= MAX_CONTENT_LENGTH,
            res matches Ok(header) ==> header@ == value && header.wf(),
    {
        if value as u64 > MAX_CONTENT_LENGTH {
            Err(InvalidTypedHeader)
        } else {
            Ok(ContentLength(value))
        }
    }

    /// Returns the content length in bytes.
    pub fn value(&self) -> (res: usize)
        ensures
            res == self@,
    {
        self.0
    }
}

impl Deref for ContentLength {
    type Target = usize;

    fn deref(&self) -> (res: &usize)
        ensures
            *res == self@,
    {
        &self.0
    }
}

impl Default for ContentLength {
    /// The default content length is 0.
    fn default() -> (res: ContentLength)
        ensures
            res@ == 0,
    {
        ContentLength(0)
    }
}

impl TypedHeader for ContentLength {
    open spec fn wf(&self) -> bool {
        self@ <= MAX_CONTENT_LENGTH
    }

    open spec fn spec_header_name() -> HeaderName {
        HeaderName::ContentLength
    }

    /// One value: the decimal form of the length.
    open spec fn spec_to_header_raw(value: usize) -> Seq<Seq<u8>> {
        seq![spec_decimal(value as nat)]
    }

    /// No value stands for a length of 0. One value is read as digits, with
    /// whitespace around them ignored. More than one value is an error.
    open spec fn spec_try_from_header_raw(header: Seq<Seq<u8>>) -> Option<usize> {
        if header.len() == 0 {
            Some(0)
        } else if header.len() > 1 {
            None
        } else {
            spec_parse_content_length(spec_trim_whitespace(header[0]))
        }
    }

    /// Returns the statically assigned `HeaderName` for this header.
    fn header_name() -> (res: HeaderName) {
        HeaderName::ContentLength
    }

    /// Converts the `ContentLength` type to raw header values.
    fn to_header_raw(&self) -> (res: Vec<HeaderValue>) {
        let digits = format_decimal(self.0 as u64);
        proof {
            use_type_invariant(self);
            lemma_pow10_19();
            lemma_decimal_is_value(self.0 as nat, 19);
        }
        let mut res: Vec<HeaderValue> = Vec::new();
        res.push(HeaderValue::from_valid(digits));
        assert(spec_values_view(res@) =~= seq![spec_decimal(self.0 as nat)]);
        res
    }

    /// Converts the raw header values to the `ContentLength` header type.
    /// Based on the syntax provided by
    /// [RFC7826](https://tools.ietf.org/html/rfc7826#section-20), this header
    /// has the following syntax:
    ///
    /// ```text
    /// DIGIT = %x30-39 ; any US-ASCII digit "0".."9"
    /// Content-Length = "Content-Length" HCOLON 1*19DIGIT
    /// ```
    ///
    /// The absence of a header value defaults the content length to a value
    /// of 0.
    fn try_from_header_raw(header: &[HeaderValue]) -> (res: Result<Self, InvalidTypedHeader>) {
        if header.len() == 0 {
            Ok(ContentLength::default())
        } else if header.len() > 1 {
            Err(InvalidTypedHeader)
        } else {
            let digits = trim_whitespace(header[0].as_bytes());
            assert(spec_values_view(header@)[0] == header@[0]@);
            match parse_decimal(digits, 19) {
                Some(value) => {
                    proof {
                        lemma_digits_bound(digits@);
                        lemma_pow10_monotonic(digits@.len(), 19);
                        lemma_pow10_19();
                    }
                    if value > usize::MAX as u64 {
                        Err(InvalidTypedHeader)
                    } else {
                        Ok(ContentLength(value as usize))
                    }
                },
                None => Err(InvalidTypedHeader),
            }
        }
    }

    proof fn lemma_round_trip(&self) {
        lemma_pow10_19();
        lemma_decimal_is_value(self@ as nat, 19);
        let digits = spec_decimal(self@ as nat);
        assert(Self::spec_to_header_raw(self@)[0] == digits);
    }
}

/// The decimal form of a number below ten to the power of `width` is a plain
/// header value of at most `width` digits, which trimming leaves as it is and
/// which denotes the number.
pub proof fn lemma_decimal_is_value(number: nat, width: nat)
    requires
        1 <= width <= 19,
        number < spec_pow10(width),
    ensures
        spec_is_valid_value(spec_decimal(number)),
        spec_trim_whitespace(spec_decimal(number)) == spec_decimal(number),
        spec_is_digits(spec_decimal(number)),
        spec_decimal(number).len() <= width,
        spec_digits_value(spec_decimal(number)) == number,
{
    let digits = spec_decimal(number);
    lemma_decimal(number);
    lemma_decimal_len(number, width);
    assert(!spec_is_whitespace(digits[0]));
    assert(!spec_is_whitespace(digits.last()));
    lemma_trim_of_trimmed(digits);
    assert forall|i: int| 0 <= i < digits.len() implies #[trigger] spec_value_byte_ok(digits, i) by {
        assert(spec_is_digit(digits[i]));
    }
}

} // verus!
