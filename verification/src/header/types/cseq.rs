//! The `CSeq` header.

use std::ops::Deref;
use vstd::prelude::*;

use super::content_length::lemma_decimal_is_value;
use super::{InvalidTypedHeader, TypedHeader};
use crate::header::map::spec_values_view;
use crate::header::name::HeaderName;
use crate::header::value::HeaderValue;
use crate::number::{
    format_decimal, lemma_digits_bound, lemma_pow10_19, lemma_pow10_monotonic, parse_decimal,
    spec_decimal, spec_digits_value, spec_is_digits,
};
use crate::syntax::{spec_trim_whitespace, trim_whitespace};

verus! {

/// The largest sequence number that the header can state: nine digits.
pub const MAX_CSEQ: u32 = 999_999_999;

/// The `CSeq` typed header as described by
/// [RFC7826](https://tools.ietf.org/html/rfc7826#section-18.20).
///
/// It numbers a request within its connection; the response to the request
/// carries the same number.
#[derive(Clone, Copy, Debug, PartialEq, Eq, Structural, Hash, PartialOrd, Ord)]
pub struct CSeq(u32);

impl View for CSeq {
    type V = u32;

    closed spec fn view(&self) -> u32 {
        self.0
    }
}

/// The sequence number that the digits `digits` state, if they are at most
/// nine digits.
pub open spec fn spec_parse_cseq(digits: Seq<u8>) -> Option<u32> {
    if spec_is_digits(digits) && digits.len() <= 9 {
        Some(spec_digits_value(digits) as u32)
    } else {
        None
    }
}

impl CSeq {
    /// The invariant of the type: the sequence number is one that the header
    /// can state.
    #[verifier::type_invariant]
    closed spec fn inv(self) -> bool {
        self.0 <= MAX_CSEQ
    }

    /// Creates the header for the sequence number `value`, unless that is more
    /// than `MAX_CSEQ`.
    pub fn try_from(value: u32) -> (res: Result<CSeq, InvalidTypedHeader>)
        ensures
            res is Ok <==> value <= MAX_CSEQ,
            res matches Ok(header) ==> header@ == value && header.wf(),
    {
        if value > MAX_CSEQ {
            Err(InvalidTypedHeader)
        } else {
            Ok(CSeq(value))
        }
    }

    /// Returns the sequence number.
    pub fn value(&self) -> (res: u32)
        ensures
            res == self@,
    {
        self.0
    }
}

impl Deref for CSeq {
    type Target = u32;

    fn deref(&self) -> (res: &u32)
        ensures
            *res == self@,
    {
        &self.0
    }
}

impl TypedHeader for CSeq {
    open spec fn wf(&self) -> bool {
        self@ <= MAX_CSEQ
    }

    open spec fn spec_header_name() -> HeaderName {
        HeaderName::CSeq
    }

    /// One value: the decimal form of the sequence number.
    open spec fn spec_to_header_raw(value: u32) -> Seq<Seq<u8>> {
        seq![spec_decimal(value as nat)]
    }

    /// Exactly one value, which is read as digits, with whitespace around them
    /// ignored.
    open spec fn spec_try_from_header_raw(header: Seq<Seq<u8>>) -> Option<u32> {
        if header.len() != 1 {
            None
        } else {
            spec_parse_cseq(spec_trim_whitespace(header[0]))
        }
    }

    /// Returns the statically assigned `HeaderName` for this header.
    fn header_name() -> (res: HeaderName) {
        HeaderName::CSeq
    }

    /// Converts the `CSeq` type to raw header values.
    fn to_header_raw(&self) -> (res: Vec<HeaderValue>) {
        let digits = format_decimal(self.0 as u64);
        proof {
            use_type_invariant(self);
            lemma_pow10_19();
            lemma_decimal_is_value(self.0 as nat, 9);
        }
        let mut res: Vec<HeaderValue> = Vec::new();
        res.push(HeaderValue::from_valid(digits));
        assert(spec_values_view(res@) =~= seq![spec_decimal(self.0 as nat)]);
        res
    }

    /// Converts the raw header values to the `CSeq` header type. Based on the
    /// syntax provided by
    /// [RFC7826](https://tools.ietf.org/html/rfc7826#section-20), this header
    /// has the following syntax:
    ///
    /// ```text
    /// CSeq = "CSeq" HCOLON cseq-nr
    /// cseq-nr = 1*9DIGIT
    /// ```
    fn try_from_header_raw(header: &[HeaderValue]) -> (res: Result<Self, InvalidTypedHeader>) {
        if header.len() != 1 {
            Err(InvalidTypedHeader)
        } else {
            let digits = trim_whitespace(header[0].as_bytes());
            assert(spec_values_view(header@)[0] == header@[0]@);
            match parse_decimal(digits, 9) {
                Some(value) => {
                    proof {
                        lemma_digits_bound(digits@);
                        lemma_pow10_monotonic(digits@.len(), 9);
                        lemma_pow10_19();
                    }
                    Ok(CSeq(value as u32))
                },
                None => Err(InvalidTypedHeader),
            }
        }
    }

    proof fn lemma_round_trip(&self) {
        lemma_pow10_19();
        lemma_decimal_is_value(self@ as nat, 9);
        let digits = spec_decimal(self@ as nat);
        assert(Self::spec_to_header_raw(self@)[0] == digits);
    }
}

} // verus!
