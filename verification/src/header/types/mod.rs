//! Typed headers: headers whose values are decoded into a value of a type of
//! their own, and encoded from it.

pub mod content_length;
pub mod cseq;
pub mod public;
pub mod session;

pub use self::content_length::{ContentLength, MAX_CONTENT_LENGTH};
pub use self::cseq::{CSeq, MAX_CSEQ};
pub use self::public::Public;
pub use self::session::Session;

use vstd::prelude::*;

use super::map::spec_values_view;
use super::name::HeaderName;
use super::value::HeaderValue;

verus! {

/// A possible error value when decoding a typed header from raw header
/// values.
///
/// This error indicates that the values do not follow the grammar of the
/// header, or that there are more or fewer of them than the header allows.
#[derive(Clone, Copy, Debug, PartialEq, Eq, Hash)]
pub struct InvalidTypedHeader;

impl InvalidTypedHeader {
    /// A short description of the error.
    pub fn description(&self) -> (res: &'static str)
        ensures
            res@ == "invalid RTSP typed header"@,
    {
        "invalid RTSP typed header"
    }
}

/// A header with a type of its own.
///
/// The view of a typed header is what the header says. The raw values that
/// encode it, and what raw values decode to, are functions of views; decoding
/// what was encoded gives the view back. Every value of a typed header is
/// well-formed: the types keep that as their invariant.
pub trait TypedHeader: View + Sized {
    /// Whether the header is one that can be encoded: its fields are within
    /// the limits that the grammar of the header sets.
    spec fn wf(&self) -> bool;

    /// The name of the header.
    spec fn spec_header_name() -> HeaderName;

    /// The raw values that encode a header with the view `value`.
    spec fn spec_to_header_raw(value: Self::V) -> Seq<Seq<u8>>;

    /// The view of the header that the raw values `header` decode to; `None`
    /// where they do not follow the grammar of the header.
    spec fn spec_try_from_header_raw(header: Seq<Seq<u8>>) -> Option<Self::V>;

    /// Returns the name of the header, which is a standardized name.
    fn header_name() -> (res: HeaderName)
        ensures
            res == Self::spec_header_name(),
            res !is Extension,
    ;

    /// Converts the header to raw header values.
    fn to_header_raw(&self) -> (res: Vec<HeaderValue>)
        ensures
            self.wf(),
            spec_values_view(res@) == Self::spec_to_header_raw(self@),
            forall|i: int| 0 <= i < res@.len() ==> (#[trigger] res@[i]).wf(),
    ;

    /// Converts raw header values to the header, unless they do not follow its
    /// grammar.
    fn try_from_header_raw(header: &[HeaderValue]) -> (res: Result<Self, InvalidTypedHeader>)
        ensures
            res is Ok <==> Self::spec_try_from_header_raw(spec_values_view(header@)) is Some,
            res matches Ok(typed) ==> typed.wf() && Some(typed@)
                == Self::spec_try_from_header_raw(spec_values_view(header@)),
    ;

    /// Decoding the raw values that encode a header gives the header back.
    proof fn lemma_round_trip(&self)
        requires
            self.wf(),
        ensures
            Self::spec_try_from_header_raw(Self::spec_to_header_raw(self@)) == Some(self@),
    ;
}

} // verus!
