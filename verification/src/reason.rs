//! Reason phrases of RTSP responses.

use vstd::prelude::*;
use vstd::std_specs::cmp::PartialEqSpecImpl;

use crate::syntax::{bytes_eq, bytes_to_vec, spec_is_printable, HTAB};

verus! {

/// Whether `bytes` is a reason phrase: one or more printable ASCII bytes or
/// horizontal tabs.
pub open spec fn spec_is_reason_phrase(bytes: Seq<u8>) -> bool {
    bytes.len() > 0 && forall|i: int|
        0 <= i < bytes.len() ==> spec_is_printable(#[trigger] bytes[i]) || bytes[i] == HTAB
}

/// A possible error value when converting to a `ReasonPhrase` from bytes.
///
/// This error indicates that the reason phrase was empty or contained a byte
/// that is neither printable nor a tab.
#[derive(Clone, Copy, Debug, PartialEq, Eq, Hash)]
pub struct InvalidReasonPhrase;

impl InvalidReasonPhrase {
    /// A short description of the error.
    pub fn description(&self) -> (res: &'static str)
        ensures
            res@ == "invalid RTSP reason phrase"@,
    {
        "invalid RTSP reason phrase"
    }
}

/// The reason phrase of a response: a short text that explains the status
/// code to a human reader.
#[derive(Debug, Hash)]
pub struct ReasonPhrase {
    bytes: Vec<u8>,
}

impl View for ReasonPhrase {
    type V = Seq<u8>;

    closed spec fn view(&self) -> Seq<u8> {
        self.bytes@
    }
}

impl ReasonPhrase {
    /// Well-formedness: the bytes are a reason phrase. It holds of every
    /// reason phrase that `try_from` returns.
    pub open spec fn wf(&self) -> bool {
        spec_is_reason_phrase(self@)
    }

    /// Converts bytes to a reason phrase, unless they are not one.
    pub fn try_from(value: &[u8]) -> (res: Result<ReasonPhrase, InvalidReasonPhrase>)
        ensures
            res is Ok <==> spec_is_reason_phrase(value@),
            res matches Ok(reason) ==> reason@ == value@,
    {
        if value.len() == 0 {
            return Err(InvalidReasonPhrase);
        }
        let mut i: usize = 0;
        while i < value.len()
            invariant
                i <= value.len(),
                forall|j: int|
                    0 <= j < i ==> spec_is_printable(#[trigger] value@[j]) || value@[j] == HTAB,
            decreases value.len() - i,
        {
            let byte = value[i];
            if !((0x20 <= byte && byte <= 0x7e) || byte == HTAB) {
                return Err(InvalidReasonPhrase);
            }
            i += 1;
        }
        Ok(ReasonPhrase { bytes: bytes_to_vec(value) })
    }

    /// Returns the bytes of the reason phrase.
    pub fn as_bytes(&self) -> (res: &[u8])
        ensures
            res@ == self@,
    {
        self.bytes.as_slice()
    }
}

impl Clone for ReasonPhrase {
    fn clone(&self) -> (res: ReasonPhrase)
        ensures
            res@ == self@,
    {
        ReasonPhrase { bytes: bytes_to_vec(self.bytes.as_slice()) }
    }
}

impl PartialEq for ReasonPhrase {
    /// Two reason phrases are equal when their bytes are.
    fn eq(&self, other: &ReasonPhrase) -> (res: bool) {
        bytes_eq(self.bytes.as_slice(), other.bytes.as_slice())
    }
}

impl PartialEqSpecImpl for ReasonPhrase {
    open spec fn obeys_eq_spec() -> bool {
        true
    }

    open spec fn eq_spec(&self, other: &ReasonPhrase) -> bool {
        self@ == other@
    }
}

impl Eq for ReasonPhrase {

}

} // verus!
