//! The request URI of an RTSP request.
//!
//! A request names its target by an absolute RTSP URI, or by `*` where it is
//! addressed to the server itself.

use vstd::prelude::*;
use vstd::std_specs::cmp::PartialEqSpecImpl;

use crate::syntax::{bytes_eq, bytes_to_vec, lower_byte, spec_is_visible, spec_lower_byte};

verus! {

/// The length of the scheme of `bytes` with its `://`, if `bytes` starts with
/// one of the RTSP schemes `rtsp`, `rtsps` and `rtspu` in any case; else 0.
pub open spec fn spec_scheme_len(bytes: Seq<u8>) -> int {
    if bytes.len() >= 7 && spec_lower_byte(bytes[0]) == 0x72 && spec_lower_byte(bytes[1]) == 0x74
        && spec_lower_byte(bytes[2]) == 0x73 && spec_lower_byte(bytes[3]) == 0x70 {
        if bytes[4] == 0x3a && bytes[5] == 0x2f && bytes[6] == 0x2f {
            7
        } else if bytes.len() >= 8 && (spec_lower_byte(bytes[4]) == 0x73 || spec_lower_byte(
            bytes[4],
        ) == 0x75) && bytes[5] == 0x3a && bytes[6] == 0x2f && bytes[7] == 0x2f {
            8
        } else {
            0
        }
    } else {
        0
    }
}

/// Whether `bytes` is an absolute RTSP URI: an RTSP scheme and `://`, then a
/// host that is not empty, all of it visible ASCII characters.
pub open spec fn spec_is_absolute_uri(bytes: Seq<u8>) -> bool {
    let scheme = spec_scheme_len(bytes);
    &&& scheme > 0
    &&& bytes.len() > scheme
    &&& bytes[scheme] != 0x2f
    &&& forall|i: int| 0 <= i < bytes.len() ==> spec_is_visible(#[trigger] bytes[i])
}

/// Whether `bytes` is a request URI: `*` or an absolute RTSP URI.
pub open spec fn spec_is_request_uri(bytes: Seq<u8>) -> bool {
    bytes == seq![0x2au8] || spec_is_absolute_uri(bytes)
}

/// A possible error value when converting to a `RequestURIField` from bytes.
///
/// This error indicates that the bytes were neither `*` nor an absolute RTSP
/// URI.
#[derive(Clone, Copy, Debug, PartialEq, Eq, Hash)]
pub struct InvalidRequestURI;

impl InvalidRequestURI {
    /// A short description of the error.
    pub fn description(&self) -> (res: &'static str)
        ensures
            res@ == "invalid RTSP request URI"@,
    {
        "invalid RTSP request URI"
    }
}

/// An absolute RTSP URI, with scheme and host.
#[derive(Debug, Hash)]
pub struct AbsoluteURI {
    bytes: Vec<u8>,
}

impl View for AbsoluteURI {
    type V = Seq<u8>;

    closed spec fn view(&self) -> Seq<u8> {
        self.bytes@
    }
}

impl AbsoluteURI {
    /// Returns the bytes of the URI.
    pub fn as_bytes(&self) -> (res: &[u8])
        ensures
            res@ == self@,
    {
        self.bytes.as_slice()
    }
}

/// The target of a request.
#[derive(Debug, Hash)]
pub enum RequestURIField {
    /// The request is addressed to the server itself: `*` on the wire.
    Any,
    /// The request is addressed to the resource that the URI names.
    URI(AbsoluteURI),
}

impl View for RequestURIField {
    type V = Seq<u8>;

    /// The request URI as it is written on the wire.
    open spec fn view(&self) -> Seq<u8> {
        match self {
            RequestURIField::Any => seq![0x2au8],
            RequestURIField::URI(uri) => uri@,
        }
    }
}

impl RequestURIField {
    /// Well-formedness: a URI is an absolute RTSP URI. It holds of every
    /// request URI that `try_from` returns.
    pub open spec fn wf(&self) -> bool {
        self matches RequestURIField::URI(uri) ==> spec_is_absolute_uri(uri@)
    }

    /// Converts bytes to a request URI: `*` or an absolute RTSP URI.
    pub fn try_from(value: &[u8]) -> (res: Result<RequestURIField, InvalidRequestURI>)
        ensures
            res is Ok <==> spec_is_request_uri(value@),
            res matches Ok(uri) ==> uri.wf() && uri@ == value@,
            res matches Ok(uri) ==> (uri is Any <==> value@ == seq![0x2au8]),
    {
        if value.len() == 1 && value[0] == 0x2a {
            assert(value@ =~= seq![0x2au8]);
            return Ok(RequestURIField::Any);
        }
        assert(value@ != seq![0x2au8]) by {
            if value@ == seq![0x2au8] {
                assert(value@.len() == 1 && value@[0] == 0x2a);
            }
        }
        let scheme = scheme_len(value);
        if scheme == 0 || value.len() <= scheme || value[scheme] == 0x2f {
            return Err(InvalidRequestURI);
        }
        let mut i: usize = 0;
        while i < value.len()
            invariant
                i <= value.len(),
                forall|j: int| 0 <= j < i ==> spec_is_visible(#[trigger] value@[j]),
            decreases value.len() - i,
        {
            let byte = value[i];
            if !(0x21 <= byte && byte <= 0x7e) {
                return Err(InvalidRequestURI);
            }
            i += 1;
        }
        Ok(RequestURIField::URI(AbsoluteURI { bytes: bytes_to_vec(value) }))
    }

    /// Returns the request URI as it is written on the wire.
    pub fn as_bytes(&self) -> (res: &[u8])
        ensures
            res@ == self@,
    {
        match self {
            RequestURIField::Any => {
                let res: &[u8] = &[0x2au8];
                assert(res@ =~= seq![0x2au8]);
                res
            },
            RequestURIField::URI(uri) => uri.as_bytes(),
        }
    }
}

/// Computes the length of the RTSP scheme at the front of `bytes`, with its
/// `://`; 0 if there is none.
fn scheme_len(bytes: &[u8]) -> (res: usize)
    ensures
        res == spec_scheme_len(bytes@),
{
    if bytes.len() >= 7 && lower_byte(bytes[0]) == 0x72 && lower_byte(bytes[1]) == 0x74
        && lower_byte(bytes[2]) == 0x73 && lower_byte(bytes[3]) == 0x70 {
        if bytes[4] == 0x3a && bytes[5] == 0x2f && bytes[6] == 0x2f {
            7
        } else if bytes.len() >= 8 && (lower_byte(bytes[4]) == 0x73 || lower_byte(bytes[4]) == 0x75)
            && bytes[5] == 0x3a && bytes[6] == 0x2f && bytes[7] == 0x2f {
            8
        } else {
            0
        }
    } else {
        0
    }
}

impl Clone for RequestURIField {
    fn clone(&self) -> (res: RequestURIField)
        ensures
            res@ == self@,
            res is Any <==> self is Any,
            res.wf() == self.wf(),
    {
        match self {
            RequestURIField::Any => RequestURIField::Any,
            RequestURIField::URI(uri) => RequestURIField::URI(
                AbsoluteURI { bytes: bytes_to_vec(uri.as_bytes()) },
            ),
        }
    }
}

impl PartialEq for RequestURIField {
    /// Two request URIs are equal when their bytes are.
    fn eq(&self, other: &RequestURIField) -> (res: bool) {
        bytes_eq(self.as_bytes(), other.as_bytes())
    }
}

impl PartialEqSpecImpl for RequestURIField {
    open spec fn obeys_eq_spec() -> bool {
        true
    }

    open spec fn eq_spec(&self, other: &RequestURIField) -> bool {
        self@ == other@
    }
}

impl Eq for RequestURIField {

}

} // verus!
