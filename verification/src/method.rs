//! RTSP methods.
//!
//! A method is one of the methods of RFC 7826 or an extension method, which
//! is any other token. Methods are case sensitive.

use vstd::prelude::*;
use vstd::std_specs::cmp::PartialEqSpecImpl;
use vstd::string::StringSliceAdditionalSpecFns;

use crate::syntax::{
    bytes_eq, bytes_to_vec, is_token, lemma_ascii_literal, spec_is_token, spec_is_token_char,
};

verus! {

/// A possible error value when converting to a `Method` from bytes.
///
/// This error indicates that the method was not a token.
#[derive(Clone, Copy, Debug, PartialEq, Eq, Hash)]
pub struct InvalidMethod;

impl InvalidMethod {
    /// A short description of the error.
    pub fn description(&self) -> (res: &'static str)
        ensures
            res@ == "invalid RTSP method"@,
    {
        "invalid RTSP method"
    }
}

/// Whether `bytes` is the name of a standardized method.
pub open spec fn spec_is_standard_method(bytes: Seq<u8>) -> bool {
    exists|method: Method| method !is Extension && #[trigger] method@ == bytes
}

/// A wrapper type used to avoid users creating extension methods that are
/// actually standardized methods.
#[derive(Debug, Hash)]
pub struct ExtensionMethod {
    name: Vec<u8>,
}

impl View for ExtensionMethod {
    type V = Seq<u8>;

    closed spec fn view(&self) -> Seq<u8> {
        self.name@
    }
}

impl ExtensionMethod {
    /// An extension method is a token, and never a standardized method.
    pub open spec fn wf(&self) -> bool {
        spec_is_token(self@) && !spec_is_standard_method(self@)
    }

    /// Returns the name of the method.
    pub fn as_bytes(&self) -> (res: &[u8])
        ensures
            res@ == self@,
    {
        self.name.as_slice()
    }
}

/// An RTSP method.
#[derive(Debug, Hash)]
#[non_exhaustive]
pub enum Method {
    /// DESCRIBE
    /// [[RFC7826, Section 13.2](https://tools.ietf.org/html/rfc7826#section-13.2)]
    Describe,
    /// GET_PARAMETER
    /// [[RFC7826, Section 13.8](https://tools.ietf.org/html/rfc7826#section-13.8)]
    GetParameter,
    /// OPTIONS
    /// [[RFC7826, Section 13.1](https://tools.ietf.org/html/rfc7826#section-13.1)]
    Options,
    /// PAUSE
    /// [[RFC7826, Section 13.6](https://tools.ietf.org/html/rfc7826#section-13.6)]
    Pause,
    /// PLAY
    /// [[RFC7826, Section 13.4](https://tools.ietf.org/html/rfc7826#section-13.4)]
    Play,
    /// PLAY_NOTIFY
    /// [[RFC7826, Section 13.5](https://tools.ietf.org/html/rfc7826#section-13.5)]
    PlayNotify,
    /// REDIRECT
    /// [[RFC7826, Section 13.10](https://tools.ietf.org/html/rfc7826#section-13.10)]
    Redirect,
    /// SETUP
    /// [[RFC7826, Section 13.3](https://tools.ietf.org/html/rfc7826#section-13.3)]
    Setup,
    /// SET_PARAMETER
    /// [[RFC7826, Section 13.9](https://tools.ietf.org/html/rfc7826#section-13.9)]
    SetParameter,
    /// TEARDOWN
    /// [[RFC7826, Section 13.7](https://tools.ietf.org/html/rfc7826#section-13.7)]
    Teardown,
    /// A method that is not one of the standardized methods.
    Extension(ExtensionMethod),
}

impl View for Method {
    type V = Seq<u8>;

    /// The name of the method, as it is written on the wire.
    open spec fn view(&self) -> Seq<u8> {
        match self {
            Method::Describe => "DESCRIBE".spec_bytes(),
            Method::GetParameter => "GET_PARAMETER".spec_bytes(),
            Method::Options => "OPTIONS".spec_bytes(),
            Method::Pause => "PAUSE".spec_bytes(),
            Method::Play => "PLAY".spec_bytes(),
            Method::PlayNotify => "PLAY_NOTIFY".spec_bytes(),
            Method::Redirect => "REDIRECT".spec_bytes(),
            Method::Setup => "SETUP".spec_bytes(),
            Method::SetParameter => "SET_PARAMETER".spec_bytes(),
            Method::Teardown => "TEARDOWN".spec_bytes(),
            Method::Extension(extension) => extension@,
        }
    }
}

impl Method {
    /// Well-formedness: an extension method is a valid one. It holds of every
    /// method that `try_from` returns.
    pub open spec fn wf(&self) -> bool {
        self matches Method::Extension(extension) ==> extension.wf()
    }

    /// Returns the name of the method.
    pub fn as_bytes(&self) -> (res: &[u8])
        ensures
            res@ == self@,
    {
        match self {
            Method::Describe => "DESCRIBE".as_bytes(),
            Method::GetParameter => "GET_PARAMETER".as_bytes(),
            Method::Options => "OPTIONS".as_bytes(),
            Method::Pause => "PAUSE".as_bytes(),
            Method::Play => "PLAY".as_bytes(),
            Method::PlayNotify => "PLAY_NOTIFY".as_bytes(),
            Method::Redirect => "REDIRECT".as_bytes(),
            Method::Setup => "SETUP".as_bytes(),
            Method::SetParameter => "SET_PARAMETER".as_bytes(),
            Method::Teardown => "TEARDOWN".as_bytes(),
            Method::Extension(extension) => extension.as_bytes(),
        }
    }

    /// Finds the standardized method named `name`.
    fn standard(name: &[u8]) -> (res: Option<Method>)
        ensures
            res is Some <==> spec_is_standard_method(name@),
            res matches Some(method) ==> method !is Extension && method@ == name@,
    {
        let found = if bytes_eq(name, "DESCRIBE".as_bytes()) {
            Some(Method::Describe)
        } else if bytes_eq(name, "GET_PARAMETER".as_bytes()) {
            Some(Method::GetParameter)
        } else if bytes_eq(name, "OPTIONS".as_bytes()) {
            Some(Method::Options)
        } else if bytes_eq(name, "PAUSE".as_bytes()) {
            Some(Method::Pause)
        } else if bytes_eq(name, "PLAY".as_bytes()) {
            Some(Method::Play)
        } else if bytes_eq(name, "PLAY_NOTIFY".as_bytes()) {
            Some(Method::PlayNotify)
        } else if bytes_eq(name, "REDIRECT".as_bytes()) {
            Some(Method::Redirect)
        } else if bytes_eq(name, "SETUP".as_bytes()) {
            Some(Method::Setup)
        } else if bytes_eq(name, "SET_PARAMETER".as_bytes()) {
            Some(Method::SetParameter)
        } else if bytes_eq(name, "TEARDOWN".as_bytes()) {
            Some(Method::Teardown)
        } else {
            None
        };
        proof {
            if found is None {
                assert forall|method: Method| method !is Extension implies method@ != name@ by {}
            } else {
                let method = found->Some_0;
                assert(method !is Extension && method@ == name@);
            }
        }
        found
    }

    /// Converts bytes to a method. The bytes must be a token; a token that
    /// names no standardized method becomes an extension method.
    pub fn try_from(value: &[u8]) -> (res: Result<Method, InvalidMethod>)
        ensures
            res is Ok <==> spec_is_token(value@),
            res matches Ok(method) ==> method.wf() && method@ == value@,
    {
        match Method::standard(value) {
            Some(method) => {
                proof {
                    lemma_standard_method(method);
                }
                Ok(method)
            },
            None => {
                if is_token(value) {
                    Ok(Method::Extension(ExtensionMethod { name: bytes_to_vec(value) }))
                } else {
                    Err(InvalidMethod)
                }
            },
        }
    }
}

impl Clone for Method {
    fn clone(&self) -> (res: Method)
        ensures
            res@ == self@,
            res is Extension <==> self is Extension,
            res.wf() == self.wf(),
    {
        match self {
            Method::Describe => Method::Describe,
            Method::GetParameter => Method::GetParameter,
            Method::Options => Method::Options,
            Method::Pause => Method::Pause,
            Method::Play => Method::Play,
            Method::PlayNotify => Method::PlayNotify,
            Method::Redirect => Method::Redirect,
            Method::Setup => Method::Setup,
            Method::SetParameter => Method::SetParameter,
            Method::Teardown => Method::Teardown,
            Method::Extension(extension) => Method::Extension(
                ExtensionMethod { name: bytes_to_vec(extension.as_bytes()) },
            ),
        }
    }
}

impl PartialEq for Method {
    /// Two methods are equal when their names are.
    fn eq(&self, other: &Method) -> (res: bool) {
        bytes_eq(self.as_bytes(), other.as_bytes())
    }
}

impl PartialEqSpecImpl for Method {
    open spec fn obeys_eq_spec() -> bool {
        true
    }

    open spec fn eq_spec(&self, other: &Method) -> bool {
        self@ == other@
    }
}

impl Eq for Method {

}

/// The name of a standardized method is a token made of capital letters and
/// underscores.
pub proof fn lemma_standard_method(method: Method)
    requires
        method !is Extension,
    ensures
        spec_is_token(method@),
        method.wf(),
        forall|i: int|
            0 <= i < method@.len() ==> (0x41 <= #[trigger] method@[i] <= 0x5a) || method@[i]
                == 0x5f,
{
    match method {
        Method::Describe => {
            reveal_strlit("DESCRIBE");
            lemma_ascii_literal("DESCRIBE");
        },
        Method::GetParameter => {
            reveal_strlit("GET_PARAMETER");
            lemma_ascii_literal("GET_PARAMETER");
        },
        Method::Options => {
            reveal_strlit("OPTIONS");
            lemma_ascii_literal("OPTIONS");
        },
        Method::Pause => {
            reveal_strlit("PAUSE");
            lemma_ascii_literal("PAUSE");
        },
        Method::Play => {
            reveal_strlit("PLAY");
            lemma_ascii_literal("PLAY");
        },
        Method::PlayNotify => {
            reveal_strlit("PLAY_NOTIFY");
            lemma_ascii_literal("PLAY_NOTIFY");
        },
        Method::Redirect => {
            reveal_strlit("REDIRECT");
            lemma_ascii_literal("REDIRECT");
        },
        Method::Setup => {
            reveal_strlit("SETUP");
            lemma_ascii_literal("SETUP");
        },
        Method::SetParameter => {
            reveal_strlit("SET_PARAMETER");
            lemma_ascii_literal("SET_PARAMETER");
        },
        Method::Teardown => {
            reveal_strlit("TEARDOWN");
            lemma_ascii_literal("TEARDOWN");
        },
        Method::Extension(_) => {},
    }
    assert forall|i: int| 0 <= i < method@.len() implies spec_is_token_char(#[trigger] method@[i]) by {
        assert((0x41 <= method@[i] <= 0x5a) || method@[i] == 0x5f);
    }
}

/// Well-formed methods with the same name are of the same kind: both the
/// same standardized method, or both extension methods.
pub proof fn lemma_same_method(a: Method, b: Method)
    requires
        a.wf(),
        b.wf(),
        a@ == b@,
    ensures
        a is Extension <==> b is Extension,
        a !is Extension ==> a == b,
{
    if a !is Extension && b !is Extension {
        lemma_standard_method_prefix(a);
        lemma_standard_method_prefix(b);
    }
}

/// The length and a few bytes of each standardized name: enough to tell the
/// standardized methods apart.
proof fn lemma_standard_method_prefix(method: Method)
    requires
        method !is Extension,
    ensures
        match method {
            Method::Describe => method@.len() == 8 && method@[0] == 0x44 && method@[1] == 0x45 && method@[7] == 0x45,
            Method::GetParameter => method@.len() == 13 && method@[0] == 0x47 && method@[1] == 0x45 && method@[12] == 0x52,
            Method::Options => method@.len() == 7 && method@[0] == 0x4f && method@[1] == 0x50 && method@[6] == 0x53,
            Method::Pause => method@.len() == 5 && method@[0] == 0x50 && method@[1] == 0x41 && method@[4] == 0x45,
            Method::Play => method@.len() == 4 && method@[0] == 0x50 && method@[1] == 0x4c && method@[3] == 0x59,
            Method::PlayNotify => method@.len() == 11 && method@[0] == 0x50 && method@[1] == 0x4c && method@[10] == 0x59,
            Method::Redirect => method@.len() == 8 && method@[0] == 0x52 && method@[1] == 0x45 && method@[7] == 0x54,
            Method::Setup => method@.len() == 5 && method@[0] == 0x53 && method@[1] == 0x45 && method@[4] == 0x50,
            Method::SetParameter => method@.len() == 13 && method@[0] == 0x53 && method@[1] == 0x45 && method@[12] == 0x52,
            Method::Teardown => method@.len() == 8 && method@[0] == 0x54 && method@[1] == 0x45 && method@[7] == 0x4e,
            Method::Extension(_) => true,
        },
{
    match method {
        Method::Describe => {
            reveal_strlit("DESCRIBE");
            lemma_ascii_literal("DESCRIBE");
        },
        Method::GetParameter => {
            reveal_strlit("GET_PARAMETER");
            lemma_ascii_literal("GET_PARAMETER");
        },
        Method::Options => {
            reveal_strlit("OPTIONS");
            lemma_ascii_literal("OPTIONS");
        },
        Method::Pause => {
            reveal_strlit("PAUSE");
            lemma_ascii_literal("PAUSE");
        },
        Method::Play => {
            reveal_strlit("PLAY");
            lemma_ascii_literal("PLAY");
        },
        Method::PlayNotify => {
            reveal_strlit("PLAY_NOTIFY");
            lemma_ascii_literal("PLAY_NOTIFY");
        },
        Method::Redirect => {
            reveal_strlit("REDIRECT");
            lemma_ascii_literal("REDIRECT");
        },
        Method::Setup => {
            reveal_strlit("SETUP");
            lemma_ascii_literal("SETUP");
        },
        Method::SetParameter => {
            reveal_strlit("SET_PARAMETER");
            lemma_ascii_literal("SET_PARAMETER");
        },
        Method::Teardown => {
            reveal_strlit("TEARDOWN");
            lemma_ascii_literal("TEARDOWN");
        },
        Method::Extension(_) => {},
    }
}

} // verus!
