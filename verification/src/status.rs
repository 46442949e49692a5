//! Status codes of RTSP responses.
//!
//! A status code is a number from 100 to 599. The codes of RFC 7826 come with
//! a canonical reason phrase; any other code in that range is an extension
//! code, which has none.

use vstd::prelude::*;
use vstd::string::StringSliceAdditionalSpecFns;

use crate::reason::{spec_is_reason_phrase, ReasonPhrase};
use crate::syntax::lemma_ascii_literal;

verus! {

/// A possible error value when converting to a `StatusCode` from a number.
///
/// This error indicates that the number was not in the range from 100 to
/// 599.
#[derive(Clone, Copy, Debug, PartialEq, Eq, Hash)]
pub struct InvalidStatusCode;

impl InvalidStatusCode {
    /// A short description of the error.
    pub fn description(&self) -> (res: &'static str)
        ensures
            res@ == "invalid RTSP status code"@,
    {
        "invalid RTSP status code"
    }
}

/// Whether `code` is one of the standardized status codes.
pub open spec fn spec_is_standard_code(code: u16) -> bool {
    exists|status: StatusCode| status !is Extension && #[trigger] status@ == code
}

/// The canonical reason phrase of the standardized status code `code`.
pub open spec fn spec_canonical_reason_of(code: u16) -> Seq<u8> {
    (choose|status: StatusCode| status !is Extension && #[trigger] status@ == code).spec_canonical_reason()
}

/// A wrapper type used to avoid users creating extension status codes that
/// are actually standardized status codes.
#[derive(Clone, Copy, Debug, PartialEq, Eq, Structural, Hash)]
pub struct ExtensionStatusCode {
    code: u16,
}

impl View for ExtensionStatusCode {
    type V = u16;

    closed spec fn view(&self) -> u16 {
        self.code
    }
}

impl ExtensionStatusCode {
    /// An extension status code is in the range of status codes, and never a
    /// standardized one.
    pub open spec fn wf(&self) -> bool {
        100 <= self@ <= 599 && !spec_is_standard_code(self@)
    }

    /// The invariant of the type: every extension status code is well-formed.
    #[verifier::type_invariant]
    closed spec fn inv(self) -> bool {
        self.wf()
    }

    /// Returns the number of the status code.
    pub fn code(&self) -> (res: u16)
        ensures
            res == self@,
            self.wf(),
    {
        proof {
            use_type_invariant(self);
        }
        self.code
    }
}

/// An RTSP status code.
#[derive(Clone, Copy, Debug, PartialEq, Eq, Structural, Hash)]
#[non_exhaustive]
pub enum StatusCode {
    /// 100 Continue
    Continue,
    /// 200 OK
    OK,
    /// 301 Moved Permanently
    MovedPermanently,
    /// 302 Found
    Found,
    /// 303 See Other
    SeeOther,
    /// 304 Not Modified
    NotModified,
    /// 305 Use Proxy
    UseProxy,
    /// 400 Bad Request
    BadRequest,
    /// 401 Unauthorized
    Unauthorized,
    /// 402 Payment Required
    PaymentRequired,
    /// 403 Forbidden
    Forbidden,
    /// 404 Not Found
    NotFound,
    /// 405 Method Not Allowed
    MethodNotAllowed,
    /// 406 Not Acceptable
    NotAcceptable,
    /// 407 Proxy Authentication Required
    ProxyAuthenticationRequired,
    /// 408 Request Timeout
    RequestTimeout,
    /// 410 Gone
    Gone,
    /// 412 Precondition Failed
    PreconditionFailed,
    /// 413 Request Message Body Too Large
    RequestMessageBodyTooLarge,
    /// 414 Request-URI Too Long
    RequestURITooLong,
    /// 415 Unsupported Media Type
    UnsupportedMediaType,
    /// 451 Parameter Not Understood
    ParameterNotUnderstood,
    /// 453 Not Enough Bandwidth
    NotEnoughBandwidth,
    /// 454 Session Not Found
    SessionNotFound,
    /// 455 Method Not Valid in This State
    MethodNotValidInThisState,
    /// 456 Header Field Not Valid for Resource
    HeaderFieldNotValidForResource,
    /// 457 Invalid Range
    InvalidRange,
    /// 458 Parameter Is Read-Only
    ParameterIsReadOnly,
    /// 459 Aggregate Operation Not Allowed
    AggregateOperationNotAllowed,
    /// 460 Only Aggregate Operation Allowed
    OnlyAggregateOperationAllowed,
    /// 461 Unsupported Transport
    UnsupportedTransport,
    /// 462 Destination Unreachable
    DestinationUnreachable,
    /// 463 Destination Prohibited
    DestinationProhibited,
    /// 464 Data Transport Not Ready Yet
    DataTransportNotReadyYet,
    /// 465 Notification Reason Unknown
    NotificationReasonUnknown,
    /// 466 Key Management Error
    KeyManagementError,
    /// 470 Connection Authorization Required
    ConnectionAuthorizationRequired,
    /// 471 Connection Credentials Not Accepted
    ConnectionCredentialsNotAccepted,
    /// 472 Failure to Establish Secure Connection
    FailureToEstablishSecureConnection,
    /// 500 Internal Server Error
    InternalServerError,
    /// 501 Not Implemented
    NotImplemented,
    /// 502 Bad Gateway
    BadGateway,
    /// 503 Service Unavailable
    ServiceUnavailable,
    /// 504 Gateway Timeout
    GatewayTimeout,
    /// 505 RTSP Version Not Supported
    RTSPVersionNotSupported,
    /// 551 Option Not Supported
    OptionNotSupported,
    /// 553 Proxy Unavailable
    ProxyUnavailable,
    /// A status code that is not one of the standardized status codes.
    Extension(ExtensionStatusCode),
}

impl View for StatusCode {
    type V = u16;

    /// The number of the status code.
    open spec fn view(&self) -> u16 {
        match self {
            StatusCode::Continue => 100,
            StatusCode::OK => 200,
            StatusCode::MovedPermanently => 301,
            StatusCode::Found => 302,
            StatusCode::SeeOther => 303,
            StatusCode::NotModified => 304,
            StatusCode::UseProxy => 305,
            StatusCode::BadRequest => 400,
            StatusCode::Unauthorized => 401,
            StatusCode::PaymentRequired => 402,
            StatusCode::Forbidden => 403,
            StatusCode::NotFound => 404,
            StatusCode::MethodNotAllowed => 405,
            StatusCode::NotAcceptable => 406,
            StatusCode::ProxyAuthenticationRequired => 407,
            StatusCode::RequestTimeout => 408,
            StatusCode::Gone => 410,
            StatusCode::PreconditionFailed => 412,
            StatusCode::RequestMessageBodyTooLarge => 413,
            StatusCode::RequestURITooLong => 414,
            StatusCode::UnsupportedMediaType => 415,
            StatusCode::ParameterNotUnderstood => 451,
            StatusCode::NotEnoughBandwidth => 453,
            StatusCode::SessionNotFound => 454,
            StatusCode::MethodNotValidInThisState => 455,
            StatusCode::HeaderFieldNotValidForResource => 456,
            StatusCode::InvalidRange => 457,
            StatusCode::ParameterIsReadOnly => 458,
            StatusCode::AggregateOperationNotAllowed => 459,
            StatusCode::OnlyAggregateOperationAllowed => 460,
            StatusCode::UnsupportedTransport => 461,
            StatusCode::DestinationUnreachable => 462,
            StatusCode::DestinationProhibited => 463,
            StatusCode::DataTransportNotReadyYet => 464,
            StatusCode::NotificationReasonUnknown => 465,
            StatusCode::KeyManagementError => 466,
            StatusCode::ConnectionAuthorizationRequired => 470,
            StatusCode::ConnectionCredentialsNotAccepted => 471,
            StatusCode::FailureToEstablishSecureConnection => 472,
            StatusCode::InternalServerError => 500,
            StatusCode::NotImplemented => 501,
            StatusCode::BadGateway => 502,
            StatusCode::ServiceUnavailable => 503,
            StatusCode::GatewayTimeout => 504,
            StatusCode::RTSPVersionNotSupported => 505,
            StatusCode::OptionNotSupported => 551,
            StatusCode::ProxyUnavailable => 553,
            StatusCode::Extension(extension) => extension@,
        }
    }
}

impl StatusCode {
    /// Well-formedness: an extension status code is a valid one. It holds of
    /// every status code.
    pub open spec fn wf(&self) -> bool {
        self matches StatusCode::Extension(extension) ==> extension.wf()
    }

    /// The canonical reason phrase of a standardized status code; empty for an
    /// extension status code, which has none.
    pub open spec fn spec_canonical_reason(&self) -> Seq<u8> {
        match self {
            StatusCode::Continue => "Continue".spec_bytes(),
            StatusCode::OK => "OK".spec_bytes(),
            StatusCode::MovedPermanently => "Moved Permanently".spec_bytes(),
            StatusCode::Found => "Found".spec_bytes(),
            StatusCode::SeeOther => "See Other".spec_bytes(),
            StatusCode::NotModified => "Not Modified".spec_bytes(),
            StatusCode::UseProxy => "Use Proxy".spec_bytes(),
            StatusCode::BadRequest => "Bad Request".spec_bytes(),
            StatusCode::Unauthorized => "Unauthorized".spec_bytes(),
            StatusCode::PaymentRequired => "Payment Required".spec_bytes(),
            StatusCode::Forbidden => "Forbidden".spec_bytes(),
            StatusCode::NotFound => "Not Found".spec_bytes(),
            StatusCode::MethodNotAllowed => "Method Not Allowed".spec_bytes(),
            StatusCode::NotAcceptable => "Not Acceptable".spec_bytes(),
            StatusCode::ProxyAuthenticationRequired => "Proxy Authentication Required".spec_bytes(),
            StatusCode::RequestTimeout => "Request Timeout".spec_bytes(),
            StatusCode::Gone => "Gone".spec_bytes(),
            StatusCode::PreconditionFailed => "Precondition Failed".spec_bytes(),
            StatusCode::RequestMessageBodyTooLarge => "Request Message Body Too Large".spec_bytes(),
            StatusCode::RequestURITooLong => "Request-URI Too Long".spec_bytes(),
            StatusCode::UnsupportedMediaType => "Unsupported Media Type".spec_bytes(),
            StatusCode::ParameterNotUnderstood => "Parameter Not Understood".spec_bytes(),
            StatusCode::NotEnoughBandwidth => "Not Enough Bandwidth".spec_bytes(),
            StatusCode::SessionNotFound => "Session Not Found".spec_bytes(),
            StatusCode::MethodNotValidInThisState => "Method Not Valid in This State".spec_bytes(),
            StatusCode::HeaderFieldNotValidForResource => "Header Field Not Valid for Resource".spec_bytes(),
            StatusCode::InvalidRange => "Invalid Range".spec_bytes(),
            StatusCode::ParameterIsReadOnly => "Parameter Is Read-Only".spec_bytes(),
            StatusCode::AggregateOperationNotAllowed => "Aggregate Operation Not Allowed".spec_bytes(),
            StatusCode::OnlyAggregateOperationAllowed => "Only Aggregate Operation Allowed".spec_bytes(),
            StatusCode::UnsupportedTransport => "Unsupported Transport".spec_bytes(),
            StatusCode::DestinationUnreachable => "Destination Unreachable".spec_bytes(),
            StatusCode::DestinationProhibited => "Destination Prohibited".spec_bytes(),
            StatusCode::DataTransportNotReadyYet => "Data Transport Not Ready Yet".spec_bytes(),
            StatusCode::NotificationReasonUnknown => "Notification Reason Unknown".spec_bytes(),
            StatusCode::KeyManagementError => "Key Management Error".spec_bytes(),
            StatusCode::ConnectionAuthorizationRequired => "Connection Authorization Required".spec_bytes(),
            StatusCode::ConnectionCredentialsNotAccepted => "Connection Credentials Not Accepted".spec_bytes(),
            StatusCode::FailureToEstablishSecureConnection => "Failure to Establish Secure Connection".spec_bytes(),
            StatusCode::InternalServerError => "Internal Server Error".spec_bytes(),
            StatusCode::NotImplemented => "Not Implemented".spec_bytes(),
            StatusCode::BadGateway => "Bad Gateway".spec_bytes(),
            StatusCode::ServiceUnavailable => "Service Unavailable".spec_bytes(),
            StatusCode::GatewayTimeout => "Gateway Timeout".spec_bytes(),
            StatusCode::RTSPVersionNotSupported => "RTSP Version Not Supported".spec_bytes(),
            StatusCode::OptionNotSupported => "Option Not Supported".spec_bytes(),
            StatusCode::ProxyUnavailable => "Proxy Unavailable".spec_bytes(),
            StatusCode::Extension(_) => Seq::empty(),
        }
    }

    /// Returns the number of the status code.
    pub fn code(&self) -> (res: u16)
        ensures
            res == self@,
            self.wf(),
            100 <= res <= 599,
    {
        proof {
            if *self !is Extension {
                lemma_canonical_reason(*self);
            }
        }
        match self {
            StatusCode::Continue => 100,
            StatusCode::OK => 200,
            StatusCode::MovedPermanently => 301,
            StatusCode::Found => 302,
            StatusCode::SeeOther => 303,
            StatusCode::NotModified => 304,
            StatusCode::UseProxy => 305,
            StatusCode::BadRequest => 400,
            StatusCode::Unauthorized => 401,
            StatusCode::PaymentRequired => 402,
            StatusCode::Forbidden => 403,
            StatusCode::NotFound => 404,
            StatusCode::MethodNotAllowed => 405,
            StatusCode::NotAcceptable => 406,
            StatusCode::ProxyAuthenticationRequired => 407,
            StatusCode::RequestTimeout => 408,
            StatusCode::Gone => 410,
            StatusCode::PreconditionFailed => 412,
            StatusCode::RequestMessageBodyTooLarge => 413,
            StatusCode::RequestURITooLong => 414,
            StatusCode::UnsupportedMediaType => 415,
            StatusCode::ParameterNotUnderstood => 451,
            StatusCode::NotEnoughBandwidth => 453,
            StatusCode::SessionNotFound => 454,
            StatusCode::MethodNotValidInThisState => 455,
            StatusCode::HeaderFieldNotValidForResource => 456,
            StatusCode::InvalidRange => 457,
            StatusCode::ParameterIsReadOnly => 458,
            StatusCode::AggregateOperationNotAllowed => 459,
            StatusCode::OnlyAggregateOperationAllowed => 460,
            StatusCode::UnsupportedTransport => 461,
            StatusCode::DestinationUnreachable => 462,
            StatusCode::DestinationProhibited => 463,
            StatusCode::DataTransportNotReadyYet => 464,
            StatusCode::NotificationReasonUnknown => 465,
            StatusCode::KeyManagementError => 466,
            StatusCode::ConnectionAuthorizationRequired => 470,
            StatusCode::ConnectionCredentialsNotAccepted => 471,
            StatusCode::FailureToEstablishSecureConnection => 472,
            StatusCode::InternalServerError => 500,
            StatusCode::NotImplemented => 501,
            StatusCode::BadGateway => 502,
            StatusCode::ServiceUnavailable => 503,
            StatusCode::GatewayTimeout => 504,
            StatusCode::RTSPVersionNotSupported => 505,
            StatusCode::OptionNotSupported => 551,
            StatusCode::ProxyUnavailable => 553,
            StatusCode::Extension(extension) => extension.code(),
        }
    }

    /// Finds the standardized status code with the number `code`.
    fn standard(code: u16) -> (res: Option<StatusCode>)
        ensures
            res is Some <==> spec_is_standard_code(code),
            res matches Some(status) ==> status !is Extension && status@ == code,
    {
        let found = match code {
            100 => Some(StatusCode::Continue),
            200 => Some(StatusCode::OK),
            301 => Some(StatusCode::MovedPermanently),
            302 => Some(StatusCode::Found),
            303 => Some(StatusCode::SeeOther),
            304 => Some(StatusCode::NotModified),
            305 => Some(StatusCode::UseProxy),
            400 => Some(StatusCode::BadRequest),
            401 => Some(StatusCode::Unauthorized),
            402 => Some(StatusCode::PaymentRequired),
            403 => Some(StatusCode::Forbidden),
            404 => Some(StatusCode::NotFound),
            405 => Some(StatusCode::MethodNotAllowed),
            406 => Some(StatusCode::NotAcceptable),
            407 => Some(StatusCode::ProxyAuthenticationRequired),
            408 => Some(StatusCode::RequestTimeout),
            410 => Some(StatusCode::Gone),
            412 => Some(StatusCode::PreconditionFailed),
            413 => Some(StatusCode::RequestMessageBodyTooLarge),
            414 => Some(StatusCode::RequestURITooLong),
            415 => Some(StatusCode::UnsupportedMediaType),
            451 => Some(StatusCode::ParameterNotUnderstood),
            453 => Some(StatusCode::NotEnoughBandwidth),
            454 => Some(StatusCode::SessionNotFound),
            455 => Some(StatusCode::MethodNotValidInThisState),
            456 => Some(StatusCode::HeaderFieldNotValidForResource),
            457 => Some(StatusCode::InvalidRange),
            458 => Some(StatusCode::ParameterIsReadOnly),
            459 => Some(StatusCode::AggregateOperationNotAllowed),
            460 => Some(StatusCode::OnlyAggregateOperationAllowed),
            461 => Some(StatusCode::UnsupportedTransport),
            462 => Some(StatusCode::DestinationUnreachable),
            463 => Some(StatusCode::DestinationProhibited),
            464 => Some(StatusCode::DataTransportNotReadyYet),
            465 => Some(StatusCode::NotificationReasonUnknown),
            466 => Some(StatusCode::KeyManagementError),
            470 => Some(StatusCode::ConnectionAuthorizationRequired),
            471 => Some(StatusCode::ConnectionCredentialsNotAccepted),
            472 => Some(StatusCode::FailureToEstablishSecureConnection),
            500 => Some(StatusCode::InternalServerError),
            501 => Some(StatusCode::NotImplemented),
            502 => Some(StatusCode::BadGateway),
            503 => Some(StatusCode::ServiceUnavailable),
            504 => Some(StatusCode::GatewayTimeout),
            505 => Some(StatusCode::RTSPVersionNotSupported),
            551 => Some(StatusCode::OptionNotSupported),
            553 => Some(StatusCode::ProxyUnavailable),
            _ => None,
        };
        proof {
            if found is None {
                assert forall|status: StatusCode| status !is Extension implies status@ != code by {}
            } else {
                let status = found->Some_0;
                assert(status !is Extension && status@ == code);
            }
        }
        found
    }

    /// Converts a number to a status code. The number must be in the range
    /// from 100 to 599; one that is no standardized status code becomes an
    /// extension status code.
    pub fn try_from(code: u16) -> (res: Result<StatusCode, InvalidStatusCode>)
        ensures
            res is Ok <==> 100 <= code <= 599,
            res matches Ok(status) ==> status.wf() && status@ == code,
    {
        if code < 100 || code > 599 {
            return Err(InvalidStatusCode);
        }
        match StatusCode::standard(code) {
            Some(status) => Ok(status),
            None => Ok(StatusCode::Extension(ExtensionStatusCode { code })),
        }
    }

    /// Returns the canonical reason phrase of the status code as a string;
    /// none for an extension status code.
    pub fn canonical_reason_str(&self) -> (res: Option<&'static str>)
        ensures
            res is Some <==> self !is Extension,
            res matches Some(reason) ==> reason.spec_bytes() == self.spec_canonical_reason(),
    {
        match self {
            StatusCode::Continue => Some("Continue"),
            StatusCode::OK => Some("OK"),
            StatusCode::MovedPermanently => Some("Moved Permanently"),
            StatusCode::Found => Some("Found"),
            StatusCode::SeeOther => Some("See Other"),
            StatusCode::NotModified => Some("Not Modified"),
            StatusCode::UseProxy => Some("Use Proxy"),
            StatusCode::BadRequest => Some("Bad Request"),
            StatusCode::Unauthorized => Some("Unauthorized"),
            StatusCode::PaymentRequired => Some("Payment Required"),
            StatusCode::Forbidden => Some("Forbidden"),
            StatusCode::NotFound => Some("Not Found"),
            StatusCode::MethodNotAllowed => Some("Method Not Allowed"),
            StatusCode::NotAcceptable => Some("Not Acceptable"),
            StatusCode::ProxyAuthenticationRequired => Some("Proxy Authentication Required"),
            StatusCode::RequestTimeout => Some("Request Timeout"),
            StatusCode::Gone => Some("Gone"),
            StatusCode::PreconditionFailed => Some("Precondition Failed"),
            StatusCode::RequestMessageBodyTooLarge => Some("Request Message Body Too Large"),
            StatusCode::RequestURITooLong => Some("Request-URI Too Long"),
            StatusCode::UnsupportedMediaType => Some("Unsupported Media Type"),
            StatusCode::ParameterNotUnderstood => Some("Parameter Not Understood"),
            StatusCode::NotEnoughBandwidth => Some("Not Enough Bandwidth"),
            StatusCode::SessionNotFound => Some("Session Not Found"),
            StatusCode::MethodNotValidInThisState => Some("Method Not Valid in This State"),
            StatusCode::HeaderFieldNotValidForResource => Some("Header Field Not Valid for Resource"),
            StatusCode::InvalidRange => Some("Invalid Range"),
            StatusCode::ParameterIsReadOnly => Some("Parameter Is Read-Only"),
            StatusCode::AggregateOperationNotAllowed => Some("Aggregate Operation Not Allowed"),
            StatusCode::OnlyAggregateOperationAllowed => Some("Only Aggregate Operation Allowed"),
            StatusCode::UnsupportedTransport => Some("Unsupported Transport"),
            StatusCode::DestinationUnreachable => Some("Destination Unreachable"),
            StatusCode::DestinationProhibited => Some("Destination Prohibited"),
            StatusCode::DataTransportNotReadyYet => Some("Data Transport Not Ready Yet"),
            StatusCode::NotificationReasonUnknown => Some("Notification Reason Unknown"),
            StatusCode::KeyManagementError => Some("Key Management Error"),
            StatusCode::ConnectionAuthorizationRequired => Some("Connection Authorization Required"),
            StatusCode::ConnectionCredentialsNotAccepted => Some("Connection Credentials Not Accepted"),
            StatusCode::FailureToEstablishSecureConnection => Some("Failure to Establish Secure Connection"),
            StatusCode::InternalServerError => Some("Internal Server Error"),
            StatusCode::NotImplemented => Some("Not Implemented"),
            StatusCode::BadGateway => Some("Bad Gateway"),
            StatusCode::ServiceUnavailable => Some("Service Unavailable"),
            StatusCode::GatewayTimeout => Some("Gateway Timeout"),
            StatusCode::RTSPVersionNotSupported => Some("RTSP Version Not Supported"),
            StatusCode::OptionNotSupported => Some("Option Not Supported"),
            StatusCode::ProxyUnavailable => Some("Proxy Unavailable"),
            StatusCode::Extension(_) => None,
        }
    }

    /// Returns the canonical reason phrase of the status code; none for an
    /// extension status code.
    pub fn canonical_reason(&self) -> (res: Option<ReasonPhrase>)
        ensures
            self.wf(),
            res is Some <==> spec_is_standard_code(self@),
            res matches Some(reason) ==> reason@ == spec_canonical_reason_of(self@) && reason.wf(),
    {
        let code = self.code();
        proof {
            if *self !is Extension {
                lemma_canonical_reason(*self);
            }
        }
        match self.canonical_reason_str() {
            Some(text) => {
                proof {
                    lemma_canonical_reason(*self);
                }
                match ReasonPhrase::try_from(text.as_bytes()) {
                    Ok(reason) => Some(reason),
                    Err(_) => None,
                }
            },
            None => None,
        }
    }
}

impl Default for StatusCode {
    /// The default status code is 200.
    fn default() -> (res: StatusCode)
        ensures
            res == StatusCode::OK,
    {
        StatusCode::OK
    }
}

/// The canonical reason phrase of a standardized status code is a reason
/// phrase, and the code is in the range of status codes.
pub proof fn lemma_canonical_reason(status: StatusCode)
    requires
        status !is Extension,
    ensures
        spec_is_reason_phrase(status.spec_canonical_reason()),
        100 <= status@ <= 599,
        status.wf(),
        spec_is_standard_code(status@),
        spec_canonical_reason_of(status@) == status.spec_canonical_reason(),
{
    let other = choose|other: StatusCode| other !is Extension && #[trigger] other@ == status@;
    assert(other == status);
    match status {
        StatusCode::Continue => {
            reveal_strlit("Continue");
            lemma_ascii_literal("Continue");
        },
        StatusCode::OK => {
            reveal_strlit("OK");
            lemma_ascii_literal("OK");
        },
        StatusCode::MovedPermanently => {
            reveal_strlit("Moved Permanently");
            lemma_ascii_literal("Moved Permanently");
        },
        StatusCode::Found => {
            reveal_strlit("Found");
            lemma_ascii_literal("Found");
        },
        StatusCode::SeeOther => {
            reveal_strlit("See Other");
            lemma_ascii_literal("See Other");
        },
        StatusCode::NotModified => {
            reveal_strlit("Not Modified");
            lemma_ascii_literal("Not Modified");
        },
        StatusCode::UseProxy => {
            reveal_strlit("Use Proxy");
            lemma_ascii_literal("Use Proxy");
        },
        StatusCode::BadRequest => {
            reveal_strlit("Bad Request");
            lemma_ascii_literal("Bad Request");
        },
        StatusCode::Unauthorized => {
            reveal_strlit("Unauthorized");
            lemma_ascii_literal("Unauthorized");
        },
        StatusCode::PaymentRequired => {
            reveal_strlit("Payment Required");
            lemma_ascii_literal("Payment Required");
        },
        StatusCode::Forbidden => {
            reveal_strlit("Forbidden");
            lemma_ascii_literal("Forbidden");
        },
        StatusCode::NotFound => {
            reveal_strlit("Not Found");
            lemma_ascii_literal("Not Found");
        },
        StatusCode::MethodNotAllowed => {
            reveal_strlit("Method Not Allowed");
            lemma_ascii_literal("Method Not Allowed");
        },
        StatusCode::NotAcceptable => {
            reveal_strlit("Not Acceptable");
            lemma_ascii_literal("Not Acceptable");
        },
        StatusCode::ProxyAuthenticationRequired => {
            reveal_strlit("Proxy Authentication Required");
            lemma_ascii_literal("Proxy Authentication Required");
        },
        StatusCode::RequestTimeout => {
            reveal_strlit("Request Timeout");
            lemma_ascii_literal("Request Timeout");
        },
        StatusCode::Gone => {
            reveal_strlit("Gone");
            lemma_ascii_literal("Gone");
        },
        StatusCode::PreconditionFailed => {
            reveal_strlit("Precondition Failed");
            lemma_ascii_literal("Precondition Failed");
        },
        StatusCode::RequestMessageBodyTooLarge => {
            reveal_strlit("Request Message Body Too Large");
            lemma_ascii_literal("Request Message Body Too Large");
        },
        StatusCode::RequestURITooLong => {
            reveal_strlit("Request-URI Too Long");
            lemma_ascii_literal("Request-URI Too Long");
        },
        StatusCode::UnsupportedMediaType => {
            reveal_strlit("Unsupported Media Type");
            lemma_ascii_literal("Unsupported Media Type");
        },
        StatusCode::ParameterNotUnderstood => {
            reveal_strlit("Parameter Not Understood");
            lemma_ascii_literal("Parameter Not Understood");
        },
        StatusCode::NotEnoughBandwidth => {
            reveal_strlit("Not Enough Bandwidth");
            lemma_ascii_literal("Not Enough Bandwidth");
        },
        StatusCode::SessionNotFound => {
            reveal_strlit("Session Not Found");
            lemma_ascii_literal("Session Not Found");
        },
        StatusCode::MethodNotValidInThisState => {
            reveal_strlit("Method Not Valid in This State");
            lemma_ascii_literal("Method Not Valid in This State");
        },
        StatusCode::HeaderFieldNotValidForResource => {
            reveal_strlit("Header Field Not Valid for Resource");
            lemma_ascii_literal("Header Field Not Valid for Resource");
        },
        StatusCode::InvalidRange => {
            reveal_strlit("Invalid Range");
            lemma_ascii_literal("Invalid Range");
        },
        StatusCode::ParameterIsReadOnly => {
            reveal_strlit("Parameter Is Read-Only");
            lemma_ascii_literal("Parameter Is Read-Only");
        },
        StatusCode::AggregateOperationNotAllowed => {
            reveal_strlit("Aggregate Operation Not Allowed");
            lemma_ascii_literal("Aggregate Operation Not Allowed");
        },
        StatusCode::OnlyAggregateOperationAllowed => {
            reveal_strlit("Only Aggregate Operation Allowed");
            lemma_ascii_literal("Only Aggregate Operation Allowed");
        },
        StatusCode::UnsupportedTransport => {
            reveal_strlit("Unsupported Transport");
            lemma_ascii_literal("Unsupported Transport");
        },
        StatusCode::DestinationUnreachable => {
            reveal_strlit("Destination Unreachable");
            lemma_ascii_literal("Destination Unreachable");
        },
        StatusCode::DestinationProhibited => {
            reveal_strlit("Destination Prohibited");
            lemma_ascii_literal("Destination Prohibited");
        },
        StatusCode::DataTransportNotReadyYet => {
            reveal_strlit("Data Transport Not Ready Yet");
            lemma_ascii_literal("Data Transport Not Ready Yet");
        },
        StatusCode::NotificationReasonUnknown => {
            reveal_strlit("Notification Reason Unknown");
            lemma_ascii_literal("Notification Reason Unknown");
        },
        StatusCode::KeyManagementError => {
            reveal_strlit("Key Management Error");
            lemma_ascii_literal("Key Management Error");
        },
        StatusCode::ConnectionAuthorizationRequired => {
            reveal_strlit("Connection Authorization Required");
            lemma_ascii_literal("Connection Authorization Required");
        },
        StatusCode::ConnectionCredentialsNotAccepted => {
            reveal_strlit("Connection Credentials Not Accepted");
            lemma_ascii_literal("Connection Credentials Not Accepted");
        },
        StatusCode::FailureToEstablishSecureConnection => {
            reveal_strlit("Failure to Establish Secure Connection");
            lemma_ascii_literal("Failure to Establish Secure Connection");
        },
        StatusCode::InternalServerError => {
            reveal_strlit("Internal Server Error");
            lemma_ascii_literal("Internal Server Error");
        },
        StatusCode::NotImplemented => {
            reveal_strlit("Not Implemented");
            lemma_ascii_literal("Not Implemented");
        },
        StatusCode::BadGateway => {
            reveal_strlit("Bad Gateway");
            lemma_ascii_literal("Bad Gateway");
        },
        StatusCode::ServiceUnavailable => {
            reveal_strlit("Service Unavailable");
            lemma_ascii_literal("Service Unavailable");
        },
        StatusCode::GatewayTimeout => {
            reveal_strlit("Gateway Timeout");
            lemma_ascii_literal("Gateway Timeout");
        },
        StatusCode::RTSPVersionNotSupported => {
            reveal_strlit("RTSP Version Not Supported");
            lemma_ascii_literal("RTSP Version Not Supported");
        },
        StatusCode::OptionNotSupported => {
            reveal_strlit("Option Not Supported");
            lemma_ascii_literal("Option Not Supported");
        },
        StatusCode::ProxyUnavailable => {
            reveal_strlit("Proxy Unavailable");
            lemma_ascii_literal("Proxy Unavailable");
        },
        StatusCode::Extension(_) => {},
    }
}

/// Well-formed status codes with the same number are the same.
pub proof fn lemma_same_code(a: StatusCode, b: StatusCode)
    requires
        a.wf(),
        b.wf(),
        a@ == b@,
    ensures
        a is Extension <==> b is Extension,
        a !is Extension ==> a == b,
{
}

} // verus!
