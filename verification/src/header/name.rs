//! RTSP header names.
//!
//! A header name is one of the standardized names of RFC 7826 or an
//! extension name. Every name has a canonical spelling, which is written on
//! the wire, and a lowercase spelling, by which names are compared and
//! hashed.

use ascii::AsciiString;
use std::hash::{Hash, Hasher};
use vstd::prelude::*;
use vstd::std_specs::cmp::PartialEqSpecImpl;
use vstd::string::StringSliceAdditionalSpecFns;

use super::MAX_HEADER_NAME_LENGTH;
use crate::syntax::{
    bytes_eq, is_token, lemma_ascii_literal, spec_is_token, spec_is_token_char,
    spec_lower_byte, spec_to_ascii_lowercase, spec_to_ascii_uppercase, spec_upper_byte,
    to_ascii_lowercase,
};

verus! {

/// Declares the type `AsciiString` of the `ascii` crate. Nothing is known of
/// a value of it but the bytes that it holds, by the name `ascii_bytes`.
#[verifier::external_type_specification]
#[verifier::external_body]
pub struct ExAsciiString(AsciiString);

/// The bytes that an ASCII string holds, in order.
pub uninterp spec fn ascii_bytes(string: AsciiString) -> Seq<u8>;

/// Whether every byte of `bytes` is below 128.
pub open spec fn spec_is_ascii(bytes: Seq<u8>) -> bool {
    forall|i: int| 0 <= i < bytes.len() ==> #[trigger] bytes[i] < 128
}

/// Calls `AsciiString::from_ascii`. Trusted: the conversion succeeds exactly
/// when every byte is below 128, and the string then holds the given bytes.
#[verifier::external_body]
fn ascii_string_from(bytes: &[u8]) -> (res: Option<AsciiString>)
    ensures
        res is Some <==> spec_is_ascii(bytes@),
        res matches Some(string) ==> ascii_bytes(string) == bytes@,
{
    match AsciiString::from_ascii(bytes) {
        Ok(string) => Some(string),
        Err(_) => None,
    }
}

/// Calls `AsciiStr::as_str` on the string. Trusted: the returned string slice
/// is made of exactly the bytes that the ASCII string holds.
#[verifier::external_body]
fn ascii_string_as_str(string: &AsciiString) -> (res: &str)
    ensures
        res.spec_bytes() == ascii_bytes(*string),
{
    string.as_str()
}

/// Specifies `AsciiString::clone`. Trusted: a clone of an ASCII string holds
/// the same bytes.
pub assume_specification[ <AsciiString as Clone>::clone ](string: &AsciiString) -> (res:
    AsciiString)
    ensures
        ascii_bytes(res) == ascii_bytes(*string),
;

/// Calls `Hasher::write`, feeding `bytes` to the hasher. Trusted, with
/// nothing claimed of the hasher's state.
#[verifier::external_body]
fn hash_bytes<H: Hasher>(bytes: &[u8], state: &mut H) {
    state.write(bytes);
}

/// A possible error value when converting to a `HeaderName` from bytes.
///
/// This error indicates that the header name was empty, too long or
/// contained bytes that are not token characters.
#[derive(Clone, Copy, Debug, PartialEq, Eq, Hash)]
pub struct InvalidHeaderName;

impl InvalidHeaderName {
    /// A short description of the error.
    pub fn description(&self) -> (res: &'static str)
        ensures
            res@ == "invalid RTSP header name"@,
    {
        "invalid RTSP header name"
    }
}

/// The two spellings of a header name.
pub struct HeaderNameView {
    /// The spelling that is written on the wire.
    pub canonical: Seq<u8>,
    /// The spelling by which names are compared: all lowercase.
    pub lower: Seq<u8>,
}

impl HeaderNameView {
    /// Whether these are the spellings of a header name: the canonical
    /// spelling is a valid name, the lowercase spelling is its lowercase form,
    /// and a standardized name is spelled as the standard spells it.
    pub open spec fn wf(self) -> bool {
        &&& spec_is_valid_name(self.canonical)
        &&& self.lower == spec_to_ascii_lowercase(self.canonical)
        &&& forall|name: HeaderName|
            name !is Extension && #[trigger] name.lower() == self.lower ==> name.canonical()
                == self.canonical
    }
}

/// The spellings of the header name that the valid name `bytes` is made
/// into: those of the standardized name with that lowercase spelling if there
/// is one, else `bytes` and its lowercase form.
pub open spec fn spec_name_view(bytes: Seq<u8>) -> HeaderNameView {
    let lower = spec_to_ascii_lowercase(bytes);
    if spec_is_standard(lower) {
        (choose|name: HeaderName| name !is Extension && #[trigger] name.lower() == lower)@
    } else {
        HeaderNameView { canonical: bytes, lower }
    }
}

/// Whether `byte` is a small letter or a hyphen: the bytes that the lowercase
/// spellings of the standardized names are made of.
pub open spec fn spec_is_standard_byte(byte: u8) -> bool {
    (0x61 <= byte <= 0x7a) || byte == 0x2d
}

/// Whether `lower` is the lowercase spelling of a standardized header name.
pub open spec fn spec_is_standard(lower: Seq<u8>) -> bool {
    exists|name: HeaderName| name !is Extension && #[trigger] name.lower() == lower
}

/// Whether `bytes` can be made into a header name: a token of at most
/// `MAX_HEADER_NAME_LENGTH` bytes.
pub open spec fn spec_is_valid_name(bytes: Seq<u8>) -> bool {
    bytes.len() <= MAX_HEADER_NAME_LENGTH && spec_is_token(bytes)
}

/// A wrapper type used to avoid users creating extension header names that
/// are actually standardized header names.
#[derive(Debug)]
pub struct ExtensionHeaderName {
    canonical: AsciiString,
    lower: AsciiString,
}

impl ExtensionHeaderName {
    /// The spelling of the name as it was given.
    pub closed spec fn canonical(&self) -> Seq<u8> {
        ascii_bytes(self.canonical)
    }

    /// The lowercase spelling of the name.
    pub closed spec fn lower(&self) -> Seq<u8> {
        ascii_bytes(self.lower)
    }

    /// An extension name is a token of bounded length, carries its own
    /// lowercase spelling, and is never a standardized name.
    pub open spec fn wf(&self) -> bool {
        &&& spec_is_valid_name(self.canonical())
        &&& self.lower() == spec_to_ascii_lowercase(self.canonical())
        &&& !spec_is_standard(self.lower())
    }

    /// Returns the extension header name in lowercase, even if it was created
    /// from a spelling with capital letters.
    pub fn as_str(&self) -> (res: &str)
        ensures
            res.spec_bytes() == self.lower(),
    {
        ascii_string_as_str(&self.lower)
    }

    /// Returns the extension header name in the case it was created with.
    pub fn canonical_name(&self) -> (res: &str)
        ensures
            res.spec_bytes() == self.canonical(),
    {
        ascii_string_as_str(&self.canonical)
    }
}

impl Clone for ExtensionHeaderName {
    fn clone(&self) -> (res: ExtensionHeaderName)
        ensures
            res.canonical() == self.canonical(),
            res.lower() == self.lower(),
    {
        ExtensionHeaderName { canonical: self.canonical.clone(), lower: self.lower.clone() }
    }
}

/// An RTSP header name.
///
/// All standardized header names are supported, along with extension names
/// made of token characters.
#[derive(Debug)]
#[non_exhaustive]
pub enum HeaderName {
    /// Accept
    /// [[RFC7826, Section 18.1](https://tools.ietf.org/html/rfc7826#section-18.1)]
    Accept,
    /// Accept-Credentials
    /// [[RFC7826, Section 18.2](https://tools.ietf.org/html/rfc7826#section-18.2)]
    AcceptCredentials,
    /// Accept-Encoding
    /// [[RFC7826, Section 18.3](https://tools.ietf.org/html/rfc7826#section-18.3)]
    AcceptEncoding,
    /// Accept-Language
    /// [[RFC7826, Section 18.4](https://tools.ietf.org/html/rfc7826#section-18.4)]
    AcceptLanguage,
    /// Accept-Ranges
    /// [[RFC7826, Section 18.5](https://tools.ietf.org/html/rfc7826#section-18.5)]
    AcceptRanges,
    /// Allow
    /// [[RFC7826, Section 18.6](https://tools.ietf.org/html/rfc7826#section-18.6)]
    Allow,
    /// Authentication-Info
    /// [[RFC7826, Section 18.7](https://tools.ietf.org/html/rfc7826#section-18.7)]
    AuthenticationInfo,
    /// Authorization
    /// [[RFC7826, Section 18.8](https://tools.ietf.org/html/rfc7826#section-18.8)]
    Authorization,
    /// Bandwidth
    /// [[RFC7826, Section 18.9](https://tools.ietf.org/html/rfc7826#section-18.9)]
    Bandwidth,
    /// Blocksize
    /// [[RFC7826, Section 18.10](https://tools.ietf.org/html/rfc7826#section-18.10)]
    Blocksize,
    /// Cache-Control
    /// [[RFC7826, Section 18.11](https://tools.ietf.org/html/rfc7826#section-18.11)]
    CacheControl,
    /// Connection
    /// [[RFC7826, Section 18.12](https://tools.ietf.org/html/rfc7826#section-18.12)]
    Connection,
    /// Connection-Credentials
    /// [[RFC7826, Section 18.13](https://tools.ietf.org/html/rfc7826#section-18.13)]
    ConnectionCredentials,
    /// Content-Base
    /// [[RFC7826, Section 18.14](https://tools.ietf.org/html/rfc7826#section-18.14)]
    ContentBase,
    /// Content-Encoding
    /// [[RFC7826, Section 18.15](https://tools.ietf.org/html/rfc7826#section-18.15)]
    ContentEncoding,
    /// Content-Language
    /// [[RFC7826, Section 18.16](https://tools.ietf.org/html/rfc7826#section-18.16)]
    ContentLanguage,
    /// Content-Length
    /// [[RFC7826, Section 18.17](https://tools.ietf.org/html/rfc7826#section-18.17)]
    ContentLength,
    /// Content-Location
    /// [[RFC7826, Section 18.18](https://tools.ietf.org/html/rfc7826#section-18.18)]
    ContentLocation,
    /// Content-Type
    /// [[RFC7826, Section 18.19](https://tools.ietf.org/html/rfc7826#section-18.19)]
    ContentType,
    /// CSeq
    /// [[RFC7826, Section 18.20](https://tools.ietf.org/html/rfc7826#section-18.20)]
    CSeq,
    /// Date
    /// [[RFC7826, Section 18.21](https://tools.ietf.org/html/rfc7826#section-18.21)]
    Date,
    /// Expires
    /// [[RFC7826, Section 18.22](https://tools.ietf.org/html/rfc7826#section-18.22)]
    Expires,
    /// From
    /// [[RFC7826, Section 18.23](https://tools.ietf.org/html/rfc7826#section-18.23)]
    From,
    /// If-Match
    /// [[RFC7826, Section 18.24](https://tools.ietf.org/html/rfc7826#section-18.24)]
    IfMatch,
    /// If-Modified-Since
    /// [[RFC7826, Section 18.25](https://tools.ietf.org/html/rfc7826#section-18.25)]
    IfModifiedSince,
    /// If-None-Match
    /// [[RFC7826, Section 18.26](https://tools.ietf.org/html/rfc7826#section-18.26)]
    IfNoneMatch,
    /// Last-Modified
    /// [[RFC7826, Section 18.27](https://tools.ietf.org/html/rfc7826#section-18.27)]
    LastModified,
    /// Location
    /// [[RFC7826, Section 18.28](https://tools.ietf.org/html/rfc7826#section-18.28)]
    Location,
    /// Media-Properties
    /// [[RFC7826, Section 18.29](https://tools.ietf.org/html/rfc7826#section-18.29)]
    MediaProperties,
    /// Media-Range
    /// [[RFC7826, Section 18.30](https://tools.ietf.org/html/rfc7826#section-18.30)]
    MediaRange,
    /// MTag
    /// [[RFC7826, Section 18.31](https://tools.ietf.org/html/rfc7826#section-18.31)]
    MTag,
    /// Notify-Reason
    /// [[RFC7826, Section 18.32](https://tools.ietf.org/html/rfc7826#section-18.32)]
    NotifyReason,
    /// Pipelined-Requests
    /// [[RFC7826, Section 18.33](https://tools.ietf.org/html/rfc7826#section-18.33)]
    PipelinedRequests,
    /// Proxy-Authenticate
    /// [[RFC7826, Section 18.34](https://tools.ietf.org/html/rfc7826#section-18.34)]
    ProxyAuthenticate,
    /// Proxy-Authentication-Info
    /// [[RFC7826, Section 18.35](https://tools.ietf.org/html/rfc7826#section-18.35)]
    ProxyAuthenticationInfo,
    /// Proxy-Authorization
    /// [[RFC7826, Section 18.36](https://tools.ietf.org/html/rfc7826#section-18.36)]
    ProxyAuthorization,
    /// Proxy-Require
    /// [[RFC7826, Section 18.37](https://tools.ietf.org/html/rfc7826#section-18.37)]
    ProxyRequire,
    /// Proxy-Supported
    /// [[RFC7826, Section 18.38](https://tools.ietf.org/html/rfc7826#section-18.38)]
    ProxySupported,
    /// Public
    /// [[RFC7826, Section 18.39](https://tools.ietf.org/html/rfc7826#section-18.39)]
    Public,
    /// Range
    /// [[RFC7826, Section 18.40](https://tools.ietf.org/html/rfc7826#section-18.40)]
    Range,
    /// Referrer
    /// [[RFC7826, Section 18.41](https://tools.ietf.org/html/rfc7826#section-18.41)]
    Referrer,
    /// Request-Status
    /// [[RFC7826, Section 18.42](https://tools.ietf.org/html/rfc7826#section-18.42)]
    RequestStatus,
    /// Require
    /// [[RFC7826, Section 18.43](https://tools.ietf.org/html/rfc7826#section-18.43)]
    Require,
    /// Retry-After
    /// [[RFC7826, Section 18.44](https://tools.ietf.org/html/rfc7826#section-18.44)]
    RetryAfter,
    /// RTP-Info
    /// [[RFC7826, Section 18.45](https://tools.ietf.org/html/rfc7826#section-18.45)]
    RTPInfo,
    /// Scale
    /// [[RFC7826, Section 18.46](https://tools.ietf.org/html/rfc7826#section-18.46)]
    Scale,
    /// Seek-Style
    /// [[RFC7826, Section 18.47](https://tools.ietf.org/html/rfc7826#section-18.47)]
    SeekStyle,
    /// Server
    /// [[RFC7826, Section 18.48](https://tools.ietf.org/html/rfc7826#section-18.48)]
    Server,
    /// Session
    /// [[RFC7826, Section 18.49](https://tools.ietf.org/html/rfc7826#section-18.49)]
    Session,
    /// Speed
    /// [[RFC7826, Section 18.50](https://tools.ietf.org/html/rfc7826#section-18.50)]
    Speed,
    /// Supported
    /// [[RFC7826, Section 18.51](https://tools.ietf.org/html/rfc7826#section-18.51)]
    Supported,
    /// Terminate-Reason
    /// [[RFC7826, Section 18.52](https://tools.ietf.org/html/rfc7826#section-18.52)]
    TerminateReason,
    /// Timestamp
    /// [[RFC7826, Section 18.53](https://tools.ietf.org/html/rfc7826#section-18.53)]
    Timestamp,
    /// Transport
    /// [[RFC7826, Section 18.54](https://tools.ietf.org/html/rfc7826#section-18.54)]
    Transport,
    /// Unsupported
    /// [[RFC7826, Section 18.55](https://tools.ietf.org/html/rfc7826#section-18.55)]
    Unsupported,
    /// User-Agent
    /// [[RFC7826, Section 18.56](https://tools.ietf.org/html/rfc7826#section-18.56)]
    UserAgent,
    /// Via
    /// [[RFC7826, Section 18.57](https://tools.ietf.org/html/rfc7826#section-18.57)]
    Via,
    /// WWW-Authenticate
    /// [[RFC7826, Section 18.58](https://tools.ietf.org/html/rfc7826#section-18.58)]
    WWWAuthenticate,
    /// A header name that is not one of the standardized header names.
    Extension(ExtensionHeaderName),
}

impl View for HeaderName {
    type V = HeaderNameView;

    open spec fn view(&self) -> HeaderNameView {
        HeaderNameView { canonical: self.canonical(), lower: self.lower() }
    }
}

impl HeaderName {
    /// The lowercase spelling of the name.
    pub open spec fn lower(&self) -> Seq<u8> {
        match self {
            HeaderName::Accept => "accept".spec_bytes(),
            HeaderName::AcceptCredentials => "accept-credentials".spec_bytes(),
            HeaderName::AcceptEncoding => "accept-encoding".spec_bytes(),
            HeaderName::AcceptLanguage => "accept-language".spec_bytes(),
            HeaderName::AcceptRanges => "accept-ranges".spec_bytes(),
            HeaderName::Allow => "allow".spec_bytes(),
            HeaderName::AuthenticationInfo => "authentication-info".spec_bytes(),
            HeaderName::Authorization => "authorization".spec_bytes(),
            HeaderName::Bandwidth => "bandwidth".spec_bytes(),
            HeaderName::Blocksize => "blocksize".spec_bytes(),
            HeaderName::CacheControl => "cache-control".spec_bytes(),
            HeaderName::Connection => "connection".spec_bytes(),
            HeaderName::ConnectionCredentials => "connection-credentials".spec_bytes(),
            HeaderName::ContentBase => "content-base".spec_bytes(),
            HeaderName::ContentEncoding => "content-encoding".spec_bytes(),
            HeaderName::ContentLanguage => "content-language".spec_bytes(),
            HeaderName::ContentLength => "content-length".spec_bytes(),
            HeaderName::ContentLocation => "content-location".spec_bytes(),
            HeaderName::ContentType => "content-type".spec_bytes(),
            HeaderName::CSeq => "cseq".spec_bytes(),
            HeaderName::Date => "date".spec_bytes(),
            HeaderName::Expires => "expires".spec_bytes(),
            HeaderName::From => "from".spec_bytes(),
            HeaderName::IfMatch => "if-match".spec_bytes(),
            HeaderName::IfModifiedSince => "if-modified-since".spec_bytes(),
            HeaderName::IfNoneMatch => "if-none-match".spec_bytes(),
            HeaderName::LastModified => "last-modified".spec_bytes(),
            HeaderName::Location => "location".spec_bytes(),
            HeaderName::MediaProperties => "media-properties".spec_bytes(),
            HeaderName::MediaRange => "media-range".spec_bytes(),
            HeaderName::MTag => "mtag".spec_bytes(),
            HeaderName::NotifyReason => "notify-reason".spec_bytes(),
            HeaderName::PipelinedRequests => "pipelined-requests".spec_bytes(),
            HeaderName::ProxyAuthenticate => "proxy-authenticate".spec_bytes(),
            HeaderName::ProxyAuthenticationInfo => "proxy-authentication-info".spec_bytes(),
            HeaderName::ProxyAuthorization => "proxy-authorization".spec_bytes(),
            HeaderName::ProxyRequire => "proxy-require".spec_bytes(),
            HeaderName::ProxySupported => "proxy-supported".spec_bytes(),
            HeaderName::Public => "public".spec_bytes(),
            HeaderName::Range => "range".spec_bytes(),
            HeaderName::Referrer => "referrer".spec_bytes(),
            HeaderName::RequestStatus => "request-status".spec_bytes(),
            HeaderName::Require => "require".spec_bytes(),
            HeaderName::RetryAfter => "retry-after".spec_bytes(),
            HeaderName::RTPInfo => "rtp-info".spec_bytes(),
            HeaderName::Scale => "scale".spec_bytes(),
            HeaderName::SeekStyle => "seek-style".spec_bytes(),
            HeaderName::Server => "server".spec_bytes(),
            HeaderName::Session => "session".spec_bytes(),
            HeaderName::Speed => "speed".spec_bytes(),
            HeaderName::Supported => "supported".spec_bytes(),
            HeaderName::TerminateReason => "terminate-reason".spec_bytes(),
            HeaderName::Timestamp => "timestamp".spec_bytes(),
            HeaderName::Transport => "transport".spec_bytes(),
            HeaderName::Unsupported => "unsupported".spec_bytes(),
            HeaderName::UserAgent => "user-agent".spec_bytes(),
            HeaderName::Via => "via".spec_bytes(),
            HeaderName::WWWAuthenticate => "www-authenticate".spec_bytes(),
            HeaderName::Extension(extension) => extension.lower(),
        }
    }

    /// The canonical spelling of the name: the one that is written on the
    /// wire.
    pub open spec fn canonical(&self) -> Seq<u8> {
        match self {
            HeaderName::Accept => "Accept".spec_bytes(),
            HeaderName::AcceptCredentials => "Accept-Credentials".spec_bytes(),
            HeaderName::AcceptEncoding => "Accept-Encoding".spec_bytes(),
            HeaderName::AcceptLanguage => "Accept-Language".spec_bytes(),
            HeaderName::AcceptRanges => "Accept-Ranges".spec_bytes(),
            HeaderName::Allow => "Allow".spec_bytes(),
            HeaderName::AuthenticationInfo => "Authentication-Info".spec_bytes(),
            HeaderName::Authorization => "Authorization".spec_bytes(),
            HeaderName::Bandwidth => "Bandwidth".spec_bytes(),
            HeaderName::Blocksize => "Blocksize".spec_bytes(),
            HeaderName::CacheControl => "Cache-Control".spec_bytes(),
            HeaderName::Connection => "Connection".spec_bytes(),
            HeaderName::ConnectionCredentials => "Connection-Credentials".spec_bytes(),
            HeaderName::ContentBase => "Content-Base".spec_bytes(),
            HeaderName::ContentEncoding => "Content-Encoding".spec_bytes(),
            HeaderName::ContentLanguage => "Content-Language".spec_bytes(),
            HeaderName::ContentLength => "Content-Length".spec_bytes(),
            HeaderName::ContentLocation => "Content-Location".spec_bytes(),
            HeaderName::ContentType => "Content-Type".spec_bytes(),
            HeaderName::CSeq => "CSeq".spec_bytes(),
            HeaderName::Date => "Date".spec_bytes(),
            HeaderName::Expires => "Expires".spec_bytes(),
            HeaderName::From => "From".spec_bytes(),
            HeaderName::IfMatch => "If-Match".spec_bytes(),
            HeaderName::IfModifiedSince => "If-Modified-Since".spec_bytes(),
            HeaderName::IfNoneMatch => "If-None-Match".spec_bytes(),
            HeaderName::LastModified => "Last-Modified".spec_bytes(),
            HeaderName::Location => "Location".spec_bytes(),
            HeaderName::MediaProperties => "Media-Properties".spec_bytes(),
            HeaderName::MediaRange => "Media-Range".spec_bytes(),
            HeaderName::MTag => "MTag".spec_bytes(),
            HeaderName::NotifyReason => "Notify-Reason".spec_bytes(),
            HeaderName::PipelinedRequests => "Pipelined-Requests".spec_bytes(),
            HeaderName::ProxyAuthenticate => "Proxy-Authenticate".spec_bytes(),
            HeaderName::ProxyAuthenticationInfo => "Proxy-Authentication-Info".spec_bytes(),
            HeaderName::ProxyAuthorization => "Proxy-Authorization".spec_bytes(),
            HeaderName::ProxyRequire => "Proxy-Require".spec_bytes(),
            HeaderName::ProxySupported => "Proxy-Supported".spec_bytes(),
            HeaderName::Public => "Public".spec_bytes(),
            HeaderName::Range => "Range".spec_bytes(),
            HeaderName::Referrer => "Referrer".spec_bytes(),
            HeaderName::RequestStatus => "Request-Status".spec_bytes(),
            HeaderName::Require => "Require".spec_bytes(),
            HeaderName::RetryAfter => "Retry-After".spec_bytes(),
            HeaderName::RTPInfo => "RTP-Info".spec_bytes(),
            HeaderName::Scale => "Scale".spec_bytes(),
            HeaderName::SeekStyle => "Seek-Style".spec_bytes(),
            HeaderName::Server => "Server".spec_bytes(),
            HeaderName::Session => "Session".spec_bytes(),
            HeaderName::Speed => "Speed".spec_bytes(),
            HeaderName::Supported => "Supported".spec_bytes(),
            HeaderName::TerminateReason => "Terminate-Reason".spec_bytes(),
            HeaderName::Timestamp => "Timestamp".spec_bytes(),
            HeaderName::Transport => "Transport".spec_bytes(),
            HeaderName::Unsupported => "Unsupported".spec_bytes(),
            HeaderName::UserAgent => "User-Agent".spec_bytes(),
            HeaderName::Via => "Via".spec_bytes(),
            HeaderName::WWWAuthenticate => "WWW-Authenticate".spec_bytes(),
            HeaderName::Extension(extension) => extension.canonical(),
        }
    }

    /// Well-formedness: an extension name is a valid one. It holds of every
    /// name that `try_from` returns.
    pub open spec fn wf(&self) -> bool {
        self matches HeaderName::Extension(extension) ==> extension.wf()
    }

    /// Whether two names cannot be told apart: the same standardized name, or
    /// two extension names with the same spellings.
    pub open spec fn identical(&self, other: &HeaderName) -> bool {
        if self is Extension {
            other is Extension && self@ == other@
        } else {
            *other == *self
        }
    }

    /// What `try_from` returns on `bytes`: an error unless `bytes` is a valid
    /// name; else the standardized name with that lowercase spelling if there
    /// is one, else the extension name spelled `bytes`.
    pub open spec fn parses_to(
        bytes: Seq<u8>,
        res: Result<HeaderName, InvalidHeaderName>,
    ) -> bool {
        &&& res is Ok <==> spec_is_valid_name(bytes)
        &&& res matches Ok(name) ==> {
            &&& name.wf()
            &&& name.lower() == spec_to_ascii_lowercase(bytes)
            &&& name is Extension ==> name.canonical() == bytes
        }
    }

    /// Returns the lowercase spelling of the name.
    pub fn as_str(&self) -> (res: &str)
        ensures
            res.spec_bytes() == self.lower(),
    {
        match self {
            HeaderName::Accept => "accept",
            HeaderName::AcceptCredentials => "accept-credentials",
            HeaderName::AcceptEncoding => "accept-encoding",
            HeaderName::AcceptLanguage => "accept-language",
            HeaderName::AcceptRanges => "accept-ranges",
            HeaderName::Allow => "allow",
            HeaderName::AuthenticationInfo => "authentication-info",
            HeaderName::Authorization => "authorization",
            HeaderName::Bandwidth => "bandwidth",
            HeaderName::Blocksize => "blocksize",
            HeaderName::CacheControl => "cache-control",
            HeaderName::Connection => "connection",
            HeaderName::ConnectionCredentials => "connection-credentials",
            HeaderName::ContentBase => "content-base",
            HeaderName::ContentEncoding => "content-encoding",
            HeaderName::ContentLanguage => "content-language",
            HeaderName::ContentLength => "content-length",
            HeaderName::ContentLocation => "content-location",
            HeaderName::ContentType => "content-type",
            HeaderName::CSeq => "cseq",
            HeaderName::Date => "date",
            HeaderName::Expires => "expires",
            HeaderName::From => "from",
            HeaderName::IfMatch => "if-match",
            HeaderName::IfModifiedSince => "if-modified-since",
            HeaderName::IfNoneMatch => "if-none-match",
            HeaderName::LastModified => "last-modified",
            HeaderName::Location => "location",
            HeaderName::MediaProperties => "media-properties",
            HeaderName::MediaRange => "media-range",
            HeaderName::MTag => "mtag",
            HeaderName::NotifyReason => "notify-reason",
            HeaderName::PipelinedRequests => "pipelined-requests",
            HeaderName::ProxyAuthenticate => "proxy-authenticate",
            HeaderName::ProxyAuthenticationInfo => "proxy-authentication-info",
            HeaderName::ProxyAuthorization => "proxy-authorization",
            HeaderName::ProxyRequire => "proxy-require",
            HeaderName::ProxySupported => "proxy-supported",
            HeaderName::Public => "public",
            HeaderName::Range => "range",
            HeaderName::Referrer => "referrer",
            HeaderName::RequestStatus => "request-status",
            HeaderName::Require => "require",
            HeaderName::RetryAfter => "retry-after",
            HeaderName::RTPInfo => "rtp-info",
            HeaderName::Scale => "scale",
            HeaderName::SeekStyle => "seek-style",
            HeaderName::Server => "server",
            HeaderName::Session => "session",
            HeaderName::Speed => "speed",
            HeaderName::Supported => "supported",
            HeaderName::TerminateReason => "terminate-reason",
            HeaderName::Timestamp => "timestamp",
            HeaderName::Transport => "transport",
            HeaderName::Unsupported => "unsupported",
            HeaderName::UserAgent => "user-agent",
            HeaderName::Via => "via",
            HeaderName::WWWAuthenticate => "www-authenticate",
            HeaderName::Extension(extension) => extension.as_str(),
        }
    }

    /// Returns the canonical spelling of the name.
    pub fn canonical_name(&self) -> (res: &str)
        ensures
            res.spec_bytes() == self.canonical(),
    {
        match self {
            HeaderName::Accept => "Accept",
            HeaderName::AcceptCredentials => "Accept-Credentials",
            HeaderName::AcceptEncoding => "Accept-Encoding",
            HeaderName::AcceptLanguage => "Accept-Language",
            HeaderName::AcceptRanges => "Accept-Ranges",
            HeaderName::Allow => "Allow",
            HeaderName::AuthenticationInfo => "Authentication-Info",
            HeaderName::Authorization => "Authorization",
            HeaderName::Bandwidth => "Bandwidth",
            HeaderName::Blocksize => "Blocksize",
            HeaderName::CacheControl => "Cache-Control",
            HeaderName::Connection => "Connection",
            HeaderName::ConnectionCredentials => "Connection-Credentials",
            HeaderName::ContentBase => "Content-Base",
            HeaderName::ContentEncoding => "Content-Encoding",
            HeaderName::ContentLanguage => "Content-Language",
            HeaderName::ContentLength => "Content-Length",
            HeaderName::ContentLocation => "Content-Location",
            HeaderName::ContentType => "Content-Type",
            HeaderName::CSeq => "CSeq",
            HeaderName::Date => "Date",
            HeaderName::Expires => "Expires",
            HeaderName::From => "From",
            HeaderName::IfMatch => "If-Match",
            HeaderName::IfModifiedSince => "If-Modified-Since",
            HeaderName::IfNoneMatch => "If-None-Match",
            HeaderName::LastModified => "Last-Modified",
            HeaderName::Location => "Location",
            HeaderName::MediaProperties => "Media-Properties",
            HeaderName::MediaRange => "Media-Range",
            HeaderName::MTag => "MTag",
            HeaderName::NotifyReason => "Notify-Reason",
            HeaderName::PipelinedRequests => "Pipelined-Requests",
            HeaderName::ProxyAuthenticate => "Proxy-Authenticate",
            HeaderName::ProxyAuthenticationInfo => "Proxy-Authentication-Info",
            HeaderName::ProxyAuthorization => "Proxy-Authorization",
            HeaderName::ProxyRequire => "Proxy-Require",
            HeaderName::ProxySupported => "Proxy-Supported",
            HeaderName::Public => "Public",
            HeaderName::Range => "Range",
            HeaderName::Referrer => "Referrer",
            HeaderName::RequestStatus => "Request-Status",
            HeaderName::Require => "Require",
            HeaderName::RetryAfter => "Retry-After",
            HeaderName::RTPInfo => "RTP-Info",
            HeaderName::Scale => "Scale",
            HeaderName::SeekStyle => "Seek-Style",
            HeaderName::Server => "Server",
            HeaderName::Session => "Session",
            HeaderName::Speed => "Speed",
            HeaderName::Supported => "Supported",
            HeaderName::TerminateReason => "Terminate-Reason",
            HeaderName::Timestamp => "Timestamp",
            HeaderName::Transport => "Transport",
            HeaderName::Unsupported => "Unsupported",
            HeaderName::UserAgent => "User-Agent",
            HeaderName::Via => "Via",
            HeaderName::WWWAuthenticate => "WWW-Authenticate",
            HeaderName::Extension(extension) => extension.canonical_name(),
        }
    }

    /// Returns the lowercase spelling of the name as bytes.
    pub fn as_bytes(&self) -> (res: &[u8])
        ensures
            res@ == self.lower(),
    {
        self.as_str().as_bytes()
    }

    /// Returns the canonical spelling of the name as bytes.
    pub fn canonical_bytes(&self) -> (res: &[u8])
        ensures
            res@ == self.canonical(),
    {
        self.canonical_name().as_bytes()
    }

    /// Compares the name with a string, ignoring the case of the string.
    pub fn eq_str(&self, other: &str) -> (res: bool)
        ensures
            res == (self.lower() == spec_to_ascii_lowercase(other.spec_bytes())),
    {
        let other_lower = to_ascii_lowercase(other.as_bytes());
        bytes_eq(self.as_bytes(), other_lower.as_slice())
    }

    /// Finds the standardized header name with the lowercase spelling
    /// `lower`, by the length of the spelling and then by its content.
    fn standard(lower: &[u8]) -> (res: Option<HeaderName>)
        ensures
            res is Some <==> spec_is_standard(lower@),
            res matches Some(name) ==> name !is Extension && name.lower() == lower@,
    {
        let found = match lower.len() {
            3 => {
                if bytes_eq(lower, "via".as_bytes()) {
                    Some(HeaderName::Via)
                } else {
                    None
                }
            },
            4 => {
                if bytes_eq(lower, "cseq".as_bytes()) {
                    Some(HeaderName::CSeq)
                } else if bytes_eq(lower, "date".as_bytes()) {
                    Some(HeaderName::Date)
                } else if bytes_eq(lower, "from".as_bytes()) {
                    Some(HeaderName::From)
                } else if bytes_eq(lower, "mtag".as_bytes()) {
                    Some(HeaderName::MTag)
                } else {
                    None
                }
            },
            5 => {
                if bytes_eq(lower, "allow".as_bytes()) {
                    Some(HeaderName::Allow)
                } else if bytes_eq(lower, "range".as_bytes()) {
                    Some(HeaderName::Range)
                } else if bytes_eq(lower, "scale".as_bytes()) {
                    Some(HeaderName::Scale)
                } else if bytes_eq(lower, "speed".as_bytes()) {
                    Some(HeaderName::Speed)
                } else {
                    None
                }
            },
            6 => {
                if bytes_eq(lower, "accept".as_bytes()) {
                    Some(HeaderName::Accept)
                } else if bytes_eq(lower, "public".as_bytes()) {
                    Some(HeaderName::Public)
                } else if bytes_eq(lower, "server".as_bytes()) {
                    Some(HeaderName::Server)
                } else {
                    None
                }
            },
            7 => {
                if bytes_eq(lower, "expires".as_bytes()) {
                    Some(HeaderName::Expires)
                } else if bytes_eq(lower, "require".as_bytes()) {
                    Some(HeaderName::Require)
                } else if bytes_eq(lower, "session".as_bytes()) {
                    Some(HeaderName::Session)
                } else {
                    None
                }
            },
            8 => {
                if bytes_eq(lower, "if-match".as_bytes()) {
                    Some(HeaderName::IfMatch)
                } else if bytes_eq(lower, "location".as_bytes()) {
                    Some(HeaderName::Location)
                } else if bytes_eq(lower, "referrer".as_bytes()) {
                    Some(HeaderName::Referrer)
                } else if bytes_eq(lower, "rtp-info".as_bytes()) {
                    Some(HeaderName::RTPInfo)
                } else {
                    None
                }
            },
            9 => {
                if bytes_eq(lower, "bandwidth".as_bytes()) {
                    Some(HeaderName::Bandwidth)
                } else if bytes_eq(lower, "blocksize".as_bytes()) {
                    Some(HeaderName::Blocksize)
                } else if bytes_eq(lower, "supported".as_bytes()) {
                    Some(HeaderName::Supported)
                } else if bytes_eq(lower, "timestamp".as_bytes()) {
                    Some(HeaderName::Timestamp)
                } else if bytes_eq(lower, "transport".as_bytes()) {
                    Some(HeaderName::Transport)
                } else {
                    None
                }
            },
            10 => {
                if bytes_eq(lower, "connection".as_bytes()) {
                    Some(HeaderName::Connection)
                } else if bytes_eq(lower, "seek-style".as_bytes()) {
                    Some(HeaderName::SeekStyle)
                } else if bytes_eq(lower, "user-agent".as_bytes()) {
                    Some(HeaderName::UserAgent)
                } else {
                    None
                }
            },
            11 => {
                if bytes_eq(lower, "media-range".as_bytes()) {
                    Some(HeaderName::MediaRange)
                } else if bytes_eq(lower, "retry-after".as_bytes()) {
                    Some(HeaderName::RetryAfter)
                } else if bytes_eq(lower, "unsupported".as_bytes()) {
                    Some(HeaderName::Unsupported)
                } else {
                    None
                }
            },
            12 => {
                if bytes_eq(lower, "content-base".as_bytes()) {
                    Some(HeaderName::ContentBase)
                } else if bytes_eq(lower, "content-type".as_bytes()) {
                    Some(HeaderName::ContentType)
                } else {
                    None
                }
            },
            13 => {
                if bytes_eq(lower, "accept-ranges".as_bytes()) {
                    Some(HeaderName::AcceptRanges)
                } else if bytes_eq(lower, "authorization".as_bytes()) {
                    Some(HeaderName::Authorization)
                } else if bytes_eq(lower, "cache-control".as_bytes()) {
                    Some(HeaderName::CacheControl)
                } else if bytes_eq(lower, "if-none-match".as_bytes()) {
                    Some(HeaderName::IfNoneMatch)
                } else if bytes_eq(lower, "last-modified".as_bytes()) {
                    Some(HeaderName::LastModified)
                } else if bytes_eq(lower, "notify-reason".as_bytes()) {
                    Some(HeaderName::NotifyReason)
                } else if bytes_eq(lower, "proxy-require".as_bytes()) {
                    Some(HeaderName::ProxyRequire)
                } else {
                    None
                }
            },
            14 => {
                if bytes_eq(lower, "content-length".as_bytes()) {
                    Some(HeaderName::ContentLength)
                } else if bytes_eq(lower, "request-status".as_bytes()) {
                    Some(HeaderName::RequestStatus)
                } else {
                    None
                }
            },
            15 => {
                if bytes_eq(lower, "accept-encoding".as_bytes()) {
                    Some(HeaderName::AcceptEncoding)
                } else if bytes_eq(lower, "accept-language".as_bytes()) {
                    Some(HeaderName::AcceptLanguage)
                } else if bytes_eq(lower, "proxy-supported".as_bytes()) {
                    Some(HeaderName::ProxySupported)
                } else {
                    None
                }
            },
            16 => {
                if bytes_eq(lower, "content-encoding".as_bytes()) {
                    Some(HeaderName::ContentEncoding)
                } else if bytes_eq(lower, "content-language".as_bytes()) {
                    Some(HeaderName::ContentLanguage)
                } else if bytes_eq(lower, "content-location".as_bytes()) {
                    Some(HeaderName::ContentLocation)
                } else if bytes_eq(lower, "media-properties".as_bytes()) {
                    Some(HeaderName::MediaProperties)
                } else if bytes_eq(lower, "terminate-reason".as_bytes()) {
                    Some(HeaderName::TerminateReason)
                } else if bytes_eq(lower, "www-authenticate".as_bytes()) {
                    Some(HeaderName::WWWAuthenticate)
                } else {
                    None
                }
            },
            17 => {
                if bytes_eq(lower, "if-modified-since".as_bytes()) {
                    Some(HeaderName::IfModifiedSince)
                } else {
                    None
                }
            },
            18 => {
                if bytes_eq(lower, "accept-credentials".as_bytes()) {
                    Some(HeaderName::AcceptCredentials)
                } else if bytes_eq(lower, "pipelined-requests".as_bytes()) {
                    Some(HeaderName::PipelinedRequests)
                } else if bytes_eq(lower, "proxy-authenticate".as_bytes()) {
                    Some(HeaderName::ProxyAuthenticate)
                } else {
                    None
                }
            },
            19 => {
                if bytes_eq(lower, "authentication-info".as_bytes()) {
                    Some(HeaderName::AuthenticationInfo)
                } else if bytes_eq(lower, "proxy-authorization".as_bytes()) {
                    Some(HeaderName::ProxyAuthorization)
                } else {
                    None
                }
            },
            22 => {
                if bytes_eq(lower, "connection-credentials".as_bytes()) {
                    Some(HeaderName::ConnectionCredentials)
                } else {
                    None
                }
            },
            25 => {
                if bytes_eq(lower, "proxy-authentication-info".as_bytes()) {
                    Some(HeaderName::ProxyAuthenticationInfo)
                } else {
                    None
                }
            },
            _ => None,
        };
        proof {
            if found is None {
                assert forall|name: HeaderName| name !is Extension implies name.lower()
                    != lower@ by {
                    lemma_standard_by_length(name);
                }
                assert(!spec_is_standard(lower@));
            } else {
                let name = found->Some_0;
                assert(name !is Extension && name.lower() == lower@);
                assert(spec_is_standard(lower@));
            }
        }
        found
    }

    /// Creates an extension header name spelled `name`, whose lowercase
    /// spelling is `name_lower`, unless `name` is not a token.
    fn extension(name: &[u8], name_lower: &[u8]) -> (res: Result<HeaderName, InvalidHeaderName>)
        requires
            name@.len() <= MAX_HEADER_NAME_LENGTH,
            name_lower@ == spec_to_ascii_lowercase(name@),
            !spec_is_standard(name_lower@),
        ensures
            res is Ok <==> spec_is_token(name@),
            res matches Ok(header) ==> {
                &&& header is Extension
                &&& header.wf()
                &&& header.canonical() == name@
                &&& header.lower() == name_lower@
            },
    {
        if !is_token(name) {
            return Err(InvalidHeaderName);
        }
        proof {
            lemma_token_is_ascii(name@);
        }
        match (ascii_string_from(name), ascii_string_from(name_lower)) {
            (Some(canonical), Some(lower)) => Ok(
                HeaderName::Extension(ExtensionHeaderName { canonical, lower }),
            ),
            _ => Err(InvalidHeaderName),
        }
    }

    /// Converts bytes to an RTSP header name. The header name must be a token
    /// of at most `MAX_HEADER_NAME_LENGTH` bytes.
    ///
    /// The conversion is case insensitive: spellings that differ only in case
    /// give equal names. A standardized name is recognized in any case; any
    /// other token becomes an extension name that remembers its spelling.
    pub fn try_from(value: &[u8]) -> (res: Result<HeaderName, InvalidHeaderName>)
        ensures
            HeaderName::parses_to(value@, res),
    {
        if value.len() == 0 || value.len() > MAX_HEADER_NAME_LENGTH {
            return Err(InvalidHeaderName);
        }
        let value_lower = to_ascii_lowercase(value);
        match HeaderName::standard(value_lower.as_slice()) {
            Some(name) => {
                proof {
                    lemma_standard_facts(name);
                    lemma_token_of_standard_bytes(value@);
                }
                Ok(name)
            },
            None => HeaderName::extension(value, value_lower.as_slice()),
        }
    }

    /// Converts a string to an RTSP header name, as `try_from` does with its
    /// bytes.
    pub fn try_from_str(value: &str) -> (res: Result<HeaderName, InvalidHeaderName>)
        ensures
            HeaderName::parses_to(value.spec_bytes(), res),
    {
        HeaderName::try_from(value.as_bytes())
    }
}

impl Clone for HeaderName {
    fn clone(&self) -> (res: HeaderName)
        ensures
            self.identical(&res),
            res.wf() == self.wf(),
    {
        match self {
            HeaderName::Accept => HeaderName::Accept,
            HeaderName::AcceptCredentials => HeaderName::AcceptCredentials,
            HeaderName::AcceptEncoding => HeaderName::AcceptEncoding,
            HeaderName::AcceptLanguage => HeaderName::AcceptLanguage,
            HeaderName::AcceptRanges => HeaderName::AcceptRanges,
            HeaderName::Allow => HeaderName::Allow,
            HeaderName::AuthenticationInfo => HeaderName::AuthenticationInfo,
            HeaderName::Authorization => HeaderName::Authorization,
            HeaderName::Bandwidth => HeaderName::Bandwidth,
            HeaderName::Blocksize => HeaderName::Blocksize,
            HeaderName::CacheControl => HeaderName::CacheControl,
            HeaderName::Connection => HeaderName::Connection,
            HeaderName::ConnectionCredentials => HeaderName::ConnectionCredentials,
            HeaderName::ContentBase => HeaderName::ContentBase,
            HeaderName::ContentEncoding => HeaderName::ContentEncoding,
            HeaderName::ContentLanguage => HeaderName::ContentLanguage,
            HeaderName::ContentLength => HeaderName::ContentLength,
            HeaderName::ContentLocation => HeaderName::ContentLocation,
            HeaderName::ContentType => HeaderName::ContentType,
            HeaderName::CSeq => HeaderName::CSeq,
            HeaderName::Date => HeaderName::Date,
            HeaderName::Expires => HeaderName::Expires,
            HeaderName::From => HeaderName::From,
            HeaderName::IfMatch => HeaderName::IfMatch,
            HeaderName::IfModifiedSince => HeaderName::IfModifiedSince,
            HeaderName::IfNoneMatch => HeaderName::IfNoneMatch,
            HeaderName::LastModified => HeaderName::LastModified,
            HeaderName::Location => HeaderName::Location,
            HeaderName::MediaProperties => HeaderName::MediaProperties,
            HeaderName::MediaRange => HeaderName::MediaRange,
            HeaderName::MTag => HeaderName::MTag,
            HeaderName::NotifyReason => HeaderName::NotifyReason,
            HeaderName::PipelinedRequests => HeaderName::PipelinedRequests,
            HeaderName::ProxyAuthenticate => HeaderName::ProxyAuthenticate,
            HeaderName::ProxyAuthenticationInfo => HeaderName::ProxyAuthenticationInfo,
            HeaderName::ProxyAuthorization => HeaderName::ProxyAuthorization,
            HeaderName::ProxyRequire => HeaderName::ProxyRequire,
            HeaderName::ProxySupported => HeaderName::ProxySupported,
            HeaderName::Public => HeaderName::Public,
            HeaderName::Range => HeaderName::Range,
            HeaderName::Referrer => HeaderName::Referrer,
            HeaderName::RequestStatus => HeaderName::RequestStatus,
            HeaderName::Require => HeaderName::Require,
            HeaderName::RetryAfter => HeaderName::RetryAfter,
            HeaderName::RTPInfo => HeaderName::RTPInfo,
            HeaderName::Scale => HeaderName::Scale,
            HeaderName::SeekStyle => HeaderName::SeekStyle,
            HeaderName::Server => HeaderName::Server,
            HeaderName::Session => HeaderName::Session,
            HeaderName::Speed => HeaderName::Speed,
            HeaderName::Supported => HeaderName::Supported,
            HeaderName::TerminateReason => HeaderName::TerminateReason,
            HeaderName::Timestamp => HeaderName::Timestamp,
            HeaderName::Transport => HeaderName::Transport,
            HeaderName::Unsupported => HeaderName::Unsupported,
            HeaderName::UserAgent => HeaderName::UserAgent,
            HeaderName::Via => HeaderName::Via,
            HeaderName::WWWAuthenticate => HeaderName::WWWAuthenticate,
            HeaderName::Extension(extension) => HeaderName::Extension(extension.clone()),
        }
    }
}

impl PartialEq for HeaderName {
    /// Two header names are equal when their lowercase spellings are.
    fn eq(&self, other: &HeaderName) -> (res: bool) {
        bytes_eq(self.as_bytes(), other.as_bytes())
    }
}

impl PartialEqSpecImpl for HeaderName {
    open spec fn obeys_eq_spec() -> bool {
        true
    }

    open spec fn eq_spec(&self, other: &HeaderName) -> bool {
        self.lower() == other.lower()
    }
}

impl Eq for HeaderName {

}

impl Hash for HeaderName {
    /// Feeds the lowercase spelling of the name to the hasher, so that equal
    /// names hash alike.
    fn hash<H: Hasher>(&self, state: &mut H) {
        hash_bytes(self.as_bytes(), state);
    }
}

/// Token characters are ASCII.
pub proof fn lemma_token_is_ascii(bytes: Seq<u8>)
    requires
        spec_is_token(bytes),
    ensures
        spec_is_ascii(bytes),
        spec_is_ascii(spec_to_ascii_lowercase(bytes)),
        spec_is_token(spec_to_ascii_lowercase(bytes)),
{
    let lower = spec_to_ascii_lowercase(bytes);
    assert forall|i: int| 0 <= i < bytes.len() implies #[trigger] bytes[i] < 128 by {
        assert(spec_is_token_char(bytes[i]));
    }
    assert forall|i: int| 0 <= i < lower.len() implies spec_is_token_char(#[trigger] lower[i]) by {
        assert(spec_is_token_char(bytes[i]));
    }
    assert forall|i: int| 0 <= i < lower.len() implies #[trigger] lower[i] < 128 by {
        assert(spec_is_token_char(lower[i]));
    }
}

/// Bytes whose lowercase form is made of small letters and hyphens are a
/// token.
pub proof fn lemma_token_of_standard_bytes(bytes: Seq<u8>)
    requires
        bytes.len() > 0,
        forall|i: int|
            0 <= i < bytes.len() ==> spec_is_standard_byte(
                #[trigger] spec_to_ascii_lowercase(bytes)[i],
            ),
    ensures
        spec_is_token(bytes),
{
    assert forall|i: int| 0 <= i < bytes.len() implies spec_is_token_char(#[trigger] bytes[i]) by {
        assert(spec_is_standard_byte(spec_to_ascii_lowercase(bytes)[i]));
    }
}

/// What the two spellings of a standardized name, given as string literals,
/// have to show for the facts below to hold of their bytes.
proof fn lemma_spellings(lower: &str, canonical: &str)
    requires
        vstd::string::is_ascii(lower),
        vstd::string::is_ascii(canonical),
        lower@.len() == canonical@.len(),
        forall|i: int| 0 <= i < lower@.len() ==> spec_is_standard_byte(#[trigger] lower@[i] as u8),
        forall|i: int|
            0 <= i < lower@.len() ==> spec_lower_byte(#[trigger] canonical@[i] as u8)
                == lower@[i] as u8,
    ensures
        lower.spec_bytes().len() == lower@.len(),
        canonical.spec_bytes().len() == lower@.len(),
        spec_to_ascii_lowercase(canonical.spec_bytes()) == lower.spec_bytes(),
        forall|i: int|
            0 <= i < lower.spec_bytes().len() ==> spec_is_standard_byte(
                #[trigger] lower.spec_bytes()[i],
            ),
        forall|i: int| 0 <= i < lower@.len() ==> lower.spec_bytes()[i] == lower@[i] as u8,
{
    broadcast use vstd::string::is_ascii_spec_bytes;

    let l = lower.spec_bytes();
    let c = canonical.spec_bytes();
    assert(spec_to_ascii_lowercase(c) =~= l) by {
        assert forall|i: int| 0 <= i < l.len() implies spec_lower_byte(c[i]) == l[i] by {
            assert(c[i] == canonical@[i] as u8);
            assert(l[i] == lower@[i] as u8);
        }
    }
    assert forall|i: int| 0 <= i < l.len() implies spec_is_standard_byte(#[trigger] l[i]) by {
        assert(l[i] == lower@[i] as u8);
    }
}

/// The spellings of a standardized name: the lowercase spelling is made of
/// small letters and hyphens, and is the lowercase form of the canonical
/// spelling, which is a valid name of the same length.
pub proof fn lemma_standard_facts(name: HeaderName)
    requires
        name !is Extension,
    ensures
        name.wf(),
        name.lower() == spec_to_ascii_lowercase(name.canonical()),
        spec_is_valid_name(name.canonical()),
        spec_is_valid_name(name.lower()),
        forall|i: int|
            0 <= i < name.lower().len() ==> spec_is_standard_byte(#[trigger] name.lower()[i]),
{
    lemma_standard_spellings(name);
    lemma_token_of_standard_bytes(name.canonical());
    let lower = name.lower();
    assert forall|i: int| 0 <= i < lower.len() implies spec_is_token_char(#[trigger] lower[i]) by {
        assert(spec_is_standard_byte(lower[i]));
    }
}

/// The table of spellings, read off the string literals.
proof fn lemma_standard_spellings(name: HeaderName)
    requires
        name !is Extension,
    ensures
        3 <= name.lower().len() <= 25,
        name.canonical().len() == name.lower().len(),
        name.lower() == spec_to_ascii_lowercase(name.canonical()),
        forall|i: int|
            0 <= i < name.lower().len() ==> spec_is_standard_byte(#[trigger] name.lower()[i]),
{
    match name {
        HeaderName::Accept => {
            reveal_strlit("accept");
            reveal_strlit("Accept");
            lemma_spellings("accept", "Accept");
        },
        HeaderName::AcceptCredentials => {
            reveal_strlit("accept-credentials");
            reveal_strlit("Accept-Credentials");
            lemma_spellings("accept-credentials", "Accept-Credentials");
        },
        HeaderName::AcceptEncoding => {
            reveal_strlit("accept-encoding");
            reveal_strlit("Accept-Encoding");
            lemma_spellings("accept-encoding", "Accept-Encoding");
        },
        HeaderName::AcceptLanguage => {
            reveal_strlit("accept-language");
            reveal_strlit("Accept-Language");
            lemma_spellings("accept-language", "Accept-Language");
        },
        HeaderName::AcceptRanges => {
            reveal_strlit("accept-ranges");
            reveal_strlit("Accept-Ranges");
            lemma_spellings("accept-ranges", "Accept-Ranges");
        },
        HeaderName::Allow => {
            reveal_strlit("allow");
            reveal_strlit("Allow");
            lemma_spellings("allow", "Allow");
        },
        HeaderName::AuthenticationInfo => {
            reveal_strlit("authentication-info");
            reveal_strlit("Authentication-Info");
            lemma_spellings("authentication-info", "Authentication-Info");
        },
        HeaderName::Authorization => {
            reveal_strlit("authorization");
            reveal_strlit("Authorization");
            lemma_spellings("authorization", "Authorization");
        },
        HeaderName::Bandwidth => {
            reveal_strlit("bandwidth");
            reveal_strlit("Bandwidth");
            lemma_spellings("bandwidth", "Bandwidth");
        },
        HeaderName::Blocksize => {
            reveal_strlit("blocksize");
            reveal_strlit("Blocksize");
            lemma_spellings("blocksize", "Blocksize");
        },
        HeaderName::CacheControl => {
            reveal_strlit("cache-control");
            reveal_strlit("Cache-Control");
            lemma_spellings("cache-control", "Cache-Control");
        },
        HeaderName::Connection => {
            reveal_strlit("connection");
            reveal_strlit("Connection");
            lemma_spellings("connection", "Connection");
        },
        HeaderName::ConnectionCredentials => {
            reveal_strlit("connection-credentials");
            reveal_strlit("Connection-Credentials");
            lemma_spellings("connection-credentials", "Connection-Credentials");
        },
        HeaderName::ContentBase => {
            reveal_strlit("content-base");
            reveal_strlit("Content-Base");
            lemma_spellings("content-base", "Content-Base");
        },
        HeaderName::ContentEncoding => {
            reveal_strlit("content-encoding");
            reveal_strlit("Content-Encoding");
            lemma_spellings("content-encoding", "Content-Encoding");
        },
        HeaderName::ContentLanguage => {
            reveal_strlit("content-language");
            reveal_strlit("Content-Language");
            lemma_spellings("content-language", "Content-Language");
        },
        HeaderName::ContentLength => {
            reveal_strlit("content-length");
            reveal_strlit("Content-Length");
            lemma_spellings("content-length", "Content-Length");
        },
        HeaderName::ContentLocation => {
            reveal_strlit("content-location");
            reveal_strlit("Content-Location");
            lemma_spellings("content-location", "Content-Location");
        },
        HeaderName::ContentType => {
            reveal_strlit("content-type");
            reveal_strlit("Content-Type");
            lemma_spellings("content-type", "Content-Type");
        },
        HeaderName::CSeq => {
            reveal_strlit("cseq");
            reveal_strlit("CSeq");
            lemma_spellings("cseq", "CSeq");
        },
        HeaderName::Date => {
            reveal_strlit("date");
            reveal_strlit("Date");
            lemma_spellings("date", "Date");
        },
        HeaderName::Expires => {
            reveal_strlit("expires");
            reveal_strlit("Expires");
            lemma_spellings("expires", "Expires");
        },
        HeaderName::From => {
            reveal_strlit("from");
            reveal_strlit("From");
            lemma_spellings("from", "From");
        },
        HeaderName::IfMatch => {
            reveal_strlit("if-match");
            reveal_strlit("If-Match");
            lemma_spellings("if-match", "If-Match");
        },
        HeaderName::IfModifiedSince => {
            reveal_strlit("if-modified-since");
            reveal_strlit("If-Modified-Since");
            lemma_spellings("if-modified-since", "If-Modified-Since");
        },
        HeaderName::IfNoneMatch => {
            reveal_strlit("if-none-match");
            reveal_strlit("If-None-Match");
            lemma_spellings("if-none-match", "If-None-Match");
        },
        HeaderName::LastModified => {
            reveal_strlit("last-modified");
            reveal_strlit("Last-Modified");
            lemma_spellings("last-modified", "Last-Modified");
        },
        HeaderName::Location => {
            reveal_strlit("location");
            reveal_strlit("Location");
            lemma_spellings("location", "Location");
        },
        HeaderName::MediaProperties => {
            reveal_strlit("media-properties");
            reveal_strlit("Media-Properties");
            lemma_spellings("media-properties", "Media-Properties");
        },
        HeaderName::MediaRange => {
            reveal_strlit("media-range");
            reveal_strlit("Media-Range");
            lemma_spellings("media-range", "Media-Range");
        },
        HeaderName::MTag => {
            reveal_strlit("mtag");
            reveal_strlit("MTag");
            lemma_spellings("mtag", "MTag");
        },
        HeaderName::NotifyReason => {
            reveal_strlit("notify-reason");
            reveal_strlit("Notify-Reason");
            lemma_spellings("notify-reason", "Notify-Reason");
        },
        HeaderName::PipelinedRequests => {
            reveal_strlit("pipelined-requests");
            reveal_strlit("Pipelined-Requests");
            lemma_spellings("pipelined-requests", "Pipelined-Requests");
        },
        HeaderName::ProxyAuthenticate => {
            reveal_strlit("proxy-authenticate");
            reveal_strlit("Proxy-Authenticate");
            lemma_spellings("proxy-authenticate", "Proxy-Authenticate");
        },
        HeaderName::ProxyAuthenticationInfo => {
            reveal_strlit("proxy-authentication-info");
            reveal_strlit("Proxy-Authentication-Info");
            lemma_spellings("proxy-authentication-info", "Proxy-Authentication-Info");
        },
        HeaderName::ProxyAuthorization => {
            reveal_strlit("proxy-authorization");
            reveal_strlit("Proxy-Authorization");
            lemma_spellings("proxy-authorization", "Proxy-Authorization");
        },
        HeaderName::ProxyRequire => {
            reveal_strlit("proxy-require");
            reveal_strlit("Proxy-Require");
            lemma_spellings("proxy-require", "Proxy-Require");
        },
        HeaderName::ProxySupported => {
            reveal_strlit("proxy-supported");
            reveal_strlit("Proxy-Supported");
            lemma_spellings("proxy-supported", "Proxy-Supported");
        },
        HeaderName::Public => {
            reveal_strlit("public");
            reveal_strlit("Public");
            lemma_spellings("public", "Public");
        },
        HeaderName::Range => {
            reveal_strlit("range");
            reveal_strlit("Range");
            lemma_spellings("range", "Range");
        },
        HeaderName::Referrer => {
            reveal_strlit("referrer");
            reveal_strlit("Referrer");
            lemma_spellings("referrer", "Referrer");
        },
        HeaderName::RequestStatus => {
            reveal_strlit("request-status");
            reveal_strlit("Request-Status");
            lemma_spellings("request-status", "Request-Status");
        },
        HeaderName::Require => {
            reveal_strlit("require");
            reveal_strlit("Require");
            lemma_spellings("require", "Require");
        },
        HeaderName::RetryAfter => {
            reveal_strlit("retry-after");
            reveal_strlit("Retry-After");
            lemma_spellings("retry-after", "Retry-After");
        },
        HeaderName::RTPInfo => {
            reveal_strlit("rtp-info");
            reveal_strlit("RTP-Info");
            lemma_spellings("rtp-info", "RTP-Info");
        },
        HeaderName::Scale => {
            reveal_strlit("scale");
            reveal_strlit("Scale");
            lemma_spellings("scale", "Scale");
        },
        HeaderName::SeekStyle => {
            reveal_strlit("seek-style");
            reveal_strlit("Seek-Style");
            lemma_spellings("seek-style", "Seek-Style");
        },
        HeaderName::Server => {
            reveal_strlit("server");
            reveal_strlit("Server");
            lemma_spellings("server", "Server");
        },
        HeaderName::Session => {
            reveal_strlit("session");
            reveal_strlit("Session");
            lemma_spellings("session", "Session");
        },
        HeaderName::Speed => {
            reveal_strlit("speed");
            reveal_strlit("Speed");
            lemma_spellings("speed", "Speed");
        },
        HeaderName::Supported => {
            reveal_strlit("supported");
            reveal_strlit("Supported");
            lemma_spellings("supported", "Supported");
        },
        HeaderName::TerminateReason => {
            reveal_strlit("terminate-reason");
            reveal_strlit("Terminate-Reason");
            lemma_spellings("terminate-reason", "Terminate-Reason");
        },
        HeaderName::Timestamp => {
            reveal_strlit("timestamp");
            reveal_strlit("Timestamp");
            lemma_spellings("timestamp", "Timestamp");
        },
        HeaderName::Transport => {
            reveal_strlit("transport");
            reveal_strlit("Transport");
            lemma_spellings("transport", "Transport");
        },
        HeaderName::Unsupported => {
            reveal_strlit("unsupported");
            reveal_strlit("Unsupported");
            lemma_spellings("unsupported", "Unsupported");
        },
        HeaderName::UserAgent => {
            reveal_strlit("user-agent");
            reveal_strlit("User-Agent");
            lemma_spellings("user-agent", "User-Agent");
        },
        HeaderName::Via => {
            reveal_strlit("via");
            reveal_strlit("Via");
            lemma_spellings("via", "Via");
        },
        HeaderName::WWWAuthenticate => {
            reveal_strlit("www-authenticate");
            reveal_strlit("WWW-Authenticate");
            lemma_spellings("www-authenticate", "WWW-Authenticate");
        },
        HeaderName::Extension(_) => {},
    }
}

/// The standardized names by the length of their lowercase spelling.
pub proof fn lemma_standard_by_length(name: HeaderName)
    requires
        name !is Extension,
    ensures
        name.lower().len() == 3 ==> name == HeaderName::Via,
        name.lower().len() == 4 ==> name == HeaderName::CSeq || name == HeaderName::Date || name == HeaderName::From || name == HeaderName::MTag,
        name.lower().len() == 5 ==> name == HeaderName::Allow || name == HeaderName::Range || name == HeaderName::Scale || name == HeaderName::Speed,
        name.lower().len() == 6 ==> name == HeaderName::Accept || name == HeaderName::Public || name == HeaderName::Server,
        name.lower().len() == 7 ==> name == HeaderName::Expires || name == HeaderName::Require || name == HeaderName::Session,
        name.lower().len() == 8 ==> name == HeaderName::IfMatch || name == HeaderName::Location || name == HeaderName::Referrer || name == HeaderName::RTPInfo,
        name.lower().len() == 9 ==> name == HeaderName::Bandwidth || name == HeaderName::Blocksize || name == HeaderName::Supported || name == HeaderName::Timestamp || name == HeaderName::Transport,
        name.lower().len() == 10 ==> name == HeaderName::Connection || name == HeaderName::SeekStyle || name == HeaderName::UserAgent,
        name.lower().len() == 11 ==> name == HeaderName::MediaRange || name == HeaderName::RetryAfter || name == HeaderName::Unsupported,
        name.lower().len() == 12 ==> name == HeaderName::ContentBase || name == HeaderName::ContentType,
        name.lower().len() == 13 ==> name == HeaderName::AcceptRanges || name == HeaderName::Authorization || name == HeaderName::CacheControl || name == HeaderName::IfNoneMatch || name == HeaderName::LastModified || name == HeaderName::NotifyReason || name == HeaderName::ProxyRequire,
        name.lower().len() == 14 ==> name == HeaderName::ContentLength || name == HeaderName::RequestStatus,
        name.lower().len() == 15 ==> name == HeaderName::AcceptEncoding || name == HeaderName::AcceptLanguage || name == HeaderName::ProxySupported,
        name.lower().len() == 16 ==> name == HeaderName::ContentEncoding || name == HeaderName::ContentLanguage || name == HeaderName::ContentLocation || name == HeaderName::MediaProperties || name == HeaderName::TerminateReason || name == HeaderName::WWWAuthenticate,
        name.lower().len() == 17 ==> name == HeaderName::IfModifiedSince,
        name.lower().len() == 18 ==> name == HeaderName::AcceptCredentials || name == HeaderName::PipelinedRequests || name == HeaderName::ProxyAuthenticate,
        name.lower().len() == 19 ==> name == HeaderName::AuthenticationInfo || name == HeaderName::ProxyAuthorization,
        name.lower().len() == 22 ==> name == HeaderName::ConnectionCredentials,
        name.lower().len() == 25 ==> name == HeaderName::ProxyAuthenticationInfo,
        name.lower().len() == 3 || name.lower().len() == 4 || name.lower().len() == 5 || name.lower().len() == 6 || name.lower().len() == 7 || name.lower().len() == 8 || name.lower().len() == 9 || name.lower().len() == 10 || name.lower().len() == 11 || name.lower().len() == 12 || name.lower().len() == 13 || name.lower().len() == 14 || name.lower().len() == 15 || name.lower().len() == 16 || name.lower().len() == 17 || name.lower().len() == 18 || name.lower().len() == 19 || name.lower().len() == 22 || name.lower().len() == 25,
{
    match name {
        HeaderName::Accept => {
            reveal_strlit("accept");
            lemma_ascii_literal("accept");
        },
        HeaderName::AcceptCredentials => {
            reveal_strlit("accept-credentials");
            lemma_ascii_literal("accept-credentials");
        },
        HeaderName::AcceptEncoding => {
            reveal_strlit("accept-encoding");
            lemma_ascii_literal("accept-encoding");
        },
        HeaderName::AcceptLanguage => {
            reveal_strlit("accept-language");
            lemma_ascii_literal("accept-language");
        },
        HeaderName::AcceptRanges => {
            reveal_strlit("accept-ranges");
            lemma_ascii_literal("accept-ranges");
        },
        HeaderName::Allow => {
            reveal_strlit("allow");
            lemma_ascii_literal("allow");
        },
        HeaderName::AuthenticationInfo => {
            reveal_strlit("authentication-info");
            lemma_ascii_literal("authentication-info");
        },
        HeaderName::Authorization => {
            reveal_strlit("authorization");
            lemma_ascii_literal("authorization");
        },
        HeaderName::Bandwidth => {
            reveal_strlit("bandwidth");
            lemma_ascii_literal("bandwidth");
        },
        HeaderName::Blocksize => {
            reveal_strlit("blocksize");
            lemma_ascii_literal("blocksize");
        },
        HeaderName::CacheControl => {
            reveal_strlit("cache-control");
            lemma_ascii_literal("cache-control");
        },
        HeaderName::Connection => {
            reveal_strlit("connection");
            lemma_ascii_literal("connection");
        },
        HeaderName::ConnectionCredentials => {
            reveal_strlit("connection-credentials");
            lemma_ascii_literal("connection-credentials");
        },
        HeaderName::ContentBase => {
            reveal_strlit("content-base");
            lemma_ascii_literal("content-base");
        },
        HeaderName::ContentEncoding => {
            reveal_strlit("content-encoding");
            lemma_ascii_literal("content-encoding");
        },
        HeaderName::ContentLanguage => {
            reveal_strlit("content-language");
            lemma_ascii_literal("content-language");
        },
        HeaderName::ContentLength => {
            reveal_strlit("content-length");
            lemma_ascii_literal("content-length");
        },
        HeaderName::ContentLocation => {
            reveal_strlit("content-location");
            lemma_ascii_literal("content-location");
        },
        HeaderName::ContentType => {
            reveal_strlit("content-type");
            lemma_ascii_literal("content-type");
        },
        HeaderName::CSeq => {
            reveal_strlit("cseq");
            lemma_ascii_literal("cseq");
        },
        HeaderName::Date => {
            reveal_strlit("date");
            lemma_ascii_literal("date");
        },
        HeaderName::Expires => {
            reveal_strlit("expires");
            lemma_ascii_literal("expires");
        },
        HeaderName::From => {
            reveal_strlit("from");
            lemma_ascii_literal("from");
        },
        HeaderName::IfMatch => {
            reveal_strlit("if-match");
            lemma_ascii_literal("if-match");
        },
        HeaderName::IfModifiedSince => {
            reveal_strlit("if-modified-since");
            lemma_ascii_literal("if-modified-since");
        },
        HeaderName::IfNoneMatch => {
            reveal_strlit("if-none-match");
            lemma_ascii_literal("if-none-match");
        },
        HeaderName::LastModified => {
            reveal_strlit("last-modified");
            lemma_ascii_literal("last-modified");
        },
        HeaderName::Location => {
            reveal_strlit("location");
            lemma_ascii_literal("location");
        },
        HeaderName::MediaProperties => {
            reveal_strlit("media-properties");
            lemma_ascii_literal("media-properties");
        },
        HeaderName::MediaRange => {
            reveal_strlit("media-range");
            lemma_ascii_literal("media-range");
        },
        HeaderName::MTag => {
            reveal_strlit("mtag");
            lemma_ascii_literal("mtag");
        },
        HeaderName::NotifyReason => {
            reveal_strlit("notify-reason");
            lemma_ascii_literal("notify-reason");
        },
        HeaderName::PipelinedRequests => {
            reveal_strlit("pipelined-requests");
            lemma_ascii_literal("pipelined-requests");
        },
        HeaderName::ProxyAuthenticate => {
            reveal_strlit("proxy-authenticate");
            lemma_ascii_literal("proxy-authenticate");
        },
        HeaderName::ProxyAuthenticationInfo => {
            reveal_strlit("proxy-authentication-info");
            lemma_ascii_literal("proxy-authentication-info");
        },
        HeaderName::ProxyAuthorization => {
            reveal_strlit("proxy-authorization");
            lemma_ascii_literal("proxy-authorization");
        },
        HeaderName::ProxyRequire => {
            reveal_strlit("proxy-require");
            lemma_ascii_literal("proxy-require");
        },
        HeaderName::ProxySupported => {
            reveal_strlit("proxy-supported");
            lemma_ascii_literal("proxy-supported");
        },
        HeaderName::Public => {
            reveal_strlit("public");
            lemma_ascii_literal("public");
        },
        HeaderName::Range => {
            reveal_strlit("range");
            lemma_ascii_literal("range");
        },
        HeaderName::Referrer => {
            reveal_strlit("referrer");
            lemma_ascii_literal("referrer");
        },
        HeaderName::RequestStatus => {
            reveal_strlit("request-status");
            lemma_ascii_literal("request-status");
        },
        HeaderName::Require => {
            reveal_strlit("require");
            lemma_ascii_literal("require");
        },
        HeaderName::RetryAfter => {
            reveal_strlit("retry-after");
            lemma_ascii_literal("retry-after");
        },
        HeaderName::RTPInfo => {
            reveal_strlit("rtp-info");
            lemma_ascii_literal("rtp-info");
        },
        HeaderName::Scale => {
            reveal_strlit("scale");
            lemma_ascii_literal("scale");
        },
        HeaderName::SeekStyle => {
            reveal_strlit("seek-style");
            lemma_ascii_literal("seek-style");
        },
        HeaderName::Server => {
            reveal_strlit("server");
            lemma_ascii_literal("server");
        },
        HeaderName::Session => {
            reveal_strlit("session");
            lemma_ascii_literal("session");
        },
        HeaderName::Speed => {
            reveal_strlit("speed");
            lemma_ascii_literal("speed");
        },
        HeaderName::Supported => {
            reveal_strlit("supported");
            lemma_ascii_literal("supported");
        },
        HeaderName::TerminateReason => {
            reveal_strlit("terminate-reason");
            lemma_ascii_literal("terminate-reason");
        },
        HeaderName::Timestamp => {
            reveal_strlit("timestamp");
            lemma_ascii_literal("timestamp");
        },
        HeaderName::Transport => {
            reveal_strlit("transport");
            lemma_ascii_literal("transport");
        },
        HeaderName::Unsupported => {
            reveal_strlit("unsupported");
            lemma_ascii_literal("unsupported");
        },
        HeaderName::UserAgent => {
            reveal_strlit("user-agent");
            lemma_ascii_literal("user-agent");
        },
        HeaderName::Via => {
            reveal_strlit("via");
            lemma_ascii_literal("via");
        },
        HeaderName::WWWAuthenticate => {
            reveal_strlit("www-authenticate");
            lemma_ascii_literal("www-authenticate");
        },
        HeaderName::Extension(_) => {},
    }
}

/// No two standardized names share a lowercase spelling.
pub proof fn lemma_standard_unique(a: HeaderName, b: HeaderName)
    requires
        a !is Extension,
        b !is Extension,
        a.lower() == b.lower(),
    ensures
        a == b,
{
    lemma_standard_by_length(a);
    lemma_standard_by_length(b);
    if a != b {
        lemma_standard_distinct(a, b);
    }
}

/// Two different standardized names of one length differ in some byte.
proof fn lemma_standard_distinct(a: HeaderName, b: HeaderName)
    requires
        a !is Extension,
        b !is Extension,
        a != b,
        a.lower().len() == b.lower().len(),
    ensures
        a.lower() != b.lower(),
{
    lemma_standard_by_length(a);
    lemma_standard_by_length(b);
    lemma_standard_prefix(a);
    lemma_standard_prefix(b);
}

/// A few bytes of each lowercase spelling: enough to tell the standardized
/// names of one length apart.
proof fn lemma_standard_prefix(name: HeaderName)
    requires
        name !is Extension,
    ensures
        match name {
            HeaderName::Accept => name.lower()[0] == 0x61,
            HeaderName::AcceptCredentials => name.lower()[1] == 0x63,
            HeaderName::AcceptEncoding => name.lower()[7] == 0x65,
            HeaderName::AcceptLanguage => name.lower()[7] == 0x6c,
            HeaderName::AcceptRanges => name.lower()[0] == 0x61 && name.lower()[1] == 0x63,
            HeaderName::Allow => name.lower()[1] == 0x6c,
            HeaderName::AuthenticationInfo => name.lower()[0] == 0x61,
            HeaderName::Authorization => name.lower()[0] == 0x61 && name.lower()[1] == 0x75,
            HeaderName::Bandwidth => name.lower()[1] == 0x61,
            HeaderName::Blocksize => name.lower()[1] == 0x6c,
            HeaderName::CacheControl => name.lower()[0] == 0x63 && name.lower()[1] == 0x61,
            HeaderName::Connection => name.lower()[0] == 0x63,
            HeaderName::ConnectionCredentials => true,
            HeaderName::ContentBase => name.lower()[8] == 0x62,
            HeaderName::ContentEncoding => name.lower()[11] == 0x6f,
            HeaderName::ContentLanguage => name.lower()[11] == 0x67,
            HeaderName::ContentLength => name.lower()[0] == 0x63,
            HeaderName::ContentLocation => name.lower()[11] == 0x61,
            HeaderName::ContentType => name.lower()[8] == 0x74,
            HeaderName::CSeq => name.lower()[0] == 0x63,
            HeaderName::Date => name.lower()[0] == 0x64,
            HeaderName::Expires => name.lower()[0] == 0x65,
            HeaderName::From => name.lower()[0] == 0x66,
            HeaderName::IfMatch => name.lower()[1] == 0x66,
            HeaderName::IfModifiedSince => true,
            HeaderName::IfNoneMatch => name.lower()[0] == 0x69 && name.lower()[1] == 0x66,
            HeaderName::LastModified => name.lower()[0] == 0x6c && name.lower()[1] == 0x61,
            HeaderName::Location => name.lower()[1] == 0x6f,
            HeaderName::MediaProperties => name.lower()[11] == 0x72,
            HeaderName::MediaRange => name.lower()[0] == 0x6d,
            HeaderName::MTag => name.lower()[0] == 0x6d,
            HeaderName::NotifyReason => name.lower()[0] == 0x6e && name.lower()[1] == 0x6f,
            HeaderName::PipelinedRequests => name.lower()[1] == 0x69,
            HeaderName::ProxyAuthenticate => name.lower()[1] == 0x72,
            HeaderName::ProxyAuthenticationInfo => true,
            HeaderName::ProxyAuthorization => name.lower()[0] == 0x70,
            HeaderName::ProxyRequire => name.lower()[0] == 0x70 && name.lower()[1] == 0x72,
            HeaderName::ProxySupported => name.lower()[7] == 0x75,
            HeaderName::Public => name.lower()[0] == 0x70,
            HeaderName::Range => name.lower()[1] == 0x61,
            HeaderName::Referrer => name.lower()[1] == 0x65,
            HeaderName::RequestStatus => name.lower()[0] == 0x72,
            HeaderName::Require => name.lower()[0] == 0x72,
            HeaderName::RetryAfter => name.lower()[0] == 0x72,
            HeaderName::RTPInfo => name.lower()[1] == 0x74,
            HeaderName::Scale => name.lower()[1] == 0x63,
            HeaderName::SeekStyle => name.lower()[0] == 0x73,
            HeaderName::Server => name.lower()[0] == 0x73,
            HeaderName::Session => name.lower()[0] == 0x73,
            HeaderName::Speed => name.lower()[1] == 0x70,
            HeaderName::Supported => name.lower()[1] == 0x75,
            HeaderName::TerminateReason => name.lower()[11] == 0x65,
            HeaderName::Timestamp => name.lower()[1] == 0x69,
            HeaderName::Transport => name.lower()[1] == 0x72,
            HeaderName::Unsupported => name.lower()[0] == 0x75,
            HeaderName::UserAgent => name.lower()[0] == 0x75,
            HeaderName::Via => true,
            HeaderName::WWWAuthenticate => name.lower()[11] == 0x69,
            HeaderName::Extension(_) => true,
        },
{
    match name {
        HeaderName::Accept => {
            reveal_strlit("accept");
            lemma_ascii_literal("accept");
        },
        HeaderName::AcceptCredentials => {
            reveal_strlit("accept-credentials");
            lemma_ascii_literal("accept-credentials");
        },
        HeaderName::AcceptEncoding => {
            reveal_strlit("accept-encoding");
            lemma_ascii_literal("accept-encoding");
        },
        HeaderName::AcceptLanguage => {
            reveal_strlit("accept-language");
            lemma_ascii_literal("accept-language");
        },
        HeaderName::AcceptRanges => {
            reveal_strlit("accept-ranges");
            lemma_ascii_literal("accept-ranges");
        },
        HeaderName::Allow => {
            reveal_strlit("allow");
            lemma_ascii_literal("allow");
        },
        HeaderName::AuthenticationInfo => {
            reveal_strlit("authentication-info");
            lemma_ascii_literal("authentication-info");
        },
        HeaderName::Authorization => {
            reveal_strlit("authorization");
            lemma_ascii_literal("authorization");
        },
        HeaderName::Bandwidth => {
            reveal_strlit("bandwidth");
            lemma_ascii_literal("bandwidth");
        },
        HeaderName::Blocksize => {
            reveal_strlit("blocksize");
            lemma_ascii_literal("blocksize");
        },
        HeaderName::CacheControl => {
            reveal_strlit("cache-control");
            lemma_ascii_literal("cache-control");
        },
        HeaderName::Connection => {
            reveal_strlit("connection");
            lemma_ascii_literal("connection");
        },
        HeaderName::ConnectionCredentials => {
            reveal_strlit("connection-credentials");
            lemma_ascii_literal("connection-credentials");
        },
        HeaderName::ContentBase => {
            reveal_strlit("content-base");
            lemma_ascii_literal("content-base");
        },
        HeaderName::ContentEncoding => {
            reveal_strlit("content-encoding");
            lemma_ascii_literal("content-encoding");
        },
        HeaderName::ContentLanguage => {
            reveal_strlit("content-language");
            lemma_ascii_literal("content-language");
        },
        HeaderName::ContentLength => {
            reveal_strlit("content-length");
            lemma_ascii_literal("content-length");
        },
        HeaderName::ContentLocation => {
            reveal_strlit("content-location");
            lemma_ascii_literal("content-location");
        },
        HeaderName::ContentType => {
            reveal_strlit("content-type");
            lemma_ascii_literal("content-type");
        },
        HeaderName::CSeq => {
            reveal_strlit("cseq");
            lemma_ascii_literal("cseq");
        },
        HeaderName::Date => {
            reveal_strlit("date");
            lemma_ascii_literal("date");
        },
        HeaderName::Expires => {
            reveal_strlit("expires");
            lemma_ascii_literal("expires");
        },
        HeaderName::From => {
            reveal_strlit("from");
            lemma_ascii_literal("from");
        },
        HeaderName::IfMatch => {
            reveal_strlit("if-match");
            lemma_ascii_literal("if-match");
        },
        HeaderName::IfModifiedSince => {
            reveal_strlit("if-modified-since");
            lemma_ascii_literal("if-modified-since");
        },
        HeaderName::IfNoneMatch => {
            reveal_strlit("if-none-match");
            lemma_ascii_literal("if-none-match");
        },
        HeaderName::LastModified => {
            reveal_strlit("last-modified");
            lemma_ascii_literal("last-modified");
        },
        HeaderName::Location => {
            reveal_strlit("location");
            lemma_ascii_literal("location");
        },
        HeaderName::MediaProperties => {
            reveal_strlit("media-properties");
            lemma_ascii_literal("media-properties");
        },
        HeaderName::MediaRange => {
            reveal_strlit("media-range");
            lemma_ascii_literal("media-range");
        },
        HeaderName::MTag => {
            reveal_strlit("mtag");
            lemma_ascii_literal("mtag");
        },
        HeaderName::NotifyReason => {
            reveal_strlit("notify-reason");
            lemma_ascii_literal("notify-reason");
        },
        HeaderName::PipelinedRequests => {
            reveal_strlit("pipelined-requests");
            lemma_ascii_literal("pipelined-requests");
        },
        HeaderName::ProxyAuthenticate => {
            reveal_strlit("proxy-authenticate");
            lemma_ascii_literal("proxy-authenticate");
        },
        HeaderName::ProxyAuthenticationInfo => {
            reveal_strlit("proxy-authentication-info");
            lemma_ascii_literal("proxy-authentication-info");
        },
        HeaderName::ProxyAuthorization => {
            reveal_strlit("proxy-authorization");
            lemma_ascii_literal("proxy-authorization");
        },
        HeaderName::ProxyRequire => {
            reveal_strlit("proxy-require");
            lemma_ascii_literal("proxy-require");
        },
        HeaderName::ProxySupported => {
            reveal_strlit("proxy-supported");
            lemma_ascii_literal("proxy-supported");
        },
        HeaderName::Public => {
            reveal_strlit("public");
            lemma_ascii_literal("public");
        },
        HeaderName::Range => {
            reveal_strlit("range");
            lemma_ascii_literal("range");
        },
        HeaderName::Referrer => {
            reveal_strlit("referrer");
            lemma_ascii_literal("referrer");
        },
        HeaderName::RequestStatus => {
            reveal_strlit("request-status");
            lemma_ascii_literal("request-status");
        },
        HeaderName::Require => {
            reveal_strlit("require");
            lemma_ascii_literal("require");
        },
        HeaderName::RetryAfter => {
            reveal_strlit("retry-after");
            lemma_ascii_literal("retry-after");
        },
        HeaderName::RTPInfo => {
            reveal_strlit("rtp-info");
            lemma_ascii_literal("rtp-info");
        },
        HeaderName::Scale => {
            reveal_strlit("scale");
            lemma_ascii_literal("scale");
        },
        HeaderName::SeekStyle => {
            reveal_strlit("seek-style");
            lemma_ascii_literal("seek-style");
        },
        HeaderName::Server => {
            reveal_strlit("server");
            lemma_ascii_literal("server");
        },
        HeaderName::Session => {
            reveal_strlit("session");
            lemma_ascii_literal("session");
        },
        HeaderName::Speed => {
            reveal_strlit("speed");
            lemma_ascii_literal("speed");
        },
        HeaderName::Supported => {
            reveal_strlit("supported");
            lemma_ascii_literal("supported");
        },
        HeaderName::TerminateReason => {
            reveal_strlit("terminate-reason");
            lemma_ascii_literal("terminate-reason");
        },
        HeaderName::Timestamp => {
            reveal_strlit("timestamp");
            lemma_ascii_literal("timestamp");
        },
        HeaderName::Transport => {
            reveal_strlit("transport");
            lemma_ascii_literal("transport");
        },
        HeaderName::Unsupported => {
            reveal_strlit("unsupported");
            lemma_ascii_literal("unsupported");
        },
        HeaderName::UserAgent => {
            reveal_strlit("user-agent");
            lemma_ascii_literal("user-agent");
        },
        HeaderName::Via => {
            reveal_strlit("via");
            lemma_ascii_literal("via");
        },
        HeaderName::WWWAuthenticate => {
            reveal_strlit("www-authenticate");
            lemma_ascii_literal("www-authenticate");
        },
        HeaderName::Extension(_) => {},
    }
}

/// Well-formed names with the same lowercase spelling are of the same kind:
/// both the same standardized name, or both extension names.
pub proof fn lemma_same_lower(a: HeaderName, b: HeaderName)
    requires
        a.wf(),
        b.wf(),
        a.lower() == b.lower(),
    ensures
        a is Extension <==> b is Extension,
        a !is Extension ==> a == b,
{
    if a !is Extension && b !is Extension {
        lemma_standard_unique(a, b);
    }
}

/// The spellings of a well-formed name are well-formed.
pub proof fn lemma_view_wf(name: HeaderName)
    requires
        name.wf(),
    ensures
        name@.wf(),
{
    if name !is Extension {
        lemma_standard_facts(name);
        assert forall|other: HeaderName|
            other !is Extension && #[trigger] other.lower() == name.lower() implies other.canonical()
            == name.canonical() by {
            lemma_standard_unique(other, name);
        }
    }
}

/// The spellings of the name that `try_from` makes of `bytes` are those
/// that `spec_name_view` gives.
pub proof fn lemma_parsed_view(bytes: Seq<u8>, name: HeaderName)
    requires
        HeaderName::parses_to(bytes, Ok(name)),
    ensures
        name@ == spec_name_view(bytes),
        name@.wf(),
{
    lemma_view_wf(name);
    let lower = spec_to_ascii_lowercase(bytes);
    if spec_is_standard(lower) {
        let standard = choose|other: HeaderName| other !is Extension && #[trigger] other.lower() == lower;
        lemma_standard_facts(standard);
        lemma_same_lower(standard, name);
    } else {
        assert(name is Extension);
    }
}

/// Changing the case of the bytes of a token changes neither whether
/// `try_from` accepts them nor the lowercase spelling of the name it returns.
/// Names are compared and hashed by that spelling, so the two names are equal
/// and hash alike.
pub proof fn lemma_try_from_ignores_case(
    bytes: Seq<u8>,
    res: Result<HeaderName, InvalidHeaderName>,
    res_upper: Result<HeaderName, InvalidHeaderName>,
)
    requires
        spec_is_token(bytes),
        HeaderName::parses_to(bytes, res),
        HeaderName::parses_to(spec_to_ascii_uppercase(bytes), res_upper),
    ensures
        res is Ok <==> res_upper is Ok,
        res matches Ok(name) ==> {
            &&& name.lower() == res_upper->Ok_0.lower()
            &&& name is Extension <==> res_upper->Ok_0 is Extension
            &&& name !is Extension ==> name == res_upper->Ok_0
        },
{
    let upper = spec_to_ascii_uppercase(bytes);
    assert forall|i: int| 0 <= i < upper.len() implies spec_is_token_char(#[trigger] upper[i]) by {
        assert(spec_is_token_char(bytes[i]));
    }
    assert(spec_to_ascii_lowercase(upper) =~= spec_to_ascii_lowercase(bytes)) by {
        assert forall|i: int| 0 <= i < bytes.len() implies spec_lower_byte(spec_upper_byte(bytes[i]))
            == spec_lower_byte(bytes[i]) by {}
    }
    if res is Ok {
        lemma_same_lower(res->Ok_0, res_upper->Ok_0);
    }
}

} // verus!
