//! Core of an RTSP 2.0 protocol library.
//!
//! The library holds the message model of RTSP 2.0 (RFC 7826): requests and
//! responses with their builders, header names and values, the header map and
//! the typed headers; the codec that turns messages into bytes and bytes into
//! messages; and the engine of a connection, which pairs requests with their
//! responses by `CSeq`.

pub mod header;
pub mod method;
pub mod number;
pub mod protocol;
pub mod reason;
pub mod request;
pub mod response;
pub mod status;
pub mod syntax;
pub mod uri;
pub mod version;

pub use header::{
    HeaderMap, HeaderName, HeaderValue, InvalidHeaderName, InvalidHeaderValue,
    InvalidTypedHeader, TypedHeader, TypedHeaderMap,
};
pub use method::Method;
pub use reason::ReasonPhrase;
pub use request::{Request, TypedRequest};
pub use response::{Response, TypedResponse};
pub use status::StatusCode;
pub use uri::RequestURIField;
pub use version::Version;
