//! Messages as the codec sees them: requests and responses with a body of
//! bytes.

use vstd::prelude::*;

use crate::header::map::{spec_map_wf, HeaderMapView};
use crate::header::HeaderMap;
use crate::reason::spec_is_reason_phrase;
use crate::request::Request;
use crate::response::Response;
use crate::syntax::spec_is_token;
use crate::uri::spec_is_request_uri;
use crate::version::Version;

verus! {

/// What the first line of a message says.
pub enum StartLine {
    /// A request line.
    Request {
        /// The name of the method.
        method: Seq<u8>,
        /// The request URI.
        uri: Seq<u8>,
    },
    /// A status line.
    Response {
        /// The number of the status code.
        status: u16,
        /// The reason phrase.
        reason: Seq<u8>,
    },
}

/// What a message says.
pub struct MessageView {
    /// The protocol version.
    pub version: Version,
    /// The first line.
    pub start: StartLine,
    /// The headers, as raw header values.
    pub headers: HeaderMapView,
    /// The body.
    pub body: Seq<u8>,
}

impl StartLine {
    /// Whether this is what a valid first line says.
    pub open spec fn wf(self) -> bool {
        match self {
            StartLine::Request { method, uri } => spec_is_token(method) && spec_is_request_uri(uri),
            StartLine::Response { status, reason } => 100 <= status <= 599 && spec_is_reason_phrase(
                reason,
            ),
        }
    }
}

impl MessageView {
    /// Whether this is what a valid message says: the version is RTSP 2.0,
    /// the first line is valid and the headers are well-formed.
    pub open spec fn wf(self) -> bool {
        &&& self.version == Version::RTSP20
        &&& self.start.wf()
        &&& spec_map_wf(self.headers)
    }
}

/// An RTSP message: a request or a response, with a body of bytes.
#[derive(Clone, Debug, PartialEq, Eq)]
pub enum Message {
    /// A request.
    Request(Request<Vec<u8>, HeaderMap>),
    /// A response.
    Response(Response<Vec<u8>, HeaderMap>),
}

impl View for Message {
    type V = MessageView;

    open spec fn view(&self) -> MessageView {
        match self {
            Message::Request(request) => MessageView {
                version: request@.version,
                start: StartLine::Request { method: request@.method, uri: request@.uri },
                headers: request@.headers,
                body: request@.body@,
            },
            Message::Response(response) => MessageView {
                version: response@.version,
                start: StartLine::Response { status: response@.status, reason: response@.reason },
                headers: response@.headers,
                body: response@.body@,
            },
        }
    }
}

} // verus!
