//! RTSP headers: names, values, the header map and the typed headers.

pub mod map;
pub mod name;
pub mod typed_map;
pub mod types;
pub mod value;

pub use self::map::HeaderMap;
pub use self::name::{ExtensionHeaderName, HeaderName, InvalidHeaderName};
pub use self::typed_map::{Headers, TypedHeaderMap};
pub use self::types::{InvalidTypedHeader, TypedHeader};
pub use self::value::{HeaderValue, InvalidHeaderValue};

use vstd::prelude::*;

verus! {

/// The longest header name that is accepted, in bytes.
pub const MAX_HEADER_NAME_LENGTH: usize = 128;

/// The longest header value that is accepted, in bytes.
pub const MAX_HEADER_VALUE_LENGTH: usize = 4096;

} // verus!
