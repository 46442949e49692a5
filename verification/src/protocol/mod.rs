//! The RTSP protocol on a connection: the codec that turns messages into
//! bytes and bytes into messages, and the connection engine.

pub mod connection;
pub mod decode;
pub mod encode;
pub mod laws;
pub mod message;
pub mod roundtrip;
pub mod streaming;

pub use self::connection::{
    Action, Connection, EmptyService, OperationError, Pending, Phase, ProtocolError, Service,
};
pub use self::decode::{decode, DecodeError, DecodeResult, DecodeState, Decoder};
pub use self::encode::{encode, encode_request, encode_response, EncodeError};
pub use self::message::Message;
