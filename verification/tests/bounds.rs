use rtsp::header::{HeaderMap, HeaderName, HeaderValue, TypedHeaderMap};
use rtsp::protocol::{Action, Connection, Decoder, Message};
use rtsp::request::Request;
use rtsp::response::Response;

#[test]
fn test_bounds() {
    fn check_bounds<T: Send + Sync>() {}

    check_bounds::<HeaderName>();
    check_bounds::<HeaderValue>();
    check_bounds::<HeaderMap>();
    check_bounds::<TypedHeaderMap>();
    check_bounds::<Request<Vec<u8>>>();
    check_bounds::<Response<Vec<u8>>>();
    check_bounds::<Message>();
    check_bounds::<Decoder>();
    check_bounds::<Action>();
    check_bounds::<Connection>();
}
