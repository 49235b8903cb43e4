use rtsp::client;
use rtsp::error::Error;
use rtsp::method::Method;
use rtsp::response::Response;
use rtsp::server;
use rtsp::version::RtspVersion;

#[test]
fn version_text() {
    assert_eq!(RtspVersion::Rtsp10.to_string(), "RTSP/1.0");
    assert_eq!(RtspVersion::default(), RtspVersion::Rtsp10);
    assert_eq!(RtspVersion::default().as_str(), "RTSP/1.0");
}

#[test]
fn error_descriptions() {
    assert_eq!(Error::Method.description(), "Invalid Method specified");
    assert_eq!(Error::Timeout.description(), "Timeout");
    assert_eq!(Error::Incomplete.description(), "Message is incomplete");
    assert_eq!(Error::Uri("bad uri".to_string()).description(), "bad uri");
    let io = std::io::Error::new(std::io::ErrorKind::Other, "socket closed");
    let e = Error::from(io);
    assert!(e.io_cause().is_some());
    assert_eq!(e.description(), "socket closed");
    assert!(Error::Header.io_cause().is_none());
}

#[test]
fn client_request_direction() {
    let c = client::Rtsp::new("rtsp://media.example.com:554/twister/audiotrack");
    assert_eq!(c.get_uri(), "rtsp://media.example.com:554/twister/audiotrack");
    assert!(c.request(Method::Play).is_ok());
    assert_eq!(c.request(Method::Redirect).err(), Some("Method Not Allowed."));
}

#[test]
fn server_request_direction() {
    let s = server::Rtsp::new("rtsp://media.example.com");
    assert_eq!(s.get_host(), "rtsp://media.example.com");
    assert!(s.request(Method::Redirect).is_ok());
    assert_eq!(s.request(Method::Play).err(), Some(""));
}

#[test]
fn response_new() {
    let _r: Response = Response::new();
}

#[test]
fn error_from_invalid_utf8() {
    let bad = String::from_utf8(vec![0x66, 0xff]).unwrap_err();
    let e = Error::from(bad);
    assert!(matches!(e, Error::Utf8(_)));
    assert!(e.io_cause().is_none());
    assert_eq!(
        e.description(),
        std::str::from_utf8(&[0x66, 0xff]).unwrap_err().to_string()
    );
}
