//! Vocabulary of the Real Time Streaming Protocol: methods, status codes,
//! status classes, protocol versions and header collections.
//!
//! An RTSP URL has the form
//! `( "rtsp:" | "rtspu:" ) "//" host [ ":" port ] [ abs_path ]`;
//! `rtsp://` runs over TCP and `rtspu://` over UDP, on port 554 by default,
//! e.g. `rtsp://media.example.com:554/twister/audiotrack`.
pub mod status;
pub mod method;
pub mod version;
pub mod header;
pub mod error;
pub mod text;
pub mod request;
pub mod response;
pub mod server;
pub mod client;
