use vstd::prelude::*;

verus! {

/// Result of the operations of this library that can fail.
pub type Result<T> = core::result::Result<T, Error>;

/// `std::io::Error`, carried opaquely inside `Error::Io`.
#[verifier::external_type_specification]
#[verifier::external_body]
pub struct ExIoError(std::io::Error);

/// `core::str::Utf8Error`, carried opaquely inside `Error::Utf8`.
#[verifier::external_type_specification]
#[verifier::external_body]
pub struct ExUtf8Error(core::str::Utf8Error);

/// `std::string::FromUtf8Error`, taken apart by `From` into its decoding error.
#[verifier::external_type_specification]
#[verifier::external_body]
pub struct ExFromUtf8Error(std::string::FromUtf8Error);

/// Relies on `FromUtf8Error::utf8_error`, which hands out the decoding error
/// that the conversion met; nothing is assumed of that error.
pub assume_specification[ std::string::FromUtf8Error::utf8_error ](
    e: &std::string::FromUtf8Error,
) -> core::str::Utf8Error;

/// The ways in which building or reading a protocol message can fail.
#[derive(Debug)]
#[non_exhaustive]
pub enum Error {
    /// The method token was empty.
    Method,
    /// The URI was refused, for the reason given.
    Uri(String),
    /// The protocol version was not understood.
    Version,
    /// A header line was malformed.
    Header,
    /// The message head is larger than allowed.
    TooLarge,
    /// The message ended early.
    Incomplete,
    /// The status line was malformed.
    Status,
    /// The peer did not answer in time.
    Timeout,
    /// The transport failed.
    Io(std::io::Error),
    /// Parsing a field as string failed
    Utf8(core::str::Utf8Error),
}

impl Error {
    /// The fixed description of each variant that holds no payload.
    pub open spec fn fixed_description(self) -> Option<Seq<char>> {
        match self {
            Error::Method => Some("Invalid Method specified"@),
            Error::Version => Some("Invalid RTSP version specified"@),
            Error::Header => Some("Invalid Header provided"@),
            Error::TooLarge => Some("Message head is too large"@),
            Error::Status => Some("Invalid Status provided"@),
            Error::Incomplete => Some("Message is incomplete"@),
            Error::Timeout => Some("Timeout"@),
            _ => None,
        }
    }

    /// A short text that describes the error.  A `Uri` error is described by
    /// the text it holds; an `Io` or `Utf8` error by that of the inner error.
    pub fn description(&self) -> (r: String)
        ensures
            self.fixed_description() matches Some(t) ==> r@ == t,
            self matches Error::Uri(s) ==> r@ == s@,
            self matches Error::Io(e) ==> vstd::string::to_string_from_display_ensures::<
                std::io::Error,
            >(&e, r),
            self matches Error::Utf8(e) ==> vstd::string::to_string_from_display_ensures::<
                core::str::Utf8Error,
            >(&e, r),
    {
        match self {
            Error::Method => "Invalid Method specified".to_owned(),
            Error::Version => "Invalid RTSP version specified".to_owned(),
            Error::Header => "Invalid Header provided".to_owned(),
            Error::TooLarge => "Message head is too large".to_owned(),
            Error::Status => "Invalid Status provided".to_owned(),
            Error::Incomplete => "Message is incomplete".to_owned(),
            Error::Timeout => "Timeout".to_owned(),
            Error::Uri(s) => s.clone(),
            Error::Io(e) => e.to_string(),
            Error::Utf8(e) => e.to_string(),
        }
    }

    /// The I/O error that caused this one, if any.
    pub fn io_cause(&self) -> (r: Option<&std::io::Error>)
        ensures
            match self {
                Error::Io(e) => r == Some(e),
                _ => r is None,
            },
    {
        match self {
            Error::Io(e) => Some(e),
            _ => None,
        }
    }
}

impl From<std::io::Error> for Error {
    fn from(err: std::io::Error) -> (r: Error)
        ensures
            r == Error::Io(err),
    {
        Error::Io(err)
    }
}

impl vstd::std_specs::convert::FromSpecImpl<std::io::Error> for Error {
    open spec fn obeys_from_spec() -> bool {
        true
    }

    open spec fn from_spec(err: std::io::Error) -> Error {
        Error::Io(err)
    }
}

impl From<core::str::Utf8Error> for Error {
    fn from(err: core::str::Utf8Error) -> (r: Error)
        ensures
            r == Error::Utf8(err),
    {
        Error::Utf8(err)
    }
}

impl vstd::std_specs::convert::FromSpecImpl<core::str::Utf8Error> for Error {
    open spec fn obeys_from_spec() -> bool {
        true
    }

    open spec fn from_spec(err: core::str::Utf8Error) -> Error {
        Error::Utf8(err)
    }
}

impl From<std::string::FromUtf8Error> for Error {
    fn from(err: std::string::FromUtf8Error) -> (r: Error)
        ensures
            r is Utf8,
    {
        Error::Utf8(err.utf8_error())
    }
}

impl vstd::std_specs::convert::FromSpecImpl<std::string::FromUtf8Error> for Error {
    open spec fn obeys_from_spec() -> bool {
        false
    }

    open spec fn from_spec(err: std::string::FromUtf8Error) -> Error {
        Error::Utf8(arbitrary())
    }
}

} // verus!
