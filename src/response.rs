use vstd::prelude::*;
use crate::header::{Entries, Headers};
use crate::method::Method;
use crate::status::StatusCode;
use crate::version::RtspVersion;

verus! {

/// A response: the method it answers, its status, the protocol version and
/// its headers.
#[derive(Debug)]
pub struct Response {
    method: Method,
    status: StatusCode,
    version: RtspVersion,
    headers: Headers,
}

impl Response {
    /// The method that the response answers.
    pub closed spec fn method(&self) -> Method {
        self.method
    }

    /// The status of the response.
    pub closed spec fn status(&self) -> StatusCode {
        self.status
    }

    /// The protocol version of the response.
    pub closed spec fn version(&self) -> RtspVersion {
        self.version
    }

    /// The headers of the response.
    pub closed spec fn headers(&self) -> Entries {
        self.headers@
    }

    /// The response that a message starts as: an answer to `OPTIONS` with
    /// status 200, version `RTSP/1.0` and no headers.
    pub open spec fn is_initial(&self) -> bool {
        &&& self.method() == Method::Options
        &&& self.status() == StatusCode::OK
        &&& self.version() == RtspVersion::Rtsp10
        &&& self.headers() == Seq::<(Seq<char>, Seq<char>)>::empty()
    }

    /// A response that answers `OPTIONS` with status 200, version
    /// `RTSP/1.0` and no headers.
    pub fn new() -> (r: Response)
        ensures
            r.is_initial(),
    {
        Response {
            method: Method::Options,
            status: StatusCode::OK,
            version: RtspVersion::Rtsp10,
            headers: Headers::new(),
        }
    }
}

} // verus!
