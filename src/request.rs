use vstd::prelude::*;
use crate::header::Headers;
use crate::method::Method;
use crate::status::StatusCode;
use crate::version::RtspVersion;

verus! {

/// The parts that a request message is made of.
#[derive(Debug)]
#[allow(dead_code)]
pub struct Response {
    method: Method,
    status: StatusCode,
    version: RtspVersion,
    headers: Headers,
}

} // verus!
