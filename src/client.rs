use vstd::prelude::*;
use crate::method::Method;
use crate::response::Response;

verus! {

/// An endpoint reached over TCP (`rtsp://`).
#[derive(Debug)]
pub struct Rtsp {
    uri: String,
    session: Option<String>,
}

/// An endpoint reached over UDP (`rtspu://`).
#[derive(Debug)]
#[allow(dead_code)]
pub struct Rtspu {
    uri: String,
    session: Option<String>,
}

impl Rtsp {
    /// The URI of the endpoint.
    pub closed spec fn uri(&self) -> Seq<char> {
        self.uri@
    }

    /// The session of the endpoint, if one was set up.
    pub closed spec fn session(&self) -> Option<Seq<char>> {
        match self.session {
            Some(s) => Some(s@),
            None => None,
        }
    }

    /// An endpoint at `uri`, with no session yet.
    pub fn new(uri: &str) -> (r: Rtsp)
        ensures
            r.uri() == uri@,
            r.session() is None,
    {
        Rtsp { uri: uri.to_owned(), session: None }
    }

    /// The URI of the endpoint.
    pub fn get_uri(&self) -> (r: String)
        ensures
            r@ == self.uri(),
    {
        self.uri.clone()
    }

    /// Answers a request with `method` when a client may send that method, and
    /// refuses it otherwise.
    pub fn request(&self, method: Method) -> (r: Result<Response, &'static str>)
        ensures
            r is Ok <==> method.client_to_server(),
            r matches Ok(resp) ==> resp.is_initial(),
            r matches Err(e) ==> e@ == "Method Not Allowed."@,
    {
        if !method.is_c_to_s() {
            return Err("Method Not Allowed.");
        }
        Ok(Response::new())
    }
}

} // verus!
