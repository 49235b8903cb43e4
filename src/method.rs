use vstd::prelude::*;
use crate::error::Error;
use crate::text::same_text;

verus! {

/// The verb of a request.
#[derive(Clone, PartialEq, Eq, Hash, Debug)]
pub enum Method {
    Options,
    Describe,
    Setup,
    Play,
    Pause,
    Record,
    Announce,
    Teardown,
    GetParameter,
    SetParameter,
    Redirect,
    /// Method extensions. An example would be `Method::Extension("FOO".to_string())`.
    Extension(String),
}

/// Whether `t` is the token of one of the standard methods.
pub open spec fn is_standard_token(t: Seq<char>) -> bool {
    ||| t == "OPTIONS"@
    ||| t == "DESCRIBE"@
    ||| t == "SETUP"@
    ||| t == "PLAY"@
    ||| t == "PAUSE"@
    ||| t == "RECORD"@
    ||| t == "ANNOUNCE"@
    ||| t == "TEARDOWN"@
    ||| t == "GET_PARAMETER"@
    ||| t == "SET_PARAMETER"@
    ||| t == "REDIRECT"@
}

impl Method {
    /// The token of the method on the wire.
    pub open spec fn token(self) -> Seq<char> {
        match self {
            Method::Options => "OPTIONS"@,
            Method::Describe => "DESCRIBE"@,
            Method::Setup => "SETUP"@,
            Method::Play => "PLAY"@,
            Method::Pause => "PAUSE"@,
            Method::Record => "RECORD"@,
            Method::Announce => "ANNOUNCE"@,
            Method::Teardown => "TEARDOWN"@,
            Method::GetParameter => "GET_PARAMETER"@,
            Method::SetParameter => "SET_PARAMETER"@,
            Method::Redirect => "REDIRECT"@,
            Method::Extension(s) => s@,
        }
    }

    /// A server may send this method to a client (RFC 2326, section 10).
    pub open spec fn server_to_client(self) -> bool {
        match self {
            Method::Options
            | Method::Announce
            | Method::GetParameter
            | Method::SetParameter
            | Method::Redirect
            | Method::Extension(..) => true,
            _ => false,
        }
    }

    /// A client may send this method to a server (RFC 2326, section 10).
    pub open spec fn client_to_server(self) -> bool {
        !(self is Redirect)
    }

    /// Whether a server may send this method to a client.
    pub fn is_s_to_c(&self) -> (r: bool)
        ensures
            r == self.server_to_client(),
    {
        match self {
            Method::Options
            | Method::Announce
            | Method::GetParameter
            | Method::SetParameter
            | Method::Redirect
            | Method::Extension(..) => true,
            _ => false,
        }
    }

    /// Whether a client may send this method to a server.
    pub fn is_c_to_s(&self) -> (r: bool)
        ensures
            r == self.client_to_server(),
    {
        match self {
            Method::Options
            | Method::Describe
            | Method::Announce
            | Method::GetParameter
            | Method::Pause
            | Method::Play
            | Method::Record
            | Method::Setup
            | Method::SetParameter
            | Method::Teardown
            | Method::Extension(..) => true,
            _ => false,
        }
    }

    /// The token of the method: the upper-case name of a standard method, or
    /// the text held by an extension.
    pub fn to_token(&self) -> (r: &str)
        ensures
            r@ == self.token(),
    {
        match self {
            Method::Options => "OPTIONS",
            Method::Describe => "DESCRIBE",
            Method::Setup => "SETUP",
            Method::Play => "PLAY",
            Method::Pause => "PAUSE",
            Method::Record => "RECORD",
            Method::Announce => "ANNOUNCE",
            Method::Teardown => "TEARDOWN",
            Method::GetParameter => "GET_PARAMETER",
            Method::SetParameter => "SET_PARAMETER",
            Method::Redirect => "REDIRECT",
            Method::Extension(s) => s.as_str(),
        }
    }

    /// The token of the method as an owned string.
    pub fn to_string(&self) -> (r: String)
        ensures
            r@ == self.token(),
    {
        self.to_token().to_owned()
    }

    /// Reads a method from its token.  The empty token is refused; a token
    /// that is exactly that of a standard method gives that method; any other
    /// gives an extension that holds the token unchanged.
    pub fn parse(s: &str) -> (r: Result<Method, Error>)
        ensures
            s@.len() == 0 <==> r is Err,
            r matches Err(e) ==> e is Method,
            r matches Ok(m) ==> m.token() == s@ && (m is Extension <==> !is_standard_token(s@)),
    {
        if s.is_empty() {
            Err(Error::Method)
        } else if same_text(s, "OPTIONS") {
            Ok(Method::Options)
        } else if same_text(s, "DESCRIBE") {
            Ok(Method::Describe)
        } else if same_text(s, "SETUP") {
            Ok(Method::Setup)
        } else if same_text(s, "PLAY") {
            Ok(Method::Play)
        } else if same_text(s, "PAUSE") {
            Ok(Method::Pause)
        } else if same_text(s, "RECORD") {
            Ok(Method::Record)
        } else if same_text(s, "ANNOUNCE") {
            Ok(Method::Announce)
        } else if same_text(s, "TEARDOWN") {
            Ok(Method::Teardown)
        } else if same_text(s, "GET_PARAMETER") {
            Ok(Method::GetParameter)
        } else if same_text(s, "SET_PARAMETER") {
            Ok(Method::SetParameter)
        } else if same_text(s, "REDIRECT") {
            Ok(Method::Redirect)
        } else {
            Ok(Method::Extension(s.to_owned()))
        }
    }
}

/// An extension method may travel either way.
pub proof fn lemma_extension_both_ways(s: String)
    ensures
        Method::Extension(s).client_to_server(),
        Method::Extension(s).server_to_client(),
{
}

impl AsRef<str> for Method {
    fn as_ref(&self) -> (r: &str)
        ensures
            r@ == self.token(),
    {
        self.to_token()
    }
}

impl core::str::FromStr for Method {
    type Err = Error;

    fn from_str(s: &str) -> (r: core::result::Result<Method, Error>)
        ensures
            s@.len() == 0 <==> r is Err,
            r matches Err(e) ==> e is Method,
            r matches Ok(m) ==> m.token() == s@ && (m is Extension <==> !is_standard_token(s@)),
    {
        Method::parse(s)
    }
}

impl Default for Method {
    fn default() -> (r: Method)
        ensures
            r == Method::Options,
    {
        Method::Options
    }
}

} // verus!
