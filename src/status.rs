use vstd::prelude::*;
use crate::method::Method;
use crate::text::{decimal, decimal_text};
use vstd::string::StringExecFns;

verus! {

/// The class of a status code, given by its hundreds digit (RFC 2326,
/// section 7.1.1).
#[derive(Debug, Clone, Copy, PartialEq, Eq, Structural, PartialOrd, Ord, Hash)]
pub enum StatusClass {
    /// 1xx (Informational): The request was received, continuing process
    Informational,
    /// 2xx (Success): The request was successfully received, understood, and accepted
    Success,
    /// 3xx (Redirection): Further action needs to be taken in order to complete the request
    Redirection,
    /// 4xx (Client Error): The request contains bad syntax or cannot be fulfilled
    ClientError,
    /// 5xx (Server Error): The server failed to fulfill an apparently valid request
    ServerError,
    /// A status code lower than 100 or higher than 599. These codes do no belong to any class.
    NoClass,
}

/// The class of the status number `n`.
pub open spec fn class_of(n: u16) -> StatusClass {
    if 100 <= n < 200 {
        StatusClass::Informational
    } else if 200 <= n < 300 {
        StatusClass::Success
    } else if 300 <= n < 400 {
        StatusClass::Redirection
    } else if 400 <= n < 500 {
        StatusClass::ClientError
    } else if 500 <= n < 600 {
        StatusClass::ServerError
    } else {
        StatusClass::NoClass
    }
}

/// The outcome of a request.  Two codes are equal, and ordered, by their
/// numbers alone.
#[derive(Debug, Clone, Copy)]
pub enum StatusCode {
    Continue, // 100
    OK, // 200
    Created, // 201
    LowOnStorageSpace, // 250
    MultipleChoices, // 300
    MovedPermanently, // 301
    MovedTemporarily, // 302
    SeeOther, // 303
    NotModified, // 304
    UseProxy, // 305
    BadRequest, // 400
    Unauthorized, // 401
    PaymentRequired, // 402
    Forbidden, // 403
    NotFound, // 404
    MethodNotAllowed, // 405
    NotAcceptable, // 406
    ProxyAuthenticationRequired, // 407
    RequestTimeout, // 408
    Gone, // 410
    LengthRequired, // 411
    PreconditionFailed, // 412
    RequestEntityTooLarge, // 413
    RequestURITooLarge, // 414
    UnsupportedMediaType, // 415
    ParameterNotUnderstood, // 451
    ConferenceNotFound, // 452
    NotEnoughBandwidth, // 453
    SessionNotFound, // 454
    MethodNotValidInThisState, // 455
    HeaderFieldNotValidForResource, // 456
    InvalidRange, // 457
    ParameterIsReadOnly, // 458
    AggregateOperationNotAllowed, // 459
    OnlyAggregateOperationAllowed, // 460
    UnsupportedTransport, // 461
    DestinationUnreachable, // 462
    InternalServerError, // 500
    NotImplemented, // 501
    BadGateway, // 502
    ServiceUnavailable, // 503
    GatewayTimeout, // 504
    RTSPVersionNotSupported, // 505
    OptionNotSupported, // 551
    /// Extension Code, 3DIGIT; Reason-Phrase = *<TEXT, excluding CR, LF>
    Extension(u16),
}

/// Whether `n` is the number of one of the standard status codes.
pub open spec fn is_standard_number(n: u16) -> bool {
    ||| n == 100
    ||| n == 200
    ||| n == 201
    ||| n == 250
    ||| n == 300
    ||| n == 301
    ||| n == 302
    ||| n == 303
    ||| n == 304
    ||| n == 305
    ||| n == 400
    ||| n == 401
    ||| n == 402
    ||| n == 403
    ||| n == 404
    ||| n == 405
    ||| n == 406
    ||| n == 407
    ||| n == 408
    ||| n == 410
    ||| n == 411
    ||| n == 412
    ||| n == 413
    ||| n == 414
    ||| n == 415
    ||| n == 451
    ||| n == 452
    ||| n == 453
    ||| n == 454
    ||| n == 455
    ||| n == 456
    ||| n == 457
    ||| n == 458
    ||| n == 459
    ||| n == 460
    ||| n == 461
    ||| n == 462
    ||| n == 500
    ||| n == 501
    ||| n == 502
    ||| n == 503
    ||| n == 504
    ||| n == 505
    ||| n == 551
}

/// The status code that stands for the number `n`.
pub open spec fn code_of(n: u16) -> StatusCode {
    match n {
        100 => StatusCode::Continue,
        200 => StatusCode::OK,
        201 => StatusCode::Created,
        250 => StatusCode::LowOnStorageSpace,
        300 => StatusCode::MultipleChoices,
        301 => StatusCode::MovedPermanently,
        302 => StatusCode::MovedTemporarily,
        303 => StatusCode::SeeOther,
        304 => StatusCode::NotModified,
        305 => StatusCode::UseProxy,
        400 => StatusCode::BadRequest,
        401 => StatusCode::Unauthorized,
        402 => StatusCode::PaymentRequired,
        403 => StatusCode::Forbidden,
        404 => StatusCode::NotFound,
        405 => StatusCode::MethodNotAllowed,
        406 => StatusCode::NotAcceptable,
        407 => StatusCode::ProxyAuthenticationRequired,
        408 => StatusCode::RequestTimeout,
        410 => StatusCode::Gone,
        411 => StatusCode::LengthRequired,
        412 => StatusCode::PreconditionFailed,
        413 => StatusCode::RequestEntityTooLarge,
        414 => StatusCode::RequestURITooLarge,
        415 => StatusCode::UnsupportedMediaType,
        451 => StatusCode::ParameterNotUnderstood,
        452 => StatusCode::ConferenceNotFound,
        453 => StatusCode::NotEnoughBandwidth,
        454 => StatusCode::SessionNotFound,
        455 => StatusCode::MethodNotValidInThisState,
        456 => StatusCode::HeaderFieldNotValidForResource,
        457 => StatusCode::InvalidRange,
        458 => StatusCode::ParameterIsReadOnly,
        459 => StatusCode::AggregateOperationNotAllowed,
        460 => StatusCode::OnlyAggregateOperationAllowed,
        461 => StatusCode::UnsupportedTransport,
        462 => StatusCode::DestinationUnreachable,
        500 => StatusCode::InternalServerError,
        501 => StatusCode::NotImplemented,
        502 => StatusCode::BadGateway,
        503 => StatusCode::ServiceUnavailable,
        504 => StatusCode::GatewayTimeout,
        505 => StatusCode::RTSPVersionNotSupported,
        551 => StatusCode::OptionNotSupported,
        _ => StatusCode::Extension(n),
    }
}

impl StatusCode {
    /// The number of the status code.
    pub open spec fn number(self) -> u16 {
        match self {
            StatusCode::Continue => 100,
            StatusCode::OK => 200,
            StatusCode::Created => 201,
            StatusCode::LowOnStorageSpace => 250,
            StatusCode::MultipleChoices => 300,
            StatusCode::MovedPermanently => 301,
            StatusCode::MovedTemporarily => 302,
            StatusCode::SeeOther => 303,
            StatusCode::NotModified => 304,
            StatusCode::UseProxy => 305,
            StatusCode::BadRequest => 400,
            StatusCode::Unauthorized => 401,
            StatusCode::PaymentRequired => 402,
            StatusCode::Forbidden => 403,
            StatusCode::NotFound => 404,
            StatusCode::MethodNotAllowed => 405,
            StatusCode::NotAcceptable => 406,
            StatusCode::ProxyAuthenticationRequired => 407,
            StatusCode::RequestTimeout => 408,
            StatusCode::Gone => 410,
            StatusCode::LengthRequired => 411,
            StatusCode::PreconditionFailed => 412,
            StatusCode::RequestEntityTooLarge => 413,
            StatusCode::RequestURITooLarge => 414,
            StatusCode::UnsupportedMediaType => 415,
            StatusCode::ParameterNotUnderstood => 451,
            StatusCode::ConferenceNotFound => 452,
            StatusCode::NotEnoughBandwidth => 453,
            StatusCode::SessionNotFound => 454,
            StatusCode::MethodNotValidInThisState => 455,
            StatusCode::HeaderFieldNotValidForResource => 456,
            StatusCode::InvalidRange => 457,
            StatusCode::ParameterIsReadOnly => 458,
            StatusCode::AggregateOperationNotAllowed => 459,
            StatusCode::OnlyAggregateOperationAllowed => 460,
            StatusCode::UnsupportedTransport => 461,
            StatusCode::DestinationUnreachable => 462,
            StatusCode::InternalServerError => 500,
            StatusCode::NotImplemented => 501,
            StatusCode::BadGateway => 502,
            StatusCode::ServiceUnavailable => 503,
            StatusCode::GatewayTimeout => 504,
            StatusCode::RTSPVersionNotSupported => 505,
            StatusCode::OptionNotSupported => 551,
            StatusCode::Extension(n) => n,
        }
    }

    /// The reason phrase that the protocol gives to a standard status code.
    pub open spec fn reason(self) -> Option<Seq<char>> {
        match self {
            StatusCode::Continue => Some("Continue"@),
            StatusCode::OK => Some("OK"@),
            StatusCode::Created => Some("Created"@),
            StatusCode::LowOnStorageSpace => Some("Low on Storage Space"@),
            StatusCode::MultipleChoices => Some("Multiple Choices"@),
            StatusCode::MovedPermanently => Some("Moved Permanently"@),
            StatusCode::MovedTemporarily => Some("Moved Temporarily"@),
            StatusCode::SeeOther => Some("See Other"@),
            StatusCode::NotModified => Some("Not Modified"@),
            StatusCode::UseProxy => Some("Use Proxy"@),
            StatusCode::BadRequest => Some("Bad Request"@),
            StatusCode::Unauthorized => Some("Unauthorized"@),
            StatusCode::PaymentRequired => Some("Payment Required"@),
            StatusCode::Forbidden => Some("Forbidden"@),
            StatusCode::NotFound => Some("Not Found"@),
            StatusCode::MethodNotAllowed => Some("Method Not Allowed"@),
            StatusCode::NotAcceptable => Some("Not Acceptable"@),
            StatusCode::ProxyAuthenticationRequired => Some("Proxy Authentication Required"@),
            StatusCode::RequestTimeout => Some("Request Time-out"@),
            StatusCode::Gone => Some("Gone"@),
            StatusCode::LengthRequired => Some("Length Required"@),
            StatusCode::PreconditionFailed => Some("Precondition Failed"@),
            StatusCode::RequestEntityTooLarge => Some("Request Entity Too Large"@),
            StatusCode::RequestURITooLarge => Some("Request-URI Too Large"@),
            StatusCode::UnsupportedMediaType => Some("Unsupported Media Type"@),
            StatusCode::ParameterNotUnderstood => Some("Parameter Not Understood"@),
            StatusCode::ConferenceNotFound => Some("Conference Not Found"@),
            StatusCode::NotEnoughBandwidth => Some("Not Enough Bandwidth"@),
            StatusCode::SessionNotFound => Some("Session Not Found"@),
            StatusCode::MethodNotValidInThisState => Some("Method Not Valid in This State"@),
            StatusCode::HeaderFieldNotValidForResource => Some("Header Field Not Valid for Resource"@),
            StatusCode::InvalidRange => Some("Invalid Range"@),
            StatusCode::ParameterIsReadOnly => Some("Parameter Is Read-Only"@),
            StatusCode::AggregateOperationNotAllowed => Some("Aggregate operation not allowed"@),
            StatusCode::OnlyAggregateOperationAllowed => Some("Only aggregate operation allowed"@),
            StatusCode::UnsupportedTransport => Some("Unsupported transport"@),
            StatusCode::DestinationUnreachable => Some("Destination unreachable"@),
            StatusCode::InternalServerError => Some("Internal Server Error"@),
            StatusCode::NotImplemented => Some("Not Implemented"@),
            StatusCode::BadGateway => Some("Bad Gateway"@),
            StatusCode::ServiceUnavailable => Some("Service Unavailable"@),
            StatusCode::GatewayTimeout => Some("Gateway Time-out"@),
            StatusCode::RTSPVersionNotSupported => Some("RTSP Version not supported"@),
            StatusCode::OptionNotSupported => Some("Option not supported"@),
            StatusCode::Extension(..) => None,
        }
    }

    /// The class of the status code.
    pub open spec fn class_spec(self) -> StatusClass {
        class_of(self.number())
    }

    /// Whether the status code is a fitting answer to a request with `method`.
    /// A few codes only answer the methods that the protocol names for them;
    /// every other code answers any method.
    pub open spec fn safe_for(self, method: Method) -> bool {
        match self {
            StatusCode::Created => method is Record,
            StatusCode::LowOnStorageSpace => method is Record,
            StatusCode::PreconditionFailed => method is Describe || method is Setup,
            StatusCode::ParameterNotUnderstood => method is Setup,
            StatusCode::ConferenceNotFound => method is Setup,
            StatusCode::NotEnoughBandwidth => method is Setup,
            StatusCode::InvalidRange => method is Play,
            StatusCode::ParameterIsReadOnly => method is SetParameter,
            _ => true,
        }
    }

    /// The status line text of the code: its number, a space and its reason
    /// phrase, or `<unknown status code>` where it has none.
    pub open spec fn text(self) -> Seq<char> {
        decimal(self.number() as nat) + " "@ + match self.reason() {
            Some(t) => t,
            None => "<unknown status code>"@,
        }
    }

    /// The status code that stands for the number `n`: a standard code where
    /// there is one, an extension otherwise.
    pub fn from_u16(n: u16) -> (r: StatusCode)
        ensures
            r == code_of(n),
            r.number() == n,
            r is Extension <==> !is_standard_number(n),
    {
        match n {
            100 => StatusCode::Continue,
            200 => StatusCode::OK,
            201 => StatusCode::Created,
            250 => StatusCode::LowOnStorageSpace,
            300 => StatusCode::MultipleChoices,
            301 => StatusCode::MovedPermanently,
            302 => StatusCode::MovedTemporarily,
            303 => StatusCode::SeeOther,
            304 => StatusCode::NotModified,
            305 => StatusCode::UseProxy,
            400 => StatusCode::BadRequest,
            401 => StatusCode::Unauthorized,
            402 => StatusCode::PaymentRequired,
            403 => StatusCode::Forbidden,
            404 => StatusCode::NotFound,
            405 => StatusCode::MethodNotAllowed,
            406 => StatusCode::NotAcceptable,
            407 => StatusCode::ProxyAuthenticationRequired,
            408 => StatusCode::RequestTimeout,
            410 => StatusCode::Gone,
            411 => StatusCode::LengthRequired,
            412 => StatusCode::PreconditionFailed,
            413 => StatusCode::RequestEntityTooLarge,
            414 => StatusCode::RequestURITooLarge,
            415 => StatusCode::UnsupportedMediaType,
            451 => StatusCode::ParameterNotUnderstood,
            452 => StatusCode::ConferenceNotFound,
            453 => StatusCode::NotEnoughBandwidth,
            454 => StatusCode::SessionNotFound,
            455 => StatusCode::MethodNotValidInThisState,
            456 => StatusCode::HeaderFieldNotValidForResource,
            457 => StatusCode::InvalidRange,
            458 => StatusCode::ParameterIsReadOnly,
            459 => StatusCode::AggregateOperationNotAllowed,
            460 => StatusCode::OnlyAggregateOperationAllowed,
            461 => StatusCode::UnsupportedTransport,
            462 => StatusCode::DestinationUnreachable,
            500 => StatusCode::InternalServerError,
            501 => StatusCode::NotImplemented,
            502 => StatusCode::BadGateway,
            503 => StatusCode::ServiceUnavailable,
            504 => StatusCode::GatewayTimeout,
            505 => StatusCode::RTSPVersionNotSupported,
            551 => StatusCode::OptionNotSupported,
            _ => StatusCode::Extension(n),
        }
    }

    /// The number of the status code.
    pub fn to_u16(&self) -> (r: u16)
        ensures
            r == self.number(),
    {
        match *self {
            StatusCode::Continue => 100,
            StatusCode::OK => 200,
            StatusCode::Created => 201,
            StatusCode::LowOnStorageSpace => 250,
            StatusCode::MultipleChoices => 300,
            StatusCode::MovedPermanently => 301,
            StatusCode::MovedTemporarily => 302,
            StatusCode::SeeOther => 303,
            StatusCode::NotModified => 304,
            StatusCode::UseProxy => 305,
            StatusCode::BadRequest => 400,
            StatusCode::Unauthorized => 401,
            StatusCode::PaymentRequired => 402,
            StatusCode::Forbidden => 403,
            StatusCode::NotFound => 404,
            StatusCode::MethodNotAllowed => 405,
            StatusCode::NotAcceptable => 406,
            StatusCode::ProxyAuthenticationRequired => 407,
            StatusCode::RequestTimeout => 408,
            StatusCode::Gone => 410,
            StatusCode::LengthRequired => 411,
            StatusCode::PreconditionFailed => 412,
            StatusCode::RequestEntityTooLarge => 413,
            StatusCode::RequestURITooLarge => 414,
            StatusCode::UnsupportedMediaType => 415,
            StatusCode::ParameterNotUnderstood => 451,
            StatusCode::ConferenceNotFound => 452,
            StatusCode::NotEnoughBandwidth => 453,
            StatusCode::SessionNotFound => 454,
            StatusCode::MethodNotValidInThisState => 455,
            StatusCode::HeaderFieldNotValidForResource => 456,
            StatusCode::InvalidRange => 457,
            StatusCode::ParameterIsReadOnly => 458,
            StatusCode::AggregateOperationNotAllowed => 459,
            StatusCode::OnlyAggregateOperationAllowed => 460,
            StatusCode::UnsupportedTransport => 461,
            StatusCode::DestinationUnreachable => 462,
            StatusCode::InternalServerError => 500,
            StatusCode::NotImplemented => 501,
            StatusCode::BadGateway => 502,
            StatusCode::ServiceUnavailable => 503,
            StatusCode::GatewayTimeout => 504,
            StatusCode::RTSPVersionNotSupported => 505,
            StatusCode::OptionNotSupported => 551,
            StatusCode::Extension(n) => n,
        }
    }

    /// The reason phrase of a standard status code; none for an extension.
    pub fn canonical_reason(&self) -> (r: Option<&'static str>)
        ensures
            r is None <==> self is Extension,
            r matches Some(t) ==> self.reason() == Some(t@),
    {
        match *self {
            StatusCode::Continue => Some("Continue"),
            StatusCode::OK => Some("OK"),
            StatusCode::Created => Some("Created"),
            StatusCode::LowOnStorageSpace => Some("Low on Storage Space"),
            StatusCode::MultipleChoices => Some("Multiple Choices"),
            StatusCode::MovedPermanently => Some("Moved Permanently"),
            StatusCode::MovedTemporarily => Some("Moved Temporarily"),
            StatusCode::SeeOther => Some("See Other"),
            StatusCode::NotModified => Some("Not Modified"),
            StatusCode::UseProxy => Some("Use Proxy"),
            StatusCode::BadRequest => Some("Bad Request"),
            StatusCode::Unauthorized => Some("Unauthorized"),
            StatusCode::PaymentRequired => Some("Payment Required"),
            StatusCode::Forbidden => Some("Forbidden"),
            StatusCode::NotFound => Some("Not Found"),
            StatusCode::MethodNotAllowed => Some("Method Not Allowed"),
            StatusCode::NotAcceptable => Some("Not Acceptable"),
            StatusCode::ProxyAuthenticationRequired => Some("Proxy Authentication Required"),
            StatusCode::RequestTimeout => Some("Request Time-out"),
            StatusCode::Gone => Some("Gone"),
            StatusCode::LengthRequired => Some("Length Required"),
            StatusCode::PreconditionFailed => Some("Precondition Failed"),
            StatusCode::RequestEntityTooLarge => Some("Request Entity Too Large"),
            StatusCode::RequestURITooLarge => Some("Request-URI Too Large"),
            StatusCode::UnsupportedMediaType => Some("Unsupported Media Type"),
            StatusCode::ParameterNotUnderstood => Some("Parameter Not Understood"),
            StatusCode::ConferenceNotFound => Some("Conference Not Found"),
            StatusCode::NotEnoughBandwidth => Some("Not Enough Bandwidth"),
            StatusCode::SessionNotFound => Some("Session Not Found"),
            StatusCode::MethodNotValidInThisState => Some("Method Not Valid in This State"),
            StatusCode::HeaderFieldNotValidForResource => Some("Header Field Not Valid for Resource"),
            StatusCode::InvalidRange => Some("Invalid Range"),
            StatusCode::ParameterIsReadOnly => Some("Parameter Is Read-Only"),
            StatusCode::AggregateOperationNotAllowed => Some("Aggregate operation not allowed"),
            StatusCode::OnlyAggregateOperationAllowed => Some("Only aggregate operation allowed"),
            StatusCode::UnsupportedTransport => Some("Unsupported transport"),
            StatusCode::DestinationUnreachable => Some("Destination unreachable"),
            StatusCode::InternalServerError => Some("Internal Server Error"),
            StatusCode::NotImplemented => Some("Not Implemented"),
            StatusCode::BadGateway => Some("Bad Gateway"),
            StatusCode::ServiceUnavailable => Some("Service Unavailable"),
            StatusCode::GatewayTimeout => Some("Gateway Time-out"),
            StatusCode::RTSPVersionNotSupported => Some("RTSP Version not supported"),
            StatusCode::OptionNotSupported => Some("Option not supported"),
            StatusCode::Extension(..) => None,
        }
    }

    /// The class of the status code, by the hundreds of its number.
    pub fn class(&self) -> (r: StatusClass)
        ensures
            r == self.class_spec(),
    {
        let n = self.to_u16();
        if 100 <= n && n < 200 {
            StatusClass::Informational
        } else if 200 <= n && n < 300 {
            StatusClass::Success
        } else if 300 <= n && n < 400 {
            StatusClass::Redirection
        } else if 400 <= n && n < 500 {
            StatusClass::ClientError
        } else if 500 <= n && n < 600 {
            StatusClass::ServerError
        } else {
            StatusClass::NoClass
        }
    }

    /// Whether the status code is a fitting answer to a request with `method`.
    pub fn is_safe_for_method(&self, method: Method) -> (r: bool)
        ensures
            r == self.safe_for(method),
    {
        match *self {
            StatusCode::Continue => true,
            StatusCode::OK => true,
            StatusCode::Created => match method {
                Method::Record => true,
                _ => false,
            },
            StatusCode::LowOnStorageSpace => match method {
                Method::Record => true,
                _ => false,
            },
            StatusCode::MultipleChoices => true,
            StatusCode::MovedPermanently => true,
            StatusCode::MovedTemporarily => true,
            StatusCode::SeeOther => true,
            StatusCode::NotModified => true,
            StatusCode::UseProxy => true,
            StatusCode::BadRequest => true,
            StatusCode::Unauthorized => true,
            StatusCode::PaymentRequired => true,
            StatusCode::Forbidden => true,
            StatusCode::NotFound => true,
            StatusCode::MethodNotAllowed => true,
            StatusCode::NotAcceptable => true,
            StatusCode::ProxyAuthenticationRequired => true,
            StatusCode::RequestTimeout => true,
            StatusCode::Gone => true,
            StatusCode::LengthRequired => true,
            StatusCode::PreconditionFailed => match method {
                Method::Describe | Method::Setup => true,
                _ => false,
            },
            StatusCode::RequestEntityTooLarge => true,
            StatusCode::RequestURITooLarge => true,
            StatusCode::UnsupportedMediaType => true,
            StatusCode::ParameterNotUnderstood => match method {
                Method::Setup => true,
                _ => false,
            },
            StatusCode::ConferenceNotFound => match method {
                Method::Setup => true,
                _ => false,
            },
            StatusCode::NotEnoughBandwidth => match method {
                Method::Setup => true,
                _ => false,
            },
            StatusCode::SessionNotFound => true,
            StatusCode::MethodNotValidInThisState => true,
            StatusCode::HeaderFieldNotValidForResource => true,
            StatusCode::InvalidRange => match method {
                Method::Play => true,
                _ => false,
            },
            StatusCode::ParameterIsReadOnly => match method {
                Method::SetParameter => true,
                _ => false,
            },
            StatusCode::AggregateOperationNotAllowed => true,
            StatusCode::OnlyAggregateOperationAllowed => true,
            StatusCode::UnsupportedTransport => true,
            StatusCode::DestinationUnreachable => true,
            StatusCode::InternalServerError => true,
            StatusCode::NotImplemented => true,
            StatusCode::BadGateway => true,
            StatusCode::ServiceUnavailable => true,
            StatusCode::GatewayTimeout => true,
            StatusCode::RTSPVersionNotSupported => true,
            StatusCode::OptionNotSupported => true,
            StatusCode::Extension(..) => true,
        }
    }

    /// Whether the code is of the class `Informational`.
    pub fn is_informational(&self) -> (r: bool)
        ensures
            r == (self.class_spec() == StatusClass::Informational),
    {
        self.class() == StatusClass::Informational
    }

    /// Whether the code is of the class `Success`.
    pub fn is_success(&self) -> (r: bool)
        ensures
            r == (self.class_spec() == StatusClass::Success),
    {
        self.class() == StatusClass::Success
    }

    /// Whether the code is of the class `Redirection`.
    pub fn is_redirection(&self) -> (r: bool)
        ensures
            r == (self.class_spec() == StatusClass::Redirection),
    {
        self.class() == StatusClass::Redirection
    }

    /// Whether the code is of the class `ClientError`.
    pub fn is_client_error(&self) -> (r: bool)
        ensures
            r == (self.class_spec() == StatusClass::ClientError),
    {
        self.class() == StatusClass::ClientError
    }

    /// Whether the code is of the class `ServerError`.
    pub fn is_server_error(&self) -> (r: bool)
        ensures
            r == (self.class_spec() == StatusClass::ServerError),
    {
        self.class() == StatusClass::ServerError
    }

    /// Whether the code is of the class `NoClass`.
    pub fn is_strange_status(&self) -> (r: bool)
        ensures
            r == (self.class_spec() == StatusClass::NoClass),
    {
        self.class() == StatusClass::NoClass
    }

    /// Renders the status line text of the code, e.g. `404 Not Found`.
    pub fn to_string(&self) -> (r: String)
        ensures
            r@ == self.text(),
    {
        let mut r = decimal_text(self.to_u16());
        r.append(" ");
        match self.canonical_reason() {
            Some(t) => r.append(t),
            None => r.append("<unknown status code>"),
        }
        r
    }
}

/// Every standard number is read as a standard code that gives the number back.
pub proof fn lemma_standard_round_trip(n: u16)
    requires
        is_standard_number(n),
    ensures
        code_of(n).number() == n,
        !(code_of(n) is Extension),
{
}

/// Every standard code is what its own number is read as.
pub proof fn lemma_code_round_trip(c: StatusCode)
    requires
        !(c is Extension),
    ensures
        code_of(c.number()) == c,
        is_standard_number(c.number()),
{
}

/// A number outside the standard table is read as an extension that holds it
/// and has no reason phrase.
pub proof fn lemma_extension_fallback(n: u16)
    requires
        !is_standard_number(n),
    ensures
        code_of(n) == StatusCode::Extension(n),
        code_of(n).number() == n,
        code_of(n).reason() is None,
{
}

impl PartialEq for StatusCode {
    fn eq(&self, other: &StatusCode) -> (r: bool) {
        self.to_u16() == other.to_u16()
    }
}

impl vstd::std_specs::cmp::PartialEqSpecImpl for StatusCode {
    open spec fn obeys_eq_spec() -> bool {
        true
    }

    open spec fn eq_spec(&self, other: &StatusCode) -> bool {
        self.number() == other.number()
    }
}

impl Eq for StatusCode {
}

impl PartialOrd for StatusCode {
    fn partial_cmp(&self, other: &StatusCode) -> (r: Option<core::cmp::Ordering>) {
        let a = self.to_u16();
        let b = other.to_u16();
        if a < b {
            Some(core::cmp::Ordering::Less)
        } else if a > b {
            Some(core::cmp::Ordering::Greater)
        } else {
            Some(core::cmp::Ordering::Equal)
        }
    }
}

impl vstd::std_specs::cmp::PartialOrdSpecImpl for StatusCode {
    open spec fn obeys_partial_cmp_spec() -> bool {
        true
    }

    open spec fn partial_cmp_spec(&self, other: &StatusCode) -> Option<core::cmp::Ordering> {
        if self.number() < other.number() {
            Some(core::cmp::Ordering::Less)
        } else if self.number() > other.number() {
            Some(core::cmp::Ordering::Greater)
        } else {
            Some(core::cmp::Ordering::Equal)
        }
    }
}

/// Relies on `u16`'s `Hash::hash`, which feeds the number to the hasher;
/// nothing is assumed of the hasher's state afterwards.
pub assume_specification<H: core::hash::Hasher>[ <u16 as core::hash::Hash>::hash::<H> ](
    data: &u16,
    state: &mut H,
);

impl core::hash::Hash for StatusCode {
    fn hash<H: core::hash::Hasher>(&self, state: &mut H) {
        self.to_u16().hash(state)
    }
}

impl Default for StatusCode {
    fn default() -> (r: StatusCode)
        ensures
            r == StatusCode::OK,
    {
        StatusCode::OK
    }
}

} // verus!
