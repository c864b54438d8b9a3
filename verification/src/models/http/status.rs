//! Response statuses: the standard codes and their reason phrases.

use vstd::prelude::*;

verus! {

/// A response status. Each stands for one numeric code and one fixed reason
/// phrase.
#[derive(Debug, Clone, Copy, PartialEq, Eq, Hash, Structural)]
pub enum HTTPStatus {
    // 1xx
    Continue,
    SwitchingProtocols,
    Processing,
    EarlyHints,
    // 2xx
    OK,
    Created,
    Accepted,
    NonAuthoritativeInformation,
    NoContent,
    ResetContent,
    PartialContent,
    MultiStatus,
    AlreadyReported,
    ImUsed,
    // 3xx
    MultipleChoices,
    MovedPermanently,
    Found,
    SeeOther,
    NotModified,
    UseProxy,
    TemporaryRedirect,
    PermanentRedirect,
    // 4xx
    BadRequest,
    Unauthorized,
    PaymentRequired,
    Forbidden,
    NotFound,
    MethodNotAllowed,
    NotAcceptable,
    ProxyAuthenticationRequired,
    RequestTimeout,
    Conflict,
    Gone,
    LengthRequired,
    PreconditionFailed,
    PayloadTooLarge,
    UriTooLong,
    UnsupportedMediaType,
    RangeNotSatisfiable,
    ExpectationFailed,
    ImATeapot,
    MisdirectedRequest,
    UnprocessableEntity,
    Locked,
    FailedDependency,
    TooEarly,
    UpgradeRequired,
    PreconditionRequired,
    TooManyRequests,
    RequestHeaderFieldsTooLarge,
    UnavailableForLegalReasons,
    // 5xx
    InternalServerError,
    NotImplemented,
    BadGateway,
    ServiceUnavailable,
    GatewayTimeout,
    HttpVersionNotSupported,
    VariantAlsoNegotiates,
    InsufficientStorage,
    LoopDetected,
    NotExtended,
    NetworkAuthenticationRequired,
}

impl HTTPStatus {
    /// The numeric code of the status.
    pub open spec fn spec_code(&self) -> u16 {
        match self {
            HTTPStatus::Continue => 100,
            HTTPStatus::SwitchingProtocols => 101,
            HTTPStatus::Processing => 102,
            HTTPStatus::EarlyHints => 103,
            HTTPStatus::OK => 200,
            HTTPStatus::Created => 201,
            HTTPStatus::Accepted => 202,
            HTTPStatus::NonAuthoritativeInformation => 203,
            HTTPStatus::NoContent => 204,
            HTTPStatus::ResetContent => 205,
            HTTPStatus::PartialContent => 206,
            HTTPStatus::MultiStatus => 207,
            HTTPStatus::AlreadyReported => 208,
            HTTPStatus::ImUsed => 226,
            HTTPStatus::MultipleChoices => 300,
            HTTPStatus::MovedPermanently => 301,
            HTTPStatus::Found => 302,
            HTTPStatus::SeeOther => 303,
            HTTPStatus::NotModified => 304,
            HTTPStatus::UseProxy => 305,
            HTTPStatus::TemporaryRedirect => 307,
            HTTPStatus::PermanentRedirect => 308,
            HTTPStatus::BadRequest => 400,
            HTTPStatus::Unauthorized => 401,
            HTTPStatus::PaymentRequired => 402,
            HTTPStatus::Forbidden => 403,
            HTTPStatus::NotFound => 404,
            HTTPStatus::MethodNotAllowed => 405,
            HTTPStatus::NotAcceptable => 406,
            HTTPStatus::ProxyAuthenticationRequired => 407,
            HTTPStatus::RequestTimeout => 408,
            HTTPStatus::Conflict => 409,
            HTTPStatus::Gone => 410,
            HTTPStatus::LengthRequired => 411,
            HTTPStatus::PreconditionFailed => 412,
            HTTPStatus::PayloadTooLarge => 413,
            HTTPStatus::UriTooLong => 414,
            HTTPStatus::UnsupportedMediaType => 415,
            HTTPStatus::RangeNotSatisfiable => 416,
            HTTPStatus::ExpectationFailed => 417,
            HTTPStatus::ImATeapot => 418,
            HTTPStatus::MisdirectedRequest => 421,
            HTTPStatus::UnprocessableEntity => 422,
            HTTPStatus::Locked => 423,
            HTTPStatus::FailedDependency => 424,
            HTTPStatus::TooEarly => 425,
            HTTPStatus::UpgradeRequired => 426,
            HTTPStatus::PreconditionRequired => 428,
            HTTPStatus::TooManyRequests => 429,
            HTTPStatus::RequestHeaderFieldsTooLarge => 431,
            HTTPStatus::UnavailableForLegalReasons => 451,
            HTTPStatus::InternalServerError => 500,
            HTTPStatus::NotImplemented => 501,
            HTTPStatus::BadGateway => 502,
            HTTPStatus::ServiceUnavailable => 503,
            HTTPStatus::GatewayTimeout => 504,
            HTTPStatus::HttpVersionNotSupported => 505,
            HTTPStatus::VariantAlsoNegotiates => 506,
            HTTPStatus::InsufficientStorage => 507,
            HTTPStatus::LoopDetected => 508,
            HTTPStatus::NotExtended => 510,
            HTTPStatus::NetworkAuthenticationRequired => 511,
        }
    }

    /// The reason phrase of the status.
    pub open spec fn reason(&self) -> Seq<char> {
        match self {
            HTTPStatus::Continue => "Continue"@,
            HTTPStatus::SwitchingProtocols => "Switching Protocols"@,
            HTTPStatus::Processing => "Processing"@,
            HTTPStatus::EarlyHints => "Early Hints"@,
            HTTPStatus::OK => "OK"@,
            HTTPStatus::Created => "Created"@,
            HTTPStatus::Accepted => "Accepted"@,
            HTTPStatus::NonAuthoritativeInformation => "Non Authoritative Information"@,
            HTTPStatus::NoContent => "No Content"@,
            HTTPStatus::ResetContent => "Reset Content"@,
            HTTPStatus::PartialContent => "Partial Content"@,
            HTTPStatus::MultiStatus => "Multi-Status"@,
            HTTPStatus::AlreadyReported => "Already Reported"@,
            HTTPStatus::ImUsed => "IM Used"@,
            HTTPStatus::MultipleChoices => "Multiple Choices"@,
            HTTPStatus::MovedPermanently => "Moved Permanently"@,
            HTTPStatus::Found => "Found"@,
            HTTPStatus::SeeOther => "See Other"@,
            HTTPStatus::NotModified => "Not Modified"@,
            HTTPStatus::UseProxy => "Use Proxy"@,
            HTTPStatus::TemporaryRedirect => "Temporary Redirect"@,
            HTTPStatus::PermanentRedirect => "Permanent Redirect"@,
            HTTPStatus::BadRequest => "Bad Request"@,
            HTTPStatus::Unauthorized => "Unauthorized"@,
            HTTPStatus::PaymentRequired => "Payment Required"@,
            HTTPStatus::Forbidden => "Forbidden"@,
            HTTPStatus::NotFound => "Not Found"@,
            HTTPStatus::MethodNotAllowed => "Method Not Allowed"@,
            HTTPStatus::NotAcceptable => "Not Acceptable"@,
            HTTPStatus::ProxyAuthenticationRequired => "Proxy Authentication Required"@,
            HTTPStatus::RequestTimeout => "Request Timeout"@,
            HTTPStatus::Conflict => "Conflict"@,
            HTTPStatus::Gone => "Gone"@,
            HTTPStatus::LengthRequired => "Length Required"@,
            HTTPStatus::PreconditionFailed => "Precondition Failed"@,
            HTTPStatus::PayloadTooLarge => "Payload Too Large"@,
            HTTPStatus::UriTooLong => "URI Too Long"@,
            HTTPStatus::UnsupportedMediaType => "Unsupported Media Type"@,
            HTTPStatus::RangeNotSatisfiable => "Range Not Satisfiable"@,
            HTTPStatus::ExpectationFailed => "Expectation Failed"@,
            HTTPStatus::ImATeapot => "I'm a teapot"@,
            HTTPStatus::MisdirectedRequest => "Misdirected Request"@,
            HTTPStatus::UnprocessableEntity => "Unprocessable Entity"@,
            HTTPStatus::Locked => "Locked"@,
            HTTPStatus::FailedDependency => "Failed Dependency"@,
            HTTPStatus::TooEarly => "Too Early"@,
            HTTPStatus::UpgradeRequired => "Upgrade Required"@,
            HTTPStatus::PreconditionRequired => "Precondition Required"@,
            HTTPStatus::TooManyRequests => "Too Many Requests"@,
            HTTPStatus::RequestHeaderFieldsTooLarge => "Request Header Fields Too Large"@,
            HTTPStatus::UnavailableForLegalReasons => "Unavailable For Legal Reasons"@,
            HTTPStatus::InternalServerError => "Internal Server Error"@,
            HTTPStatus::NotImplemented => "Not Implemented"@,
            HTTPStatus::BadGateway => "Bad Gateway"@,
            HTTPStatus::ServiceUnavailable => "Service Unavailable"@,
            HTTPStatus::GatewayTimeout => "Gateway Timeout"@,
            HTTPStatus::HttpVersionNotSupported => "HTTP Version Not Supported"@,
            HTTPStatus::VariantAlsoNegotiates => "Variant Also Negotiates"@,
            HTTPStatus::InsufficientStorage => "Insufficient Storage"@,
            HTTPStatus::LoopDetected => "Loop Detected"@,
            HTTPStatus::NotExtended => "Not Extended"@,
            HTTPStatus::NetworkAuthenticationRequired => "Network Authentication Required"@,
        }
    }

    /// The numeric code of the status.
    #[verifier::when_used_as_spec(spec_code)]
    pub fn code(&self) -> (c: u16)
        ensures
            c == self.spec_code(),
            100 <= c <= 599,
    {
        match self {
            HTTPStatus::Continue => 100,
            HTTPStatus::SwitchingProtocols => 101,
            HTTPStatus::Processing => 102,
            HTTPStatus::EarlyHints => 103,
            HTTPStatus::OK => 200,
            HTTPStatus::Created => 201,
            HTTPStatus::Accepted => 202,
            HTTPStatus::NonAuthoritativeInformation => 203,
            HTTPStatus::NoContent => 204,
            HTTPStatus::ResetContent => 205,
            HTTPStatus::PartialContent => 206,
            HTTPStatus::MultiStatus => 207,
            HTTPStatus::AlreadyReported => 208,
            HTTPStatus::ImUsed => 226,
            HTTPStatus::MultipleChoices => 300,
            HTTPStatus::MovedPermanently => 301,
            HTTPStatus::Found => 302,
            HTTPStatus::SeeOther => 303,
            HTTPStatus::NotModified => 304,
            HTTPStatus::UseProxy => 305,
            HTTPStatus::TemporaryRedirect => 307,
            HTTPStatus::PermanentRedirect => 308,
            HTTPStatus::BadRequest => 400,
            HTTPStatus::Unauthorized => 401,
            HTTPStatus::PaymentRequired => 402,
            HTTPStatus::Forbidden => 403,
            HTTPStatus::NotFound => 404,
            HTTPStatus::MethodNotAllowed => 405,
            HTTPStatus::NotAcceptable => 406,
            HTTPStatus::ProxyAuthenticationRequired => 407,
            HTTPStatus::RequestTimeout => 408,
            HTTPStatus::Conflict => 409,
            HTTPStatus::Gone => 410,
            HTTPStatus::LengthRequired => 411,
            HTTPStatus::PreconditionFailed => 412,
            HTTPStatus::PayloadTooLarge => 413,
            HTTPStatus::UriTooLong => 414,
            HTTPStatus::UnsupportedMediaType => 415,
            HTTPStatus::RangeNotSatisfiable => 416,
            HTTPStatus::ExpectationFailed => 417,
            HTTPStatus::ImATeapot => 418,
            HTTPStatus::MisdirectedRequest => 421,
            HTTPStatus::UnprocessableEntity => 422,
            HTTPStatus::Locked => 423,
            HTTPStatus::FailedDependency => 424,
            HTTPStatus::TooEarly => 425,
            HTTPStatus::UpgradeRequired => 426,
            HTTPStatus::PreconditionRequired => 428,
            HTTPStatus::TooManyRequests => 429,
            HTTPStatus::RequestHeaderFieldsTooLarge => 431,
            HTTPStatus::UnavailableForLegalReasons => 451,
            HTTPStatus::InternalServerError => 500,
            HTTPStatus::NotImplemented => 501,
            HTTPStatus::BadGateway => 502,
            HTTPStatus::ServiceUnavailable => 503,
            HTTPStatus::GatewayTimeout => 504,
            HTTPStatus::HttpVersionNotSupported => 505,
            HTTPStatus::VariantAlsoNegotiates => 506,
            HTTPStatus::InsufficientStorage => 507,
            HTTPStatus::LoopDetected => 508,
            HTTPStatus::NotExtended => 510,
            HTTPStatus::NetworkAuthenticationRequired => 511,
        }
    }

    /// The reason phrase of the status.
    pub fn as_str(&self) -> (s: &'static str)
        ensures
            s@ == self.reason(),
    {
        match self {
            HTTPStatus::Continue => "Continue",
            HTTPStatus::SwitchingProtocols => "Switching Protocols",
            HTTPStatus::Processing => "Processing",
            HTTPStatus::EarlyHints => "Early Hints",
            HTTPStatus::OK => "OK",
            HTTPStatus::Created => "Created",
            HTTPStatus::Accepted => "Accepted",
            HTTPStatus::NonAuthoritativeInformation => "Non Authoritative Information",
            HTTPStatus::NoContent => "No Content",
            HTTPStatus::ResetContent => "Reset Content",
            HTTPStatus::PartialContent => "Partial Content",
            HTTPStatus::MultiStatus => "Multi-Status",
            HTTPStatus::AlreadyReported => "Already Reported",
            HTTPStatus::ImUsed => "IM Used",
            HTTPStatus::MultipleChoices => "Multiple Choices",
            HTTPStatus::MovedPermanently => "Moved Permanently",
            HTTPStatus::Found => "Found",
            HTTPStatus::SeeOther => "See Other",
            HTTPStatus::NotModified => "Not Modified",
            HTTPStatus::UseProxy => "Use Proxy",
            HTTPStatus::TemporaryRedirect => "Temporary Redirect",
            HTTPStatus::PermanentRedirect => "Permanent Redirect",
            HTTPStatus::BadRequest => "Bad Request",
            HTTPStatus::Unauthorized => "Unauthorized",
            HTTPStatus::PaymentRequired => "Payment Required",
            HTTPStatus::Forbidden => "Forbidden",
            HTTPStatus::NotFound => "Not Found",
            HTTPStatus::MethodNotAllowed => "Method Not Allowed",
            HTTPStatus::NotAcceptable => "Not Acceptable",
            HTTPStatus::ProxyAuthenticationRequired => "Proxy Authentication Required",
            HTTPStatus::RequestTimeout => "Request Timeout",
            HTTPStatus::Conflict => "Conflict",
            HTTPStatus::Gone => "Gone",
            HTTPStatus::LengthRequired => "Length Required",
            HTTPStatus::PreconditionFailed => "Precondition Failed",
            HTTPStatus::PayloadTooLarge => "Payload Too Large",
            HTTPStatus::UriTooLong => "URI Too Long",
            HTTPStatus::UnsupportedMediaType => "Unsupported Media Type",
            HTTPStatus::RangeNotSatisfiable => "Range Not Satisfiable",
            HTTPStatus::ExpectationFailed => "Expectation Failed",
            HTTPStatus::ImATeapot => "I'm a teapot",
            HTTPStatus::MisdirectedRequest => "Misdirected Request",
            HTTPStatus::UnprocessableEntity => "Unprocessable Entity",
            HTTPStatus::Locked => "Locked",
            HTTPStatus::FailedDependency => "Failed Dependency",
            HTTPStatus::TooEarly => "Too Early",
            HTTPStatus::UpgradeRequired => "Upgrade Required",
            HTTPStatus::PreconditionRequired => "Precondition Required",
            HTTPStatus::TooManyRequests => "Too Many Requests",
            HTTPStatus::RequestHeaderFieldsTooLarge => "Request Header Fields Too Large",
            HTTPStatus::UnavailableForLegalReasons => "Unavailable For Legal Reasons",
            HTTPStatus::InternalServerError => "Internal Server Error",
            HTTPStatus::NotImplemented => "Not Implemented",
            HTTPStatus::BadGateway => "Bad Gateway",
            HTTPStatus::ServiceUnavailable => "Service Unavailable",
            HTTPStatus::GatewayTimeout => "Gateway Timeout",
            HTTPStatus::HttpVersionNotSupported => "HTTP Version Not Supported",
            HTTPStatus::VariantAlsoNegotiates => "Variant Also Negotiates",
            HTTPStatus::InsufficientStorage => "Insufficient Storage",
            HTTPStatus::LoopDetected => "Loop Detected",
            HTTPStatus::NotExtended => "Not Extended",
            HTTPStatus::NetworkAuthenticationRequired => "Network Authentication Required",
        }
    }

    /// A copy of the reason phrase of the status.
    pub fn to_string(&self) -> (s: String)
        ensures
            s@ == self.reason(),
    {
        let mut s = String::new();
        s.append(self.as_str());
        s
    }

    /// No two statuses share a code.
    pub proof fn lemma_code_identifies(a: HTTPStatus, b: HTTPStatus)
        requires
            a.code() == b.code(),
        ensures
            a == b,
    {
    }
}

} // verus!
