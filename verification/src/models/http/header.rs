//! The header name registry: the well-known header names, their canonical
//! spelling, and the escape variant for every other name.

use crate::text::{chars_of, lower_seq, spells_ignoring_case, string_of};
use vstd::prelude::*;

verus! {

/// A header name: one of the well-known names, or any other name kept as it
/// was written.
///
/// Two header names are the same header when their spellings agree once
/// ASCII case is set aside, whichever variants they are; see
/// [`HTTPHeaderType::canonical`].
#[derive(Debug, Clone)]
pub enum HTTPHeaderType {
    // --- Content negotiation ---
    Accept,
    AcceptCharset,
    AcceptEncoding,
    AcceptLanguage,
    // --- Request metadata ---
    Authorization,
    ProxyAuthorization,
    UserAgent,
    Referer,
    Origin,
    Host,
    // --- Content description ---
    ContentType,
    ContentLength,
    ContentEncoding,
    ContentLanguage,
    ContentLocation,
    ContentDisposition,
    ContentRange,
    // --- Caching ---
    CacheControl,
    Pragma,
    Expires,
    ETag,
    IfMatch,
    IfNoneMatch,
    IfModifiedSince,
    IfUnmodifiedSince,
    IfRange,
    LastModified,
    Age,
    Vary,
    // --- Connection / transport ---
    Connection,
    KeepAlive,
    TransferEncoding,
    Upgrade,
    Via,
    // --- Cookies ---
    Cookie,
    SetCookie,
    // --- Redirection / location ---
    Location,
    // --- Range requests ---
    Range,
    AcceptRanges,
    // --- Security ---
    WWWAuthenticate,
    ProxyAuthenticate,
    StrictTransportSecurity,
    ContentSecurityPolicy,
    ContentSecurityPolicyReportOnly,
    XContentTypeOptions,
    XFrameOptions,
    XXSSProtection,
    ReferrerPolicy,
    PermissionsPolicy,
    ExpectCT,
    // --- CORS ---
    AccessControlAllowOrigin,
    AccessControlAllowMethods,
    AccessControlAllowHeaders,
    AccessControlAllowCredentials,
    AccessControlExposeHeaders,
    AccessControlMaxAge,
    AccessControlRequestMethod,
    AccessControlRequestHeaders,
    // --- Fetch / browser hints ---
    SecFetchSite,
    SecFetchMode,
    SecFetchDest,
    SecFetchUser,
    // --- Client hints ---
    SecCHUA,
    SecCHUAMobile,
    SecCHUAPlatform,
    AcceptCH,
    // --- Server / diagnostics ---
    Server,
    Date,
    Allow,
    RetryAfter,
    Warning,
    // --- Compression / negotiation helpers ---
    TE,
    // --- WebSockets ---
    SecWebSocketKey,
    SecWebSocketAccept,
    SecWebSocketVersion,
    SecWebSocketProtocol,
    // --- Forwarding / proxies ---
    Forwarded,
    XForwardedFor,
    XForwardedHost,
    XForwardedProto,
    XRealIP,
    // --- Misc / extensibility ---
    Expect,
    DNT,
    // --- Escape hatch ---
    Other(String),
}

/// How many well-known header names there are.
pub const KNOWN_HEADERS: usize = 83;

impl HTTPHeaderType {
    /// The spelling of the name as it is written on the wire.
    pub open spec fn name(&self) -> Seq<char> {
        match self {
            HTTPHeaderType::Accept => "Accept"@,
            HTTPHeaderType::AcceptCharset => "Accept-Charset"@,
            HTTPHeaderType::AcceptEncoding => "Accept-Encoding"@,
            HTTPHeaderType::AcceptLanguage => "Accept-Language"@,
            HTTPHeaderType::Authorization => "Authorization"@,
            HTTPHeaderType::ProxyAuthorization => "Proxy-Authorization"@,
            HTTPHeaderType::UserAgent => "User-Agent"@,
            HTTPHeaderType::Referer => "Referer"@,
            HTTPHeaderType::Origin => "Origin"@,
            HTTPHeaderType::Host => "Host"@,
            HTTPHeaderType::ContentType => "Content-Type"@,
            HTTPHeaderType::ContentLength => "Content-Length"@,
            HTTPHeaderType::ContentEncoding => "Content-Encoding"@,
            HTTPHeaderType::ContentLanguage => "Content-Language"@,
            HTTPHeaderType::ContentLocation => "Content-Location"@,
            HTTPHeaderType::ContentDisposition => "Content-Disposition"@,
            HTTPHeaderType::ContentRange => "Content-Range"@,
            HTTPHeaderType::CacheControl => "Cache-Control"@,
            HTTPHeaderType::Pragma => "Pragma"@,
            HTTPHeaderType::Expires => "Expires"@,
            HTTPHeaderType::ETag => "ETag"@,
            HTTPHeaderType::IfMatch => "If-Match"@,
            HTTPHeaderType::IfNoneMatch => "If-None-Match"@,
            HTTPHeaderType::IfModifiedSince => "If-Modified-Since"@,
            HTTPHeaderType::IfUnmodifiedSince => "If-Unmodified-Since"@,
            HTTPHeaderType::IfRange => "If-Range"@,
            HTTPHeaderType::LastModified => "Last-Modified"@,
            HTTPHeaderType::Age => "Age"@,
            HTTPHeaderType::Vary => "Vary"@,
            HTTPHeaderType::Connection => "Connection"@,
            HTTPHeaderType::KeepAlive => "Keep-Alive"@,
            HTTPHeaderType::TransferEncoding => "Transfer-Encoding"@,
            HTTPHeaderType::Upgrade => "Upgrade"@,
            HTTPHeaderType::Via => "Via"@,
            HTTPHeaderType::Cookie => "Cookie"@,
            HTTPHeaderType::SetCookie => "Set-Cookie"@,
            HTTPHeaderType::Location => "Location"@,
            HTTPHeaderType::Range => "Range"@,
            HTTPHeaderType::AcceptRanges => "Accept-Ranges"@,
            HTTPHeaderType::WWWAuthenticate => "WWW-Authenticate"@,
            HTTPHeaderType::ProxyAuthenticate => "Proxy-Authenticate"@,
            HTTPHeaderType::StrictTransportSecurity => "Strict-Transport-Security"@,
            HTTPHeaderType::ContentSecurityPolicy => "Content-Security-Policy"@,
            HTTPHeaderType::ContentSecurityPolicyReportOnly => "Content-Security-Policy-Report-Only"@,
            HTTPHeaderType::XContentTypeOptions => "X-Content-Type-Options"@,
            HTTPHeaderType::XFrameOptions => "X-Frame-Options"@,
            HTTPHeaderType::XXSSProtection => "X-XSS-Protection"@,
            HTTPHeaderType::ReferrerPolicy => "Referrer-Policy"@,
            HTTPHeaderType::PermissionsPolicy => "Permissions-Policy"@,
            HTTPHeaderType::ExpectCT => "Expect-CT"@,
            HTTPHeaderType::AccessControlAllowOrigin => "Access-Control-Allow-Origin"@,
            HTTPHeaderType::AccessControlAllowMethods => "Access-Control-Allow-Methods"@,
            HTTPHeaderType::AccessControlAllowHeaders => "Access-Control-Allow-Headers"@,
            HTTPHeaderType::AccessControlAllowCredentials => "Access-Control-Allow-Credentials"@,
            HTTPHeaderType::AccessControlExposeHeaders => "Access-Control-Expose-Headers"@,
            HTTPHeaderType::AccessControlMaxAge => "Access-Control-Max-Age"@,
            HTTPHeaderType::AccessControlRequestMethod => "Access-Control-Request-Method"@,
            HTTPHeaderType::AccessControlRequestHeaders => "Access-Control-Request-Headers"@,
            HTTPHeaderType::SecFetchSite => "Sec-Fetch-Site"@,
            HTTPHeaderType::SecFetchMode => "Sec-Fetch-Mode"@,
            HTTPHeaderType::SecFetchDest => "Sec-Fetch-Dest"@,
            HTTPHeaderType::SecFetchUser => "Sec-Fetch-User"@,
            HTTPHeaderType::SecCHUA => "Sec-CH-UA"@,
            HTTPHeaderType::SecCHUAMobile => "Sec-CH-UA-Mobile"@,
            HTTPHeaderType::SecCHUAPlatform => "Sec-CH-UA-Platform"@,
            HTTPHeaderType::AcceptCH => "Accept-CH"@,
            HTTPHeaderType::Server => "Server"@,
            HTTPHeaderType::Date => "Date"@,
            HTTPHeaderType::Allow => "Allow"@,
            HTTPHeaderType::RetryAfter => "Retry-After"@,
            HTTPHeaderType::Warning => "Warning"@,
            HTTPHeaderType::TE => "TE"@,
            HTTPHeaderType::SecWebSocketKey => "Sec-WebSocket-Key"@,
            HTTPHeaderType::SecWebSocketAccept => "Sec-WebSocket-Accept"@,
            HTTPHeaderType::SecWebSocketVersion => "Sec-WebSocket-Version"@,
            HTTPHeaderType::SecWebSocketProtocol => "Sec-WebSocket-Protocol"@,
            HTTPHeaderType::Forwarded => "Forwarded"@,
            HTTPHeaderType::XForwardedFor => "X-Forwarded-For"@,
            HTTPHeaderType::XForwardedHost => "X-Forwarded-Host"@,
            HTTPHeaderType::XForwardedProto => "X-Forwarded-Proto"@,
            HTTPHeaderType::XRealIP => "X-Real-IP"@,
            HTTPHeaderType::Expect => "Expect"@,
            HTTPHeaderType::DNT => "DNT"@,
            HTTPHeaderType::Other(raw) => raw@,
        }
    }

    /// The spelling by which header names are compared: the wire spelling
    /// with its ASCII letters in lower case.
    pub open spec fn canonical(&self) -> Seq<char> {
        lower_seq(self.name())
    }

    /// The well-known names, in the order in which they are tried.
    pub open spec fn known(i: int) -> HTTPHeaderType
        recommends
            0 <= i < KNOWN_HEADERS,
    {
        if i == 0 {
            HTTPHeaderType::Accept
        } else if i == 1 {
            HTTPHeaderType::AcceptCharset
        } else if i == 2 {
            HTTPHeaderType::AcceptEncoding
        } else if i == 3 {
            HTTPHeaderType::AcceptLanguage
        } else if i == 4 {
            HTTPHeaderType::Authorization
        } else if i == 5 {
            HTTPHeaderType::ProxyAuthorization
        } else if i == 6 {
            HTTPHeaderType::UserAgent
        } else if i == 7 {
            HTTPHeaderType::Referer
        } else if i == 8 {
            HTTPHeaderType::Origin
        } else if i == 9 {
            HTTPHeaderType::Host
        } else if i == 10 {
            HTTPHeaderType::ContentType
        } else if i == 11 {
            HTTPHeaderType::ContentLength
        } else if i == 12 {
            HTTPHeaderType::ContentEncoding
        } else if i == 13 {
            HTTPHeaderType::ContentLanguage
        } else if i == 14 {
            HTTPHeaderType::ContentLocation
        } else if i == 15 {
            HTTPHeaderType::ContentDisposition
        } else if i == 16 {
            HTTPHeaderType::ContentRange
        } else if i == 17 {
            HTTPHeaderType::CacheControl
        } else if i == 18 {
            HTTPHeaderType::Pragma
        } else if i == 19 {
            HTTPHeaderType::Expires
        } else if i == 20 {
            HTTPHeaderType::ETag
        } else if i == 21 {
            HTTPHeaderType::IfMatch
        } else if i == 22 {
            HTTPHeaderType::IfNoneMatch
        } else if i == 23 {
            HTTPHeaderType::IfModifiedSince
        } else if i == 24 {
            HTTPHeaderType::IfUnmodifiedSince
        } else if i == 25 {
            HTTPHeaderType::IfRange
        } else if i == 26 {
            HTTPHeaderType::LastModified
        } else if i == 27 {
            HTTPHeaderType::Age
        } else if i == 28 {
            HTTPHeaderType::Vary
        } else if i == 29 {
            HTTPHeaderType::Connection
        } else if i == 30 {
            HTTPHeaderType::KeepAlive
        } else if i == 31 {
            HTTPHeaderType::TransferEncoding
        } else if i == 32 {
            HTTPHeaderType::Upgrade
        } else if i == 33 {
            HTTPHeaderType::Via
        } else if i == 34 {
            HTTPHeaderType::Cookie
        } else if i == 35 {
            HTTPHeaderType::SetCookie
        } else if i == 36 {
            HTTPHeaderType::Location
        } else if i == 37 {
            HTTPHeaderType::Range
        } else if i == 38 {
            HTTPHeaderType::AcceptRanges
        } else if i == 39 {
            HTTPHeaderType::WWWAuthenticate
        } else if i == 40 {
            HTTPHeaderType::ProxyAuthenticate
        } else if i == 41 {
            HTTPHeaderType::StrictTransportSecurity
        } else if i == 42 {
            HTTPHeaderType::ContentSecurityPolicy
        } else if i == 43 {
            HTTPHeaderType::ContentSecurityPolicyReportOnly
        } else if i == 44 {
            HTTPHeaderType::XContentTypeOptions
        } else if i == 45 {
            HTTPHeaderType::XFrameOptions
        } else if i == 46 {
            HTTPHeaderType::XXSSProtection
        } else if i == 47 {
            HTTPHeaderType::ReferrerPolicy
        } else if i == 48 {
            HTTPHeaderType::PermissionsPolicy
        } else if i == 49 {
            HTTPHeaderType::ExpectCT
        } else if i == 50 {
            HTTPHeaderType::AccessControlAllowOrigin
        } else if i == 51 {
            HTTPHeaderType::AccessControlAllowMethods
        } else if i == 52 {
            HTTPHeaderType::AccessControlAllowHeaders
        } else if i == 53 {
            HTTPHeaderType::AccessControlAllowCredentials
        } else if i == 54 {
            HTTPHeaderType::AccessControlExposeHeaders
        } else if i == 55 {
            HTTPHeaderType::AccessControlMaxAge
        } else if i == 56 {
            HTTPHeaderType::AccessControlRequestMethod
        } else if i == 57 {
            HTTPHeaderType::AccessControlRequestHeaders
        } else if i == 58 {
            HTTPHeaderType::SecFetchSite
        } else if i == 59 {
            HTTPHeaderType::SecFetchMode
        } else if i == 60 {
            HTTPHeaderType::SecFetchDest
        } else if i == 61 {
            HTTPHeaderType::SecFetchUser
        } else if i == 62 {
            HTTPHeaderType::SecCHUA
        } else if i == 63 {
            HTTPHeaderType::SecCHUAMobile
        } else if i == 64 {
            HTTPHeaderType::SecCHUAPlatform
        } else if i == 65 {
            HTTPHeaderType::AcceptCH
        } else if i == 66 {
            HTTPHeaderType::Server
        } else if i == 67 {
            HTTPHeaderType::Date
        } else if i == 68 {
            HTTPHeaderType::Allow
        } else if i == 69 {
            HTTPHeaderType::RetryAfter
        } else if i == 70 {
            HTTPHeaderType::Warning
        } else if i == 71 {
            HTTPHeaderType::TE
        } else if i == 72 {
            HTTPHeaderType::SecWebSocketKey
        } else if i == 73 {
            HTTPHeaderType::SecWebSocketAccept
        } else if i == 74 {
            HTTPHeaderType::SecWebSocketVersion
        } else if i == 75 {
            HTTPHeaderType::SecWebSocketProtocol
        } else if i == 76 {
            HTTPHeaderType::Forwarded
        } else if i == 77 {
            HTTPHeaderType::XForwardedFor
        } else if i == 78 {
            HTTPHeaderType::XForwardedHost
        } else if i == 79 {
            HTTPHeaderType::XForwardedProto
        } else if i == 80 {
            HTTPHeaderType::XRealIP
        } else if i == 81 {
            HTTPHeaderType::Expect
        } else {
            HTTPHeaderType::DNT
        }
    }

    /// The well-known name that stands at `index` in the table.
    pub fn known_at(index: usize) -> (h: HTTPHeaderType)
        requires
            index < KNOWN_HEADERS,
        ensures
            h == Self::known(index as int),
            !(h is Other),
    {
        match index {
            0 => HTTPHeaderType::Accept,
            1 => HTTPHeaderType::AcceptCharset,
            2 => HTTPHeaderType::AcceptEncoding,
            3 => HTTPHeaderType::AcceptLanguage,
            4 => HTTPHeaderType::Authorization,
            5 => HTTPHeaderType::ProxyAuthorization,
            6 => HTTPHeaderType::UserAgent,
            7 => HTTPHeaderType::Referer,
            8 => HTTPHeaderType::Origin,
            9 => HTTPHeaderType::Host,
            10 => HTTPHeaderType::ContentType,
            11 => HTTPHeaderType::ContentLength,
            12 => HTTPHeaderType::ContentEncoding,
            13 => HTTPHeaderType::ContentLanguage,
            14 => HTTPHeaderType::ContentLocation,
            15 => HTTPHeaderType::ContentDisposition,
            16 => HTTPHeaderType::ContentRange,
            17 => HTTPHeaderType::CacheControl,
            18 => HTTPHeaderType::Pragma,
            19 => HTTPHeaderType::Expires,
            20 => HTTPHeaderType::ETag,
            21 => HTTPHeaderType::IfMatch,
            22 => HTTPHeaderType::IfNoneMatch,
            23 => HTTPHeaderType::IfModifiedSince,
            24 => HTTPHeaderType::IfUnmodifiedSince,
            25 => HTTPHeaderType::IfRange,
            26 => HTTPHeaderType::LastModified,
            27 => HTTPHeaderType::Age,
            28 => HTTPHeaderType::Vary,
            29 => HTTPHeaderType::Connection,
            30 => HTTPHeaderType::KeepAlive,
            31 => HTTPHeaderType::TransferEncoding,
            32 => HTTPHeaderType::Upgrade,
            33 => HTTPHeaderType::Via,
            34 => HTTPHeaderType::Cookie,
            35 => HTTPHeaderType::SetCookie,
            36 => HTTPHeaderType::Location,
            37 => HTTPHeaderType::Range,
            38 => HTTPHeaderType::AcceptRanges,
            39 => HTTPHeaderType::WWWAuthenticate,
            40 => HTTPHeaderType::ProxyAuthenticate,
            41 => HTTPHeaderType::StrictTransportSecurity,
            42 => HTTPHeaderType::ContentSecurityPolicy,
            43 => HTTPHeaderType::ContentSecurityPolicyReportOnly,
            44 => HTTPHeaderType::XContentTypeOptions,
            45 => HTTPHeaderType::XFrameOptions,
            46 => HTTPHeaderType::XXSSProtection,
            47 => HTTPHeaderType::ReferrerPolicy,
            48 => HTTPHeaderType::PermissionsPolicy,
            49 => HTTPHeaderType::ExpectCT,
            50 => HTTPHeaderType::AccessControlAllowOrigin,
            51 => HTTPHeaderType::AccessControlAllowMethods,
            52 => HTTPHeaderType::AccessControlAllowHeaders,
            53 => HTTPHeaderType::AccessControlAllowCredentials,
            54 => HTTPHeaderType::AccessControlExposeHeaders,
            55 => HTTPHeaderType::AccessControlMaxAge,
            56 => HTTPHeaderType::AccessControlRequestMethod,
            57 => HTTPHeaderType::AccessControlRequestHeaders,
            58 => HTTPHeaderType::SecFetchSite,
            59 => HTTPHeaderType::SecFetchMode,
            60 => HTTPHeaderType::SecFetchDest,
            61 => HTTPHeaderType::SecFetchUser,
            62 => HTTPHeaderType::SecCHUA,
            63 => HTTPHeaderType::SecCHUAMobile,
            64 => HTTPHeaderType::SecCHUAPlatform,
            65 => HTTPHeaderType::AcceptCH,
            66 => HTTPHeaderType::Server,
            67 => HTTPHeaderType::Date,
            68 => HTTPHeaderType::Allow,
            69 => HTTPHeaderType::RetryAfter,
            70 => HTTPHeaderType::Warning,
            71 => HTTPHeaderType::TE,
            72 => HTTPHeaderType::SecWebSocketKey,
            73 => HTTPHeaderType::SecWebSocketAccept,
            74 => HTTPHeaderType::SecWebSocketVersion,
            75 => HTTPHeaderType::SecWebSocketProtocol,
            76 => HTTPHeaderType::Forwarded,
            77 => HTTPHeaderType::XForwardedFor,
            78 => HTTPHeaderType::XForwardedHost,
            79 => HTTPHeaderType::XForwardedProto,
            80 => HTTPHeaderType::XRealIP,
            81 => HTTPHeaderType::Expect,
            _ => HTTPHeaderType::DNT,
        }
    }

    /// The wire spelling of the name.
    pub fn as_str(&self) -> (s: &str)
        ensures
            s@ == self.name(),
    {
        match self {
            HTTPHeaderType::Accept => "Accept",
            HTTPHeaderType::AcceptCharset => "Accept-Charset",
            HTTPHeaderType::AcceptEncoding => "Accept-Encoding",
            HTTPHeaderType::AcceptLanguage => "Accept-Language",
            HTTPHeaderType::Authorization => "Authorization",
            HTTPHeaderType::ProxyAuthorization => "Proxy-Authorization",
            HTTPHeaderType::UserAgent => "User-Agent",
            HTTPHeaderType::Referer => "Referer",
            HTTPHeaderType::Origin => "Origin",
            HTTPHeaderType::Host => "Host",
            HTTPHeaderType::ContentType => "Content-Type",
            HTTPHeaderType::ContentLength => "Content-Length",
            HTTPHeaderType::ContentEncoding => "Content-Encoding",
            HTTPHeaderType::ContentLanguage => "Content-Language",
            HTTPHeaderType::ContentLocation => "Content-Location",
            HTTPHeaderType::ContentDisposition => "Content-Disposition",
            HTTPHeaderType::ContentRange => "Content-Range",
            HTTPHeaderType::CacheControl => "Cache-Control",
            HTTPHeaderType::Pragma => "Pragma",
            HTTPHeaderType::Expires => "Expires",
            HTTPHeaderType::ETag => "ETag",
            HTTPHeaderType::IfMatch => "If-Match",
            HTTPHeaderType::IfNoneMatch => "If-None-Match",
            HTTPHeaderType::IfModifiedSince => "If-Modified-Since",
            HTTPHeaderType::IfUnmodifiedSince => "If-Unmodified-Since",
            HTTPHeaderType::IfRange => "If-Range",
            HTTPHeaderType::LastModified => "Last-Modified",
            HTTPHeaderType::Age => "Age",
            HTTPHeaderType::Vary => "Vary",
            HTTPHeaderType::Connection => "Connection",
            HTTPHeaderType::KeepAlive => "Keep-Alive",
            HTTPHeaderType::TransferEncoding => "Transfer-Encoding",
            HTTPHeaderType::Upgrade => "Upgrade",
            HTTPHeaderType::Via => "Via",
            HTTPHeaderType::Cookie => "Cookie",
            HTTPHeaderType::SetCookie => "Set-Cookie",
            HTTPHeaderType::Location => "Location",
            HTTPHeaderType::Range => "Range",
            HTTPHeaderType::AcceptRanges => "Accept-Ranges",
            HTTPHeaderType::WWWAuthenticate => "WWW-Authenticate",
            HTTPHeaderType::ProxyAuthenticate => "Proxy-Authenticate",
            HTTPHeaderType::StrictTransportSecurity => "Strict-Transport-Security",
            HTTPHeaderType::ContentSecurityPolicy => "Content-Security-Policy",
            HTTPHeaderType::ContentSecurityPolicyReportOnly => "Content-Security-Policy-Report-Only",
            HTTPHeaderType::XContentTypeOptions => "X-Content-Type-Options",
            HTTPHeaderType::XFrameOptions => "X-Frame-Options",
            HTTPHeaderType::XXSSProtection => "X-XSS-Protection",
            HTTPHeaderType::ReferrerPolicy => "Referrer-Policy",
            HTTPHeaderType::PermissionsPolicy => "Permissions-Policy",
            HTTPHeaderType::ExpectCT => "Expect-CT",
            HTTPHeaderType::AccessControlAllowOrigin => "Access-Control-Allow-Origin",
            HTTPHeaderType::AccessControlAllowMethods => "Access-Control-Allow-Methods",
            HTTPHeaderType::AccessControlAllowHeaders => "Access-Control-Allow-Headers",
            HTTPHeaderType::AccessControlAllowCredentials => "Access-Control-Allow-Credentials",
            HTTPHeaderType::AccessControlExposeHeaders => "Access-Control-Expose-Headers",
            HTTPHeaderType::AccessControlMaxAge => "Access-Control-Max-Age",
            HTTPHeaderType::AccessControlRequestMethod => "Access-Control-Request-Method",
            HTTPHeaderType::AccessControlRequestHeaders => "Access-Control-Request-Headers",
            HTTPHeaderType::SecFetchSite => "Sec-Fetch-Site",
            HTTPHeaderType::SecFetchMode => "Sec-Fetch-Mode",
            HTTPHeaderType::SecFetchDest => "Sec-Fetch-Dest",
            HTTPHeaderType::SecFetchUser => "Sec-Fetch-User",
            HTTPHeaderType::SecCHUA => "Sec-CH-UA",
            HTTPHeaderType::SecCHUAMobile => "Sec-CH-UA-Mobile",
            HTTPHeaderType::SecCHUAPlatform => "Sec-CH-UA-Platform",
            HTTPHeaderType::AcceptCH => "Accept-CH",
            HTTPHeaderType::Server => "Server",
            HTTPHeaderType::Date => "Date",
            HTTPHeaderType::Allow => "Allow",
            HTTPHeaderType::RetryAfter => "Retry-After",
            HTTPHeaderType::Warning => "Warning",
            HTTPHeaderType::TE => "TE",
            HTTPHeaderType::SecWebSocketKey => "Sec-WebSocket-Key",
            HTTPHeaderType::SecWebSocketAccept => "Sec-WebSocket-Accept",
            HTTPHeaderType::SecWebSocketVersion => "Sec-WebSocket-Version",
            HTTPHeaderType::SecWebSocketProtocol => "Sec-WebSocket-Protocol",
            HTTPHeaderType::Forwarded => "Forwarded",
            HTTPHeaderType::XForwardedFor => "X-Forwarded-For",
            HTTPHeaderType::XForwardedHost => "X-Forwarded-Host",
            HTTPHeaderType::XForwardedProto => "X-Forwarded-Proto",
            HTTPHeaderType::XRealIP => "X-Real-IP",
            HTTPHeaderType::Expect => "Expect",
            HTTPHeaderType::DNT => "DNT",
            HTTPHeaderType::Other(raw) => raw.as_str(),
        }
    }

    /// A copy of the wire spelling of the name.
    pub fn to_string(&self) -> (s: String)
        ensures
            s@ == self.name(),
    {
        let chars = chars_of(self.as_str());
        string_of(chars.as_slice())
    }

    /// Whether `self` and `other` name the same header: their spellings
    /// agree once ASCII case is set aside.
    pub fn same_header(&self, other: &HTTPHeaderType) -> (r: bool)
        ensures
            r == (self.canonical() == other.canonical()),
    {
        let chars = chars_of(self.as_str());
        spells_ignoring_case(chars.as_slice(), other.as_str())
    }

    /// Whether the well-known name at `i` is spelled `s`, case aside.
    pub open spec fn spelled(s: Seq<char>, i: int) -> bool {
        0 <= i < KNOWN_HEADERS && Self::known(i).canonical() == lower_seq(s)
    }

    /// Whether `i` is the first place in the table whose name is spelled `s`.
    pub open spec fn first_spelled(s: Seq<char>, i: int) -> bool {
        Self::spelled(s, i) && forall|j: int| 0 <= j < i ==> !Self::spelled(s, j)
    }

    /// The well-known name that `s` spells, if it spells one.
    pub open spec fn recognized(s: Seq<char>) -> Option<HTTPHeaderType> {
        if exists|i: int| Self::first_spelled(s, i) {
            Some(Self::known(choose|i: int| Self::first_spelled(s, i)))
        } else {
            None
        }
    }

    /// The header that `key` names: the well-known header that it spells,
    /// whatever the case of its ASCII letters, and otherwise
    /// [`HTTPHeaderType::Other`] holding `key` as written. Every name is
    /// accepted.
    pub fn from_chars(key: &[char]) -> (h: HTTPHeaderType)
        ensures
            match Self::recognized(key@) {
                Some(known) => h == known,
                None => h matches HTTPHeaderType::Other(raw) && raw@ == key@,
            },
            h.canonical() == lower_seq(key@),
    {
        let mut i: usize = 0;
        while i < KNOWN_HEADERS
            invariant
                i <= KNOWN_HEADERS,
                forall|j: int| 0 <= j < i ==> !Self::spelled(key@, j),
            decreases KNOWN_HEADERS - i,
        {
            let candidate = Self::known_at(i);
            if spells_ignoring_case(key, candidate.as_str()) {
                proof {
                    assert(Self::first_spelled(key@, i as int));
                    let c = choose|k: int| Self::first_spelled(key@, k);
                    assert(c == i) by {
                        if c < i {
                            assert(!Self::spelled(key@, c));
                        } else if c > i {
                            assert(Self::spelled(key@, i as int));
                        }
                    }
                }
                return candidate;
            }
            i += 1;
        }
        proof {
            assert forall|k: int| !Self::first_spelled(key@, k) by {
                if 0 <= k < KNOWN_HEADERS {
                    assert(!Self::spelled(key@, k));
                }
            }
        }
        HTTPHeaderType::Other(string_of(key))
    }

    /// The header that `s` names; see [`HTTPHeaderType::from_chars`].
    pub fn from_name(s: &str) -> (h: HTTPHeaderType)
        ensures
            match Self::recognized(s@) {
                Some(known) => h == known,
                None => h matches HTTPHeaderType::Other(raw) && raw@ == s@,
            },
            h.canonical() == lower_seq(s@),
    {
        let chars = chars_of(s);
        Self::from_chars(chars.as_slice())
    }
}

/// A number made of the length, the first and the last but one character
/// of a name. It tells the canonical names of the well-known headers apart.
spec fn mark(name: Seq<char>) -> int {
    name.len() * 65536 + (name[0] as int) * 256 + (name[name.len() - 2] as int)
}

/// The place in the table of the well-known header whose canonical name has
/// the mark `m`.
spec fn marked(m: int) -> int {
    if m == 418160 {
        0
    } else if m == 942437 {
        1
    } else if m == 1007982 {
        2
    } else if m == 1007975 {
        3
    } else if m == 876911 {
        4
    } else if m == 1273967 {
        5
    } else if m == 685422 {
        6
    } else if m == 488037 {
        7
    } else if m == 421737 {
        8
    } else if m == 288883 {
        9
    } else if m == 811888 {
        10
    } else if m == 942964 {
        11
    } else if m == 1074030 {
        12
    } else if m == 1074023 {
        13
    } else if m == 1074031 {
        14
    } else if m == 1270639 {
        15
    } else if m == 877415 {
        16
    } else if m == 877423 {
        17
    } else if m == 421997 {
        18
    } else if m == 484709 {
        19
    } else if m == 288097 {
        20
    } else if m == 551267 {
        21
    } else if m == 878947 {
        22
    } else if m == 1141091 {
        23
    } else if m == 1272163 {
        24
    } else if m == 551271 {
        25
    } else if m == 879717 {
        26
    } else if m == 221543 {
        27
    } else if m == 292466 {
        28
    } else if m == 680815 {
        29
    } else if m == 682870 {
        30
    } else if m == 1143918 {
        31
    } else if m == 488804 {
        32
    } else if m == 226921 {
        33
    } else if m == 418665 {
        34
    } else if m == 684905 {
        35
    } else if m == 552047 {
        36
    } else if m == 356967 {
        37
    } else if m == 876901 {
        38
    } else if m == 1079156 {
        39
    } else if m == 1208436 {
        40
    } else if m == 1667956 {
        41
    } else if m == 1532771 {
        42
    } else if m == 2319212 {
        43
    } else if m == 1472622 {
        44
    } else if m == 1013870 {
        45
    } else if m == 1079407 {
        46
    } else if m == 1012323 {
        47
    } else if m == 1208419 {
        48
    } else if m == 615779 {
        49
    } else if m == 1794409 {
        50
    } else if m == 1859940 {
        51
    } else if m == 1859954 {
        52
    } else if m == 2122092 {
        53
    } else if m == 1925490 {
        54
    } else if m == 1466727 {
        55
    } else if m == 1925487 {
        56
    } else if m == 1991026 {
        57
    } else if m == 947060 {
        58
    } else if m == 947044 {
        59
    } else if m == 947059 {
        60
    } else if m == 947045 {
        61
    } else if m == 619381 {
        62
    } else if m == 1078124 {
        63
    } else if m == 1209202 {
        64
    } else if m == 614755 {
        65
    } else if m == 422757 {
        66
    } else if m == 287860 {
        67
    } else if m == 352623 {
        68
    } else if m == 750181 {
        69
    } else if m == 489326 {
        70
    } else if m == 160884 {
        71
    } else if m == 1143653 {
        72
    } else if m == 1340272 {
        73
    } else if m == 1405807 {
        74
    } else if m == 1471343 {
        75
    } else if m == 616037 {
        76
    } else if m == 1013871 {
        77
    } else if m == 1079411 {
        78
    } else if m == 1144948 {
        79
    } else if m == 620649 {
        80
    } else if m == 419171 {
        81
    } else if m == 222318 {
        82
    } else {
        -1
    }
}

/// The marks of the names from place 0 up to place 12.
proof fn lemma_marks_0(i: int)
    requires
        0 <= i < 12,
    ensures
        marked(mark(HTTPHeaderType::known(i).canonical())) == i,
        HTTPHeaderType::known(i).name().len() >= 2,
{
    if i == 0 {
        reveal_strlit("Accept");
        let name = "Accept"@;
        assert(name.len() == 6 && name[0] == 'A' && name[4] == 'p');
        assert(lower_seq(name)[0] == 'a' && lower_seq(name)[4] == 'p');
        assert(mark(lower_seq(name)) == 418160);
    } else if i == 1 {
        reveal_strlit("Accept-Charset");
        let name = "Accept-Charset"@;
        assert(name.len() == 14 && name[0] == 'A' && name[12] == 'e');
        assert(lower_seq(name)[0] == 'a' && lower_seq(name)[12] == 'e');
        assert(mark(lower_seq(name)) == 942437);
    } else if i == 2 {
        reveal_strlit("Accept-Encoding");
        let name = "Accept-Encoding"@;
        assert(name.len() == 15 && name[0] == 'A' && name[13] == 'n');
        assert(lower_seq(name)[0] == 'a' && lower_seq(name)[13] == 'n');
        assert(mark(lower_seq(name)) == 1007982);
    } else if i == 3 {
        reveal_strlit("Accept-Language");
        let name = "Accept-Language"@;
        assert(name.len() == 15 && name[0] == 'A' && name[13] == 'g');
        assert(lower_seq(name)[0] == 'a' && lower_seq(name)[13] == 'g');
        assert(mark(lower_seq(name)) == 1007975);
    } else if i == 4 {
        reveal_strlit("Authorization");
        let name = "Authorization"@;
        assert(name.len() == 13 && name[0] == 'A' && name[11] == 'o');
        assert(lower_seq(name)[0] == 'a' && lower_seq(name)[11] == 'o');
        assert(mark(lower_seq(name)) == 876911);
    } else if i == 5 {
        reveal_strlit("Proxy-Authorization");
        let name = "Proxy-Authorization"@;
        assert(name.len() == 19 && name[0] == 'P' && name[17] == 'o');
        assert(lower_seq(name)[0] == 'p' && lower_seq(name)[17] == 'o');
        assert(mark(lower_seq(name)) == 1273967);
    } else if i == 6 {
        reveal_strlit("User-Agent");
        let name = "User-Agent"@;
        assert(name.len() == 10 && name[0] == 'U' && name[8] == 'n');
        assert(lower_seq(name)[0] == 'u' && lower_seq(name)[8] == 'n');
        assert(mark(lower_seq(name)) == 685422);
    } else if i == 7 {
        reveal_strlit("Referer");
        let name = "Referer"@;
        assert(name.len() == 7 && name[0] == 'R' && name[5] == 'e');
        assert(lower_seq(name)[0] == 'r' && lower_seq(name)[5] == 'e');
        assert(mark(lower_seq(name)) == 488037);
    } else if i == 8 {
        reveal_strlit("Origin");
        let name = "Origin"@;
        assert(name.len() == 6 && name[0] == 'O' && name[4] == 'i');
        assert(lower_seq(name)[0] == 'o' && lower_seq(name)[4] == 'i');
        assert(mark(lower_seq(name)) == 421737);
    } else if i == 9 {
        reveal_strlit("Host");
        let name = "Host"@;
        assert(name.len() == 4 && name[0] == 'H' && name[2] == 's');
        assert(lower_seq(name)[0] == 'h' && lower_seq(name)[2] == 's');
        assert(mark(lower_seq(name)) == 288883);
    } else if i == 10 {
        reveal_strlit("Content-Type");
        let name = "Content-Type"@;
        assert(name.len() == 12 && name[0] == 'C' && name[10] == 'p');
        assert(lower_seq(name)[0] == 'c' && lower_seq(name)[10] == 'p');
        assert(mark(lower_seq(name)) == 811888);
    } else {
        reveal_strlit("Content-Length");
        let name = "Content-Length"@;
        assert(name.len() == 14 && name[0] == 'C' && name[12] == 't');
        assert(lower_seq(name)[0] == 'c' && lower_seq(name)[12] == 't');
        assert(mark(lower_seq(name)) == 942964);
    }
}

/// The marks of the names from place 12 up to place 24.
proof fn lemma_marks_1(i: int)
    requires
        12 <= i < 24,
    ensures
        marked(mark(HTTPHeaderType::known(i).canonical())) == i,
        HTTPHeaderType::known(i).name().len() >= 2,
{
    if i == 12 {
        reveal_strlit("Content-Encoding");
        let name = "Content-Encoding"@;
        assert(name.len() == 16 && name[0] == 'C' && name[14] == 'n');
        assert(lower_seq(name)[0] == 'c' && lower_seq(name)[14] == 'n');
        assert(mark(lower_seq(name)) == 1074030);
    } else if i == 13 {
        reveal_strlit("Content-Language");
        let name = "Content-Language"@;
        assert(name.len() == 16 && name[0] == 'C' && name[14] == 'g');
        assert(lower_seq(name)[0] == 'c' && lower_seq(name)[14] == 'g');
        assert(mark(lower_seq(name)) == 1074023);
    } else if i == 14 {
        reveal_strlit("Content-Location");
        let name = "Content-Location"@;
        assert(name.len() == 16 && name[0] == 'C' && name[14] == 'o');
        assert(lower_seq(name)[0] == 'c' && lower_seq(name)[14] == 'o');
        assert(mark(lower_seq(name)) == 1074031);
    } else if i == 15 {
        reveal_strlit("Content-Disposition");
        let name = "Content-Disposition"@;
        assert(name.len() == 19 && name[0] == 'C' && name[17] == 'o');
        assert(lower_seq(name)[0] == 'c' && lower_seq(name)[17] == 'o');
        assert(mark(lower_seq(name)) == 1270639);
    } else if i == 16 {
        reveal_strlit("Content-Range");
        let name = "Content-Range"@;
        assert(name.len() == 13 && name[0] == 'C' && name[11] == 'g');
        assert(lower_seq(name)[0] == 'c' && lower_seq(name)[11] == 'g');
        assert(mark(lower_seq(name)) == 877415);
    } else if i == 17 {
        reveal_strlit("Cache-Control");
        let name = "Cache-Control"@;
        assert(name.len() == 13 && name[0] == 'C' && name[11] == 'o');
        assert(lower_seq(name)[0] == 'c' && lower_seq(name)[11] == 'o');
        assert(mark(lower_seq(name)) == 877423);
    } else if i == 18 {
        reveal_strlit("Pragma");
        let name = "Pragma"@;
        assert(name.len() == 6 && name[0] == 'P' && name[4] == 'm');
        assert(lower_seq(name)[0] == 'p' && lower_seq(name)[4] == 'm');
        assert(mark(lower_seq(name)) == 421997);
    } else if i == 19 {
        reveal_strlit("Expires");
        let name = "Expires"@;
        assert(name.len() == 7 && name[0] == 'E' && name[5] == 'e');
        assert(lower_seq(name)[0] == 'e' && lower_seq(name)[5] == 'e');
        assert(mark(lower_seq(name)) == 484709);
    } else if i == 20 {
        reveal_strlit("ETag");
        let name = "ETag"@;
        assert(name.len() == 4 && name[0] == 'E' && name[2] == 'a');
        assert(lower_seq(name)[0] == 'e' && lower_seq(name)[2] == 'a');
        assert(mark(lower_seq(name)) == 288097);
    } else if i == 21 {
        reveal_strlit("If-Match");
        let name = "If-Match"@;
        assert(name.len() == 8 && name[0] == 'I' && name[6] == 'c');
        assert(lower_seq(name)[0] == 'i' && lower_seq(name)[6] == 'c');
        assert(mark(lower_seq(name)) == 551267);
    } else if i == 22 {
        reveal_strlit("If-None-Match");
        let name = "If-None-Match"@;
        assert(name.len() == 13 && name[0] == 'I' && name[11] == 'c');
        assert(lower_seq(name)[0] == 'i' && lower_seq(name)[11] == 'c');
        assert(mark(lower_seq(name)) == 878947);
    } else {
        reveal_strlit("If-Modified-Since");
        let name = "If-Modified-Since"@;
        assert(name.len() == 17 && name[0] == 'I' && name[15] == 'c');
        assert(lower_seq(name)[0] == 'i' && lower_seq(name)[15] == 'c');
        assert(mark(lower_seq(name)) == 1141091);
    }
}

/// The marks of the names from place 24 up to place 36.
proof fn lemma_marks_2(i: int)
    requires
        24 <= i < 36,
    ensures
        marked(mark(HTTPHeaderType::known(i).canonical())) == i,
        HTTPHeaderType::known(i).name().len() >= 2,
{
    if i == 24 {
        reveal_strlit("If-Unmodified-Since");
        let name = "If-Unmodified-Since"@;
        assert(name.len() == 19 && name[0] == 'I' && name[17] == 'c');
        assert(lower_seq(name)[0] == 'i' && lower_seq(name)[17] == 'c');
        assert(mark(lower_seq(name)) == 1272163);
    } else if i == 25 {
        reveal_strlit("If-Range");
        let name = "If-Range"@;
        assert(name.len() == 8 && name[0] == 'I' && name[6] == 'g');
        assert(lower_seq(name)[0] == 'i' && lower_seq(name)[6] == 'g');
        assert(mark(lower_seq(name)) == 551271);
    } else if i == 26 {
        reveal_strlit("Last-Modified");
        let name = "Last-Modified"@;
        assert(name.len() == 13 && name[0] == 'L' && name[11] == 'e');
        assert(lower_seq(name)[0] == 'l' && lower_seq(name)[11] == 'e');
        assert(mark(lower_seq(name)) == 879717);
    } else if i == 27 {
        reveal_strlit("Age");
        let name = "Age"@;
        assert(name.len() == 3 && name[0] == 'A' && name[1] == 'g');
        assert(lower_seq(name)[0] == 'a' && lower_seq(name)[1] == 'g');
        assert(mark(lower_seq(name)) == 221543);
    } else if i == 28 {
        reveal_strlit("Vary");
        let name = "Vary"@;
        assert(name.len() == 4 && name[0] == 'V' && name[2] == 'r');
        assert(lower_seq(name)[0] == 'v' && lower_seq(name)[2] == 'r');
        assert(mark(lower_seq(name)) == 292466);
    } else if i == 29 {
        reveal_strlit("Connection");
        let name = "Connection"@;
        assert(name.len() == 10 && name[0] == 'C' && name[8] == 'o');
        assert(lower_seq(name)[0] == 'c' && lower_seq(name)[8] == 'o');
        assert(mark(lower_seq(name)) == 680815);
    } else if i == 30 {
        reveal_strlit("Keep-Alive");
        let name = "Keep-Alive"@;
        assert(name.len() == 10 && name[0] == 'K' && name[8] == 'v');
        assert(lower_seq(name)[0] == 'k' && lower_seq(name)[8] == 'v');
        assert(mark(lower_seq(name)) == 682870);
    } else if i == 31 {
        reveal_strlit("Transfer-Encoding");
        let name = "Transfer-Encoding"@;
        assert(name.len() == 17 && name[0] == 'T' && name[15] == 'n');
        assert(lower_seq(name)[0] == 't' && lower_seq(name)[15] == 'n');
        assert(mark(lower_seq(name)) == 1143918);
    } else if i == 32 {
        reveal_strlit("Upgrade");
        let name = "Upgrade"@;
        assert(name.len() == 7 && name[0] == 'U' && name[5] == 'd');
        assert(lower_seq(name)[0] == 'u' && lower_seq(name)[5] == 'd');
        assert(mark(lower_seq(name)) == 488804);
    } else if i == 33 {
        reveal_strlit("Via");
        let name = "Via"@;
        assert(name.len() == 3 && name[0] == 'V' && name[1] == 'i');
        assert(lower_seq(name)[0] == 'v' && lower_seq(name)[1] == 'i');
        assert(mark(lower_seq(name)) == 226921);
    } else if i == 34 {
        reveal_strlit("Cookie");
        let name = "Cookie"@;
        assert(name.len() == 6 && name[0] == 'C' && name[4] == 'i');
        assert(lower_seq(name)[0] == 'c' && lower_seq(name)[4] == 'i');
        assert(mark(lower_seq(name)) == 418665);
    } else {
        reveal_strlit("Set-Cookie");
        let name = "Set-Cookie"@;
        assert(name.len() == 10 && name[0] == 'S' && name[8] == 'i');
        assert(lower_seq(name)[0] == 's' && lower_seq(name)[8] == 'i');
        assert(mark(lower_seq(name)) == 684905);
    }
}

/// The marks of the names from place 36 up to place 48.
proof fn lemma_marks_3(i: int)
    requires
        36 <= i < 48,
    ensures
        marked(mark(HTTPHeaderType::known(i).canonical())) == i,
        HTTPHeaderType::known(i).name().len() >= 2,
{
    if i == 36 {
        reveal_strlit("Location");
        let name = "Location"@;
        assert(name.len() == 8 && name[0] == 'L' && name[6] == 'o');
        assert(lower_seq(name)[0] == 'l' && lower_seq(name)[6] == 'o');
        assert(mark(lower_seq(name)) == 552047);
    } else if i == 37 {
        reveal_strlit("Range");
        let name = "Range"@;
        assert(name.len() == 5 && name[0] == 'R' && name[3] == 'g');
        assert(lower_seq(name)[0] == 'r' && lower_seq(name)[3] == 'g');
        assert(mark(lower_seq(name)) == 356967);
    } else if i == 38 {
        reveal_strlit("Accept-Ranges");
        let name = "Accept-Ranges"@;
        assert(name.len() == 13 && name[0] == 'A' && name[11] == 'e');
        assert(lower_seq(name)[0] == 'a' && lower_seq(name)[11] == 'e');
        assert(mark(lower_seq(name)) == 876901);
    } else if i == 39 {
        reveal_strlit("WWW-Authenticate");
        let name = "WWW-Authenticate"@;
        assert(name.len() == 16 && name[0] == 'W' && name[14] == 't');
        assert(lower_seq(name)[0] == 'w' && lower_seq(name)[14] == 't');
        assert(mark(lower_seq(name)) == 1079156);
    } else if i == 40 {
        reveal_strlit("Proxy-Authenticate");
        let name = "Proxy-Authenticate"@;
        assert(name.len() == 18 && name[0] == 'P' && name[16] == 't');
        assert(lower_seq(name)[0] == 'p' && lower_seq(name)[16] == 't');
        assert(mark(lower_seq(name)) == 1208436);
    } else if i == 41 {
        reveal_strlit("Strict-Transport-Security");
        let name = "Strict-Transport-Security"@;
        assert(name.len() == 25 && name[0] == 'S' && name[23] == 't');
        assert(lower_seq(name)[0] == 's' && lower_seq(name)[23] == 't');
        assert(mark(lower_seq(name)) == 1667956);
    } else if i == 42 {
        reveal_strlit("Content-Security-Policy");
        let name = "Content-Security-Policy"@;
        assert(name.len() == 23 && name[0] == 'C' && name[21] == 'c');
        assert(lower_seq(name)[0] == 'c' && lower_seq(name)[21] == 'c');
        assert(mark(lower_seq(name)) == 1532771);
    } else if i == 43 {
        reveal_strlit("Content-Security-Policy-Report-Only");
        let name = "Content-Security-Policy-Report-Only"@;
        assert(name.len() == 35 && name[0] == 'C' && name[33] == 'l');
        assert(lower_seq(name)[0] == 'c' && lower_seq(name)[33] == 'l');
        assert(mark(lower_seq(name)) == 2319212);
    } else if i == 44 {
        reveal_strlit("X-Content-Type-Options");
        let name = "X-Content-Type-Options"@;
        assert(name.len() == 22 && name[0] == 'X' && name[20] == 'n');
        assert(lower_seq(name)[0] == 'x' && lower_seq(name)[20] == 'n');
        assert(mark(lower_seq(name)) == 1472622);
    } else if i == 45 {
        reveal_strlit("X-Frame-Options");
        let name = "X-Frame-Options"@;
        assert(name.len() == 15 && name[0] == 'X' && name[13] == 'n');
        assert(lower_seq(name)[0] == 'x' && lower_seq(name)[13] == 'n');
        assert(mark(lower_seq(name)) == 1013870);
    } else if i == 46 {
        reveal_strlit("X-XSS-Protection");
        let name = "X-XSS-Protection"@;
        assert(name.len() == 16 && name[0] == 'X' && name[14] == 'o');
        assert(lower_seq(name)[0] == 'x' && lower_seq(name)[14] == 'o');
        assert(mark(lower_seq(name)) == 1079407);
    } else {
        reveal_strlit("Referrer-Policy");
        let name = "Referrer-Policy"@;
        assert(name.len() == 15 && name[0] == 'R' && name[13] == 'c');
        assert(lower_seq(name)[0] == 'r' && lower_seq(name)[13] == 'c');
        assert(mark(lower_seq(name)) == 1012323);
    }
}

/// The marks of the names from place 48 up to place 60.
proof fn lemma_marks_4(i: int)
    requires
        48 <= i < 60,
    ensures
        marked(mark(HTTPHeaderType::known(i).canonical())) == i,
        HTTPHeaderType::known(i).name().len() >= 2,
{
    if i == 48 {
        reveal_strlit("Permissions-Policy");
        let name = "Permissions-Policy"@;
        assert(name.len() == 18 && name[0] == 'P' && name[16] == 'c');
        assert(lower_seq(name)[0] == 'p' && lower_seq(name)[16] == 'c');
        assert(mark(lower_seq(name)) == 1208419);
    } else if i == 49 {
        reveal_strlit("Expect-CT");
        let name = "Expect-CT"@;
        assert(name.len() == 9 && name[0] == 'E' && name[7] == 'C');
        assert(lower_seq(name)[0] == 'e' && lower_seq(name)[7] == 'c');
        assert(mark(lower_seq(name)) == 615779);
    } else if i == 50 {
        reveal_strlit("Access-Control-Allow-Origin");
        let name = "Access-Control-Allow-Origin"@;
        assert(name.len() == 27 && name[0] == 'A' && name[25] == 'i');
        assert(lower_seq(name)[0] == 'a' && lower_seq(name)[25] == 'i');
        assert(mark(lower_seq(name)) == 1794409);
    } else if i == 51 {
        reveal_strlit("Access-Control-Allow-Methods");
        let name = "Access-Control-Allow-Methods"@;
        assert(name.len() == 28 && name[0] == 'A' && name[26] == 'd');
        assert(lower_seq(name)[0] == 'a' && lower_seq(name)[26] == 'd');
        assert(mark(lower_seq(name)) == 1859940);
    } else if i == 52 {
        reveal_strlit("Access-Control-Allow-Headers");
        let name = "Access-Control-Allow-Headers"@;
        assert(name.len() == 28 && name[0] == 'A' && name[26] == 'r');
        assert(lower_seq(name)[0] == 'a' && lower_seq(name)[26] == 'r');
        assert(mark(lower_seq(name)) == 1859954);
    } else if i == 53 {
        reveal_strlit("Access-Control-Allow-Credentials");
        let name = "Access-Control-Allow-Credentials"@;
        assert(name.len() == 32 && name[0] == 'A' && name[30] == 'l');
        assert(lower_seq(name)[0] == 'a' && lower_seq(name)[30] == 'l');
        assert(mark(lower_seq(name)) == 2122092);
    } else if i == 54 {
        reveal_strlit("Access-Control-Expose-Headers");
        let name = "Access-Control-Expose-Headers"@;
        assert(name.len() == 29 && name[0] == 'A' && name[27] == 'r');
        assert(lower_seq(name)[0] == 'a' && lower_seq(name)[27] == 'r');
        assert(mark(lower_seq(name)) == 1925490);
    } else if i == 55 {
        reveal_strlit("Access-Control-Max-Age");
        let name = "Access-Control-Max-Age"@;
        assert(name.len() == 22 && name[0] == 'A' && name[20] == 'g');
        assert(lower_seq(name)[0] == 'a' && lower_seq(name)[20] == 'g');
        assert(mark(lower_seq(name)) == 1466727);
    } else if i == 56 {
        reveal_strlit("Access-Control-Request-Method");
        let name = "Access-Control-Request-Method"@;
        assert(name.len() == 29 && name[0] == 'A' && name[27] == 'o');
        assert(lower_seq(name)[0] == 'a' && lower_seq(name)[27] == 'o');
        assert(mark(lower_seq(name)) == 1925487);
    } else if i == 57 {
        reveal_strlit("Access-Control-Request-Headers");
        let name = "Access-Control-Request-Headers"@;
        assert(name.len() == 30 && name[0] == 'A' && name[28] == 'r');
        assert(lower_seq(name)[0] == 'a' && lower_seq(name)[28] == 'r');
        assert(mark(lower_seq(name)) == 1991026);
    } else if i == 58 {
        reveal_strlit("Sec-Fetch-Site");
        let name = "Sec-Fetch-Site"@;
        assert(name.len() == 14 && name[0] == 'S' && name[12] == 't');
        assert(lower_seq(name)[0] == 's' && lower_seq(name)[12] == 't');
        assert(mark(lower_seq(name)) == 947060);
    } else {
        reveal_strlit("Sec-Fetch-Mode");
        let name = "Sec-Fetch-Mode"@;
        assert(name.len() == 14 && name[0] == 'S' && name[12] == 'd');
        assert(lower_seq(name)[0] == 's' && lower_seq(name)[12] == 'd');
        assert(mark(lower_seq(name)) == 947044);
    }
}

/// The marks of the names from place 60 up to place 72.
proof fn lemma_marks_5(i: int)
    requires
        60 <= i < 72,
    ensures
        marked(mark(HTTPHeaderType::known(i).canonical())) == i,
        HTTPHeaderType::known(i).name().len() >= 2,
{
    if i == 60 {
        reveal_strlit("Sec-Fetch-Dest");
        let name = "Sec-Fetch-Dest"@;
        assert(name.len() == 14 && name[0] == 'S' && name[12] == 's');
        assert(lower_seq(name)[0] == 's' && lower_seq(name)[12] == 's');
        assert(mark(lower_seq(name)) == 947059);
    } else if i == 61 {
        reveal_strlit("Sec-Fetch-User");
        let name = "Sec-Fetch-User"@;
        assert(name.len() == 14 && name[0] == 'S' && name[12] == 'e');
        assert(lower_seq(name)[0] == 's' && lower_seq(name)[12] == 'e');
        assert(mark(lower_seq(name)) == 947045);
    } else if i == 62 {
        reveal_strlit("Sec-CH-UA");
        let name = "Sec-CH-UA"@;
        assert(name.len() == 9 && name[0] == 'S' && name[7] == 'U');
        assert(lower_seq(name)[0] == 's' && lower_seq(name)[7] == 'u');
        assert(mark(lower_seq(name)) == 619381);
    } else if i == 63 {
        reveal_strlit("Sec-CH-UA-Mobile");
        let name = "Sec-CH-UA-Mobile"@;
        assert(name.len() == 16 && name[0] == 'S' && name[14] == 'l');
        assert(lower_seq(name)[0] == 's' && lower_seq(name)[14] == 'l');
        assert(mark(lower_seq(name)) == 1078124);
    } else if i == 64 {
        reveal_strlit("Sec-CH-UA-Platform");
        let name = "Sec-CH-UA-Platform"@;
        assert(name.len() == 18 && name[0] == 'S' && name[16] == 'r');
        assert(lower_seq(name)[0] == 's' && lower_seq(name)[16] == 'r');
        assert(mark(lower_seq(name)) == 1209202);
    } else if i == 65 {
        reveal_strlit("Accept-CH");
        let name = "Accept-CH"@;
        assert(name.len() == 9 && name[0] == 'A' && name[7] == 'C');
        assert(lower_seq(name)[0] == 'a' && lower_seq(name)[7] == 'c');
        assert(mark(lower_seq(name)) == 614755);
    } else if i == 66 {
        reveal_strlit("Server");
        let name = "Server"@;
        assert(name.len() == 6 && name[0] == 'S' && name[4] == 'e');
        assert(lower_seq(name)[0] == 's' && lower_seq(name)[4] == 'e');
        assert(mark(lower_seq(name)) == 422757);
    } else if i == 67 {
        reveal_strlit("Date");
        let name = "Date"@;
        assert(name.len() == 4 && name[0] == 'D' && name[2] == 't');
        assert(lower_seq(name)[0] == 'd' && lower_seq(name)[2] == 't');
        assert(mark(lower_seq(name)) == 287860);
    } else if i == 68 {
        reveal_strlit("Allow");
        let name = "Allow"@;
        assert(name.len() == 5 && name[0] == 'A' && name[3] == 'o');
        assert(lower_seq(name)[0] == 'a' && lower_seq(name)[3] == 'o');
        assert(mark(lower_seq(name)) == 352623);
    } else if i == 69 {
        reveal_strlit("Retry-After");
        let name = "Retry-After"@;
        assert(name.len() == 11 && name[0] == 'R' && name[9] == 'e');
        assert(lower_seq(name)[0] == 'r' && lower_seq(name)[9] == 'e');
        assert(mark(lower_seq(name)) == 750181);
    } else if i == 70 {
        reveal_strlit("Warning");
        let name = "Warning"@;
        assert(name.len() == 7 && name[0] == 'W' && name[5] == 'n');
        assert(lower_seq(name)[0] == 'w' && lower_seq(name)[5] == 'n');
        assert(mark(lower_seq(name)) == 489326);
    } else {
        reveal_strlit("TE");
        let name = "TE"@;
        assert(name.len() == 2 && name[0] == 'T' && name[0] == 'T');
        assert(lower_seq(name)[0] == 't' && lower_seq(name)[0] == 't');
        assert(mark(lower_seq(name)) == 160884);
    }
}

/// The marks of the names from place 72 up to place 83.
proof fn lemma_marks_6(i: int)
    requires
        72 <= i < 83,
    ensures
        marked(mark(HTTPHeaderType::known(i).canonical())) == i,
        HTTPHeaderType::known(i).name().len() >= 2,
{
    if i == 72 {
        reveal_strlit("Sec-WebSocket-Key");
        let name = "Sec-WebSocket-Key"@;
        assert(name.len() == 17 && name[0] == 'S' && name[15] == 'e');
        assert(lower_seq(name)[0] == 's' && lower_seq(name)[15] == 'e');
        assert(mark(lower_seq(name)) == 1143653);
    } else if i == 73 {
        reveal_strlit("Sec-WebSocket-Accept");
        let name = "Sec-WebSocket-Accept"@;
        assert(name.len() == 20 && name[0] == 'S' && name[18] == 'p');
        assert(lower_seq(name)[0] == 's' && lower_seq(name)[18] == 'p');
        assert(mark(lower_seq(name)) == 1340272);
    } else if i == 74 {
        reveal_strlit("Sec-WebSocket-Version");
        let name = "Sec-WebSocket-Version"@;
        assert(name.len() == 21 && name[0] == 'S' && name[19] == 'o');
        assert(lower_seq(name)[0] == 's' && lower_seq(name)[19] == 'o');
        assert(mark(lower_seq(name)) == 1405807);
    } else if i == 75 {
        reveal_strlit("Sec-WebSocket-Protocol");
        let name = "Sec-WebSocket-Protocol"@;
        assert(name.len() == 22 && name[0] == 'S' && name[20] == 'o');
        assert(lower_seq(name)[0] == 's' && lower_seq(name)[20] == 'o');
        assert(mark(lower_seq(name)) == 1471343);
    } else if i == 76 {
        reveal_strlit("Forwarded");
        let name = "Forwarded"@;
        assert(name.len() == 9 && name[0] == 'F' && name[7] == 'e');
        assert(lower_seq(name)[0] == 'f' && lower_seq(name)[7] == 'e');
        assert(mark(lower_seq(name)) == 616037);
    } else if i == 77 {
        reveal_strlit("X-Forwarded-For");
        let name = "X-Forwarded-For"@;
        assert(name.len() == 15 && name[0] == 'X' && name[13] == 'o');
        assert(lower_seq(name)[0] == 'x' && lower_seq(name)[13] == 'o');
        assert(mark(lower_seq(name)) == 1013871);
    } else if i == 78 {
        reveal_strlit("X-Forwarded-Host");
        let name = "X-Forwarded-Host"@;
        assert(name.len() == 16 && name[0] == 'X' && name[14] == 's');
        assert(lower_seq(name)[0] == 'x' && lower_seq(name)[14] == 's');
        assert(mark(lower_seq(name)) == 1079411);
    } else if i == 79 {
        reveal_strlit("X-Forwarded-Proto");
        let name = "X-Forwarded-Proto"@;
        assert(name.len() == 17 && name[0] == 'X' && name[15] == 't');
        assert(lower_seq(name)[0] == 'x' && lower_seq(name)[15] == 't');
        assert(mark(lower_seq(name)) == 1144948);
    } else if i == 80 {
        reveal_strlit("X-Real-IP");
        let name = "X-Real-IP"@;
        assert(name.len() == 9 && name[0] == 'X' && name[7] == 'I');
        assert(lower_seq(name)[0] == 'x' && lower_seq(name)[7] == 'i');
        assert(mark(lower_seq(name)) == 620649);
    } else if i == 81 {
        reveal_strlit("Expect");
        let name = "Expect"@;
        assert(name.len() == 6 && name[0] == 'E' && name[4] == 'c');
        assert(lower_seq(name)[0] == 'e' && lower_seq(name)[4] == 'c');
        assert(mark(lower_seq(name)) == 419171);
    } else {
        reveal_strlit("DNT");
        let name = "DNT"@;
        assert(name.len() == 3 && name[0] == 'D' && name[1] == 'N');
        assert(lower_seq(name)[0] == 'd' && lower_seq(name)[1] == 'n');
        assert(mark(lower_seq(name)) == 222318);
    }
}

/// The canonical name of a well-known header has the mark that leads back
/// to its place in the table.
proof fn lemma_marks(i: int)
    requires
        0 <= i < KNOWN_HEADERS,
    ensures
        marked(mark(HTTPHeaderType::known(i).canonical())) == i,
{
    if i < 12 {
        lemma_marks_0(i);
    } else if i < 24 {
        lemma_marks_1(i);
    } else if i < 36 {
        lemma_marks_2(i);
    } else if i < 48 {
        lemma_marks_3(i);
    } else if i < 60 {
        lemma_marks_4(i);
    } else if i < 72 {
        lemma_marks_5(i);
    } else {
        lemma_marks_6(i);
    }
}

impl HTTPHeaderType {
    /// No two well-known headers have one canonical name.
    pub proof fn lemma_known_distinct(i: int, j: int)
        requires
            0 <= i < KNOWN_HEADERS,
            0 <= j < KNOWN_HEADERS,
            i != j,
        ensures
            Self::known(i).canonical() != Self::known(j).canonical(),
    {
        lemma_marks(i);
        lemma_marks(j);
    }

    /// A name that spells a well-known header, whatever its case, is
    /// recognized as that header and as no other.
    pub proof fn lemma_recognized(name: Seq<char>, i: int)
        requires
            Self::spelled(name, i),
        ensures
            Self::recognized(name) == Some(Self::known(i)),
    {
        assert forall|j: int| 0 <= j < i implies !Self::spelled(name, j) by {
            Self::lemma_known_distinct(i, j);
        }
        assert(Self::first_spelled(name, i));
        let c = choose|c: int| Self::first_spelled(name, c);
        if c != i {
            Self::lemma_known_distinct(i, c);
        }
    }

    /// The name of a well-known header is recognized as that header: the
    /// names and the headers stand for each other.
    pub proof fn lemma_name_recognized(i: int)
        requires
            0 <= i < KNOWN_HEADERS,
        ensures
            Self::recognized(Self::known(i).name()) == Some(Self::known(i)),
    {
        Self::lemma_recognized(Self::known(i).name(), i);
    }
}

impl PartialEq for HTTPHeaderType {
    /// Two names are equal where they name the same header.
    fn eq(&self, other: &HTTPHeaderType) -> (r: bool) {
        self.same_header(other)
    }
}

impl Eq for HTTPHeaderType {

}

impl vstd::std_specs::cmp::PartialEqSpecImpl for HTTPHeaderType {
    open spec fn obeys_eq_spec() -> bool {
        true
    }

    open spec fn eq_spec(&self, other: &HTTPHeaderType) -> bool {
        self.canonical() == other.canonical()
    }
}

impl core::str::FromStr for HTTPHeaderType {
    type Err = ();

    /// The header that `s` names. Every name is accepted: the result is
    /// always `Ok`, of the well-known header that `s` spells, whatever the
    /// case of its ASCII letters, and otherwise of
    /// [`HTTPHeaderType::Other`] holding `s` as written.
    fn from_str(s: &str) -> (r: Result<HTTPHeaderType, ()>)
        ensures
            match r {
                Ok(h) => h.canonical() == lower_seq(s@) && match HTTPHeaderType::recognized(s@) {
                    Some(known) => h == known,
                    None => h matches HTTPHeaderType::Other(raw) && raw@ == s@,
                },
                Err(_) => false,
            },
    {
        Ok(HTTPHeaderType::from_name(s))
    }
}

} // verus!
