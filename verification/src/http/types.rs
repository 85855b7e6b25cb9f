//! HTTP vocabulary: schemes, methods, versions, content types, statuses.

use vstd::prelude::*;
use vstd::string::*;

use crate::err::Error;
use crate::err::Result;
use crate::text::decimal;
use crate::text::decimal_string;
use crate::text::join;
use crate::text::join_owned;
use crate::text::str_eq;
use crate::path::{extension, path_extension};

verus! {

/// The default port of plain HTTP.
pub const HTTP_PORT: u16 = 80;

/// The default port of HTTP over TLS.
pub const HTTPS_PORT: u16 = 443;

/// A URL scheme that the HTTP client speaks.
#[derive(Clone, Copy, PartialEq, Eq, Structural, Debug)]
pub enum Scheme {
    HTTP,
    HTTPS,
}

/// The default port of a scheme.
pub open spec fn scheme_port(s: Scheme) -> u16 {
    match s {
        Scheme::HTTP => HTTP_PORT,
        Scheme::HTTPS => HTTPS_PORT,
    }
}

/// The scheme that a URL's scheme text names, if any.
pub open spec fn scheme_from_text(s: Seq<char>) -> Option<Scheme> {
    if s == "http"@ {
        Some(Scheme::HTTP)
    } else if s == "https"@ {
        Some(Scheme::HTTPS)
    } else {
        None
    }
}

impl Scheme {
    /// The default port of this scheme.
    pub fn port(&self) -> (r: u16)
        ensures
            r == scheme_port(*self),
    {
        match self {
            Scheme::HTTP => HTTP_PORT,
            Scheme::HTTPS => HTTPS_PORT,
        }
    }

    /// Reads a scheme from its lower-case name.
    pub fn from_str(s: &str) -> (r: Result<Scheme>)
        ensures
            match r {
                Ok(x) => scheme_from_text(s@) == Some(x),
                Err(e) => scheme_from_text(s@) is None && (e matches Error::Misc(m) && m@ == "failed to parse scheme from "@ + s@),
            },
    {
        if str_eq(s, "http") {
            Ok(Scheme::HTTP)
        } else if str_eq(s, "https") {
            Ok(Scheme::HTTPS)
        } else {
            Err(Error::Misc(join("failed to parse scheme from ", s)))
        }
    }
}

/// An HTTP request method.
#[derive(Clone, Copy, PartialEq, Eq, Structural, Debug, Hash)]
pub enum Method {
    GET,
    POST,
    PUT,
    DELETE,
}

/// The wire name of a method.
pub open spec fn method_text(m: Method) -> Seq<char> {
    match m {
        Method::GET => "GET"@,
        Method::POST => "POST"@,
        Method::PUT => "PUT"@,
        Method::DELETE => "DELETE"@,
    }
}

/// The method that a request line names, if the parser knows it.
/// Only `GET` and `POST` are recognised.
pub open spec fn method_from_text(s: Seq<char>) -> Option<Method> {
    if s == "GET"@ {
        Some(Method::GET)
    } else if s == "POST"@ {
        Some(Method::POST)
    } else {
        None
    }
}

impl Method {
    /// The wire name of this method.
    pub fn as_str(&self) -> (r: &'static str)
        ensures
            r@ == method_text(*self),
    {
        match self {
            Method::GET => "GET",
            Method::POST => "POST",
            Method::PUT => "PUT",
            Method::DELETE => "DELETE",
        }
    }

    /// Reads a method from its wire name.
    pub fn from_str(s: &str) -> (r: Result<Method>)
        ensures
            match r {
                Ok(x) => method_from_text(s@) == Some(x),
                Err(e) => method_from_text(s@) is None && (e matches Error::Misc(m) && m@ == "failed to parse http method from "@ + s@),
            },
    {
        if str_eq(s, "GET") {
            Ok(Method::GET)
        } else if str_eq(s, "POST") {
            Ok(Method::POST)
        } else {
            Err(Error::Misc(join("failed to parse http method from ", s)))
        }
    }
}

/// An HTTP protocol version.
#[derive(Clone, Copy, PartialEq, Eq, Structural, Debug)]
pub enum Version {
    V10,
    V11,
    V20,
}

/// The wire name of a version.
pub open spec fn version_text(v: Version) -> Seq<char> {
    match v {
        Version::V10 => "HTTP/1.0"@,
        Version::V11 => "HTTP/1.1"@,
        Version::V20 => "HTTP/2.0"@,
    }
}

/// The version that a wire name denotes, if any.
pub open spec fn version_from_text(s: Seq<char>) -> Option<Version> {
    if s == "HTTP/1.0"@ {
        Some(Version::V10)
    } else if s == "HTTP/1.1"@ {
        Some(Version::V11)
    } else if s == "HTTP/2.0"@ {
        Some(Version::V20)
    } else {
        None
    }
}

/// The version that a numeric code denotes: `1` and anything unknown give
/// HTTP/1.0, `11` gives HTTP/1.1 and `2` gives HTTP/2.0.
pub open spec fn version_from_code(v: u8) -> Version {
    if v == 11 {
        Version::V11
    } else if v == 2 {
        Version::V20
    } else {
        Version::V10
    }
}

impl Version {
    /// The wire name of this version.
    pub fn as_str(&self) -> (r: &'static str)
        ensures
            r@ == version_text(*self),
    {
        match self {
            Version::V10 => "HTTP/1.0",
            Version::V11 => "HTTP/1.1",
            Version::V20 => "HTTP/2.0",
        }
    }

    /// Reads a version from its wire name.
    pub fn from_str(s: &str) -> (r: Result<Version>)
        ensures
            match r {
                Ok(x) => version_from_text(s@) == Some(x),
                Err(e) => version_from_text(s@) is None && (e matches Error::Misc(m) && m@ == "failed to parse http version from "@ + s@),
            },
    {
        if str_eq(s, "HTTP/1.0") {
            Ok(Version::V10)
        } else if str_eq(s, "HTTP/1.1") {
            Ok(Version::V11)
        } else if str_eq(s, "HTTP/2.0") {
            Ok(Version::V20)
        } else {
            Err(Error::Misc(join("failed to parse http version from ", s)))
        }
    }
}

impl vstd::std_specs::convert::FromSpecImpl<u8> for Version {
    open spec fn obeys_from_spec() -> bool {
        true
    }

    open spec fn from_spec(v: u8) -> Self {
        version_from_code(v)
    }
}

impl From<u8> for Version {
    fn from(v: u8) -> (r: Self) {
        if v == 1 {
            Version::V10
        } else if v == 11 {
            Version::V11
        } else if v == 2 {
            Version::V20
        } else {
            Version::V10
        }
    }
}


/// A media type that the toolkit recognises by file extension.
#[derive(Clone, Copy, PartialEq, Eq, Structural, Debug)]
pub enum ContentType {
    Text,
    HTML,
    XML,
    CSV,
    Markdown,
    CSS,
    PNG,
    JPEG,
    GIF,
    PDF,
    JavaScript,
    JSON,
    GraphQL,
    ZIP,
    MP3,
    OGG,
    WAV,
    MIDI,
    TTF,
    OTF,
    WOFF,
    WOFF2,
    MP4,
    MOV,
}

/// The MIME text of a content type.
pub open spec fn content_type_text(c: ContentType) -> Seq<char> {
    match c {
        ContentType::Text => "text/plain; charset=utf-8"@,
        ContentType::HTML => "text/html; charset=utf-8"@,
        ContentType::XML => "text/xml; charset=utf-8"@,
        ContentType::CSV => "text/csv; charset=utf-8"@,
        ContentType::Markdown => "text/markdown; charset=utf-8"@,
        ContentType::CSS => "text/css; charset=utf-8"@,
        ContentType::PNG => "image/png"@,
        ContentType::JPEG => "image/jpeg"@,
        ContentType::GIF => "image/gif"@,
        ContentType::PDF => "application/pdf"@,
        ContentType::JavaScript => "application/javascript"@,
        ContentType::JSON => "application/json"@,
        ContentType::GraphQL => "application/graphql"@,
        ContentType::ZIP => "application/zip"@,
        ContentType::MP3 => "audio/mpeg"@,
        ContentType::OGG => "audio/ogg"@,
        ContentType::WAV => "audio/wav"@,
        ContentType::MIDI => "audio/midi"@,
        ContentType::TTF => "font/ttf"@,
        ContentType::OTF => "font/otf"@,
        ContentType::WOFF => "font/woff"@,
        ContentType::WOFF2 => "font/woff2"@,
        ContentType::MP4 => "video/mp4"@,
        ContentType::MOV => "video/quicktime"@,
    }
}

/// The content type that a file extension denotes, if any.
pub open spec fn content_type_from_ext(e: Seq<char>) -> Option<ContentType> {
    if e == "txt"@ {
        Some(ContentType::Text)
    } else if e == "html"@ || e == "htm"@ {
        Some(ContentType::HTML)
    } else if e == "xml"@ {
        Some(ContentType::XML)
    } else if e == "csv"@ {
        Some(ContentType::CSV)
    } else if e == "md"@ || e == "markdown"@ {
        Some(ContentType::Markdown)
    } else if e == "css"@ {
        Some(ContentType::CSS)
    } else if e == "png"@ {
        Some(ContentType::PNG)
    } else if e == "jpg"@ || e == "jpeg"@ {
        Some(ContentType::JPEG)
    } else if e == "gif"@ {
        Some(ContentType::GIF)
    } else if e == "pdf"@ {
        Some(ContentType::PDF)
    } else if e == "js"@ {
        Some(ContentType::JavaScript)
    } else if e == "json"@ {
        Some(ContentType::JSON)
    } else if e == "graphql"@ {
        Some(ContentType::GraphQL)
    } else if e == "zip"@ {
        Some(ContentType::ZIP)
    } else if e == "mp3"@ {
        Some(ContentType::MP3)
    } else if e == "ogg"@ {
        Some(ContentType::OGG)
    } else if e == "wav"@ {
        Some(ContentType::WAV)
    } else if e == "midi"@ {
        Some(ContentType::MIDI)
    } else if e == "ttf"@ {
        Some(ContentType::TTF)
    } else if e == "otf"@ {
        Some(ContentType::OTF)
    } else if e == "woff"@ {
        Some(ContentType::WOFF)
    } else if e == "woff2"@ {
        Some(ContentType::WOFF2)
    } else if e == "mp4"@ {
        Some(ContentType::MP4)
    } else if e == "mov"@ {
        Some(ContentType::MOV)
    } else {
        None
    }
}

impl ContentType {
    /// The MIME text of this content type.
    pub fn as_str(&self) -> (r: &'static str)
        ensures
            r@ == content_type_text(*self),
    {
        match self {
            ContentType::Text => "text/plain; charset=utf-8",
            ContentType::HTML => "text/html; charset=utf-8",
            ContentType::XML => "text/xml; charset=utf-8",
            ContentType::CSV => "text/csv; charset=utf-8",
            ContentType::Markdown => "text/markdown; charset=utf-8",
            ContentType::CSS => "text/css; charset=utf-8",
            ContentType::PNG => "image/png",
            ContentType::JPEG => "image/jpeg",
            ContentType::GIF => "image/gif",
            ContentType::PDF => "application/pdf",
            ContentType::JavaScript => "application/javascript",
            ContentType::JSON => "application/json",
            ContentType::GraphQL => "application/graphql",
            ContentType::ZIP => "application/zip",
            ContentType::MP3 => "audio/mpeg",
            ContentType::OGG => "audio/ogg",
            ContentType::WAV => "audio/wav",
            ContentType::MIDI => "audio/midi",
            ContentType::TTF => "font/ttf",
            ContentType::OTF => "font/otf",
            ContentType::WOFF => "font/woff",
            ContentType::WOFF2 => "font/woff2",
            ContentType::MP4 => "video/mp4",
            ContentType::MOV => "video/quicktime",
        }
    }

    /// The content type that the extension of a file path denotes, if the
    /// path has an extension and it denotes one.
    pub fn from_path(path: &str) -> (r: Option<ContentType>)
        ensures
            r == match path_extension(path@) {
                Some(e) => content_type_from_ext(e),
                None => None,
            },
    {
        match extension(path) {
            Some(e) => ContentType::from_ext(e.as_str()),
            None => None,
        }
    }

    /// The content type that a file extension denotes, if any.
    pub fn from_ext(ext: &str) -> (r: Option<ContentType>)
        ensures
            r == content_type_from_ext(ext@),
    {
        if str_eq(ext, "txt") {
            Some(ContentType::Text)
        } else if str_eq(ext, "html") || str_eq(ext, "htm") {
            Some(ContentType::HTML)
        } else if str_eq(ext, "xml") {
            Some(ContentType::XML)
        } else if str_eq(ext, "csv") {
            Some(ContentType::CSV)
        } else if str_eq(ext, "md") || str_eq(ext, "markdown") {
            Some(ContentType::Markdown)
        } else if str_eq(ext, "css") {
            Some(ContentType::CSS)
        } else if str_eq(ext, "png") {
            Some(ContentType::PNG)
        } else if str_eq(ext, "jpg") || str_eq(ext, "jpeg") {
            Some(ContentType::JPEG)
        } else if str_eq(ext, "gif") {
            Some(ContentType::GIF)
        } else if str_eq(ext, "pdf") {
            Some(ContentType::PDF)
        } else if str_eq(ext, "js") {
            Some(ContentType::JavaScript)
        } else if str_eq(ext, "json") {
            Some(ContentType::JSON)
        } else if str_eq(ext, "graphql") {
            Some(ContentType::GraphQL)
        } else if str_eq(ext, "zip") {
            Some(ContentType::ZIP)
        } else if str_eq(ext, "mp3") {
            Some(ContentType::MP3)
        } else if str_eq(ext, "ogg") {
            Some(ContentType::OGG)
        } else if str_eq(ext, "wav") {
            Some(ContentType::WAV)
        } else if str_eq(ext, "midi") {
            Some(ContentType::MIDI)
        } else if str_eq(ext, "ttf") {
            Some(ContentType::TTF)
        } else if str_eq(ext, "otf") {
            Some(ContentType::OTF)
        } else if str_eq(ext, "woff") {
            Some(ContentType::WOFF)
        } else if str_eq(ext, "woff2") {
            Some(ContentType::WOFF2)
        } else if str_eq(ext, "mp4") {
            Some(ContentType::MP4)
        } else if str_eq(ext, "mov") {
            Some(ContentType::MOV)
        } else {
            None
        }
    }
}

/// Credentials for the `Authorization` header.
#[derive(Clone, Debug)]
pub enum Auth {
    Basic(String),
    Bearer(String),
    Digest(String),
}

/// The header text of a credential.
pub open spec fn auth_text(a: Auth) -> Seq<char> {
    match a {
        Auth::Basic(s) => "Basic "@ + s@,
        Auth::Bearer(s) => "Bearer "@ + s@,
        Auth::Digest(s) => "Digest "@ + s@,
    }
}

impl Auth {
    /// Renders the credential as header text.
    pub fn to_string(&self) -> (r: String)
        ensures
            r@ == auth_text(*self),
    {
        match self {
            Auth::Basic(s) => join("Basic ", s.as_str()),
            Auth::Bearer(s) => join("Bearer ", s.as_str()),
            Auth::Digest(s) => join("Digest ", s.as_str()),
        }
    }
}

/// The classes of response status.
#[derive(Clone, Copy, PartialEq, Eq, Structural, Debug)]
pub enum StatusRange {
    Info,
    Success,
    Redirect,
    ClientErr,
    ServerErr,
}

/// A response status.
#[derive(Clone, Copy, PartialEq, Eq, Structural, Debug)]
pub enum Status {
    Continue,
    SwitchingProtocols,
    Processing,
    OK,
    Created,
    Accepted,
    NonAuthoritativeInformation,
    NoContent,
    ResetContent,
    PartialContent,
    MultiStatus,
    AlreadyReported,
    ImUsed,
    MultipleChoices,
    MovedPermanently,
    Found,
    SeeOther,
    NotModified,
    UseProxy,
    TemporaryRedirect,
    PermanentRedirect,
    BadRequest,
    Unauthorized,
    PaymentRequired,
    Forbidden,
    NotFound,
    MethodNotAllowed,
    NotAcceptable,
    ProxyAuthenticationRequired,
    RequestTimeout,
    Conflict,
    Gone,
    LengthRequired,
    PreconditionFailed,
    PayloadTooLarge,
    UriTooLong,
    UnsupportedMediaType,
    RangeNotSatisfiable,
    ExpectationFailed,
    ImATeapot,
    MisdirectedRequest,
    UnprocessableEntity,
    Locked,
    FailedDependency,
    UpgradeRequired,
    PreconditionRequired,
    TooManyRequests,
    RequestHeaderFieldsTooLarge,
    UnavailableForLegalReasons,
    InternalServerError,
    NotImplemented,
    BadGateway,
    ServiceUnavailable,
    GatewayTimeout,
    HttpVersionNotSupported,
    VariantAlsoNegotiates,
    InsufficientStorage,
    LoopDetected,
    NotExtended,
    NetworkAuthenticationRequired,
}

/// The numeric code of a status.
pub open spec fn status_code(s: Status) -> u16 {
    match s {
        Status::Continue => 100,
        Status::SwitchingProtocols => 101,
        Status::Processing => 102,
        Status::OK => 200,
        Status::Created => 201,
        Status::Accepted => 202,
        Status::NonAuthoritativeInformation => 203,
        Status::NoContent => 204,
        Status::ResetContent => 205,
        Status::PartialContent => 206,
        Status::MultiStatus => 207,
        Status::AlreadyReported => 208,
        Status::ImUsed => 226,
        Status::MultipleChoices => 300,
        Status::MovedPermanently => 301,
        Status::Found => 302,
        Status::SeeOther => 303,
        Status::NotModified => 304,
        Status::UseProxy => 305,
        Status::TemporaryRedirect => 307,
        Status::PermanentRedirect => 308,
        Status::BadRequest => 400,
        Status::Unauthorized => 401,
        Status::PaymentRequired => 402,
        Status::Forbidden => 403,
        Status::NotFound => 404,
        Status::MethodNotAllowed => 405,
        Status::NotAcceptable => 406,
        Status::ProxyAuthenticationRequired => 407,
        Status::RequestTimeout => 408,
        Status::Conflict => 409,
        Status::Gone => 410,
        Status::LengthRequired => 411,
        Status::PreconditionFailed => 412,
        Status::PayloadTooLarge => 413,
        Status::UriTooLong => 414,
        Status::UnsupportedMediaType => 415,
        Status::RangeNotSatisfiable => 416,
        Status::ExpectationFailed => 417,
        Status::ImATeapot => 418,
        Status::MisdirectedRequest => 421,
        Status::UnprocessableEntity => 422,
        Status::Locked => 423,
        Status::FailedDependency => 424,
        Status::UpgradeRequired => 426,
        Status::PreconditionRequired => 428,
        Status::TooManyRequests => 429,
        Status::RequestHeaderFieldsTooLarge => 431,
        Status::UnavailableForLegalReasons => 451,
        Status::InternalServerError => 500,
        Status::NotImplemented => 501,
        Status::BadGateway => 502,
        Status::ServiceUnavailable => 503,
        Status::GatewayTimeout => 504,
        Status::HttpVersionNotSupported => 505,
        Status::VariantAlsoNegotiates => 506,
        Status::InsufficientStorage => 507,
        Status::LoopDetected => 508,
        Status::NotExtended => 510,
        Status::NetworkAuthenticationRequired => 511,
    }
}

/// The status that a numeric code denotes, if any.
pub open spec fn status_from_code(code: u16) -> Option<Status> {
    match code {
        100 => Some(Status::Continue),
        101 => Some(Status::SwitchingProtocols),
        102 => Some(Status::Processing),
        200 => Some(Status::OK),
        201 => Some(Status::Created),
        202 => Some(Status::Accepted),
        203 => Some(Status::NonAuthoritativeInformation),
        204 => Some(Status::NoContent),
        205 => Some(Status::ResetContent),
        206 => Some(Status::PartialContent),
        207 => Some(Status::MultiStatus),
        208 => Some(Status::AlreadyReported),
        226 => Some(Status::ImUsed),
        300 => Some(Status::MultipleChoices),
        301 => Some(Status::MovedPermanently),
        302 => Some(Status::Found),
        303 => Some(Status::SeeOther),
        304 => Some(Status::NotModified),
        305 => Some(Status::UseProxy),
        307 => Some(Status::TemporaryRedirect),
        308 => Some(Status::PermanentRedirect),
        400 => Some(Status::BadRequest),
        401 => Some(Status::Unauthorized),
        402 => Some(Status::PaymentRequired),
        403 => Some(Status::Forbidden),
        404 => Some(Status::NotFound),
        405 => Some(Status::MethodNotAllowed),
        406 => Some(Status::NotAcceptable),
        407 => Some(Status::ProxyAuthenticationRequired),
        408 => Some(Status::RequestTimeout),
        409 => Some(Status::Conflict),
        410 => Some(Status::Gone),
        411 => Some(Status::LengthRequired),
        412 => Some(Status::PreconditionFailed),
        413 => Some(Status::PayloadTooLarge),
        414 => Some(Status::UriTooLong),
        415 => Some(Status::UnsupportedMediaType),
        416 => Some(Status::RangeNotSatisfiable),
        417 => Some(Status::ExpectationFailed),
        418 => Some(Status::ImATeapot),
        421 => Some(Status::MisdirectedRequest),
        422 => Some(Status::UnprocessableEntity),
        423 => Some(Status::Locked),
        424 => Some(Status::FailedDependency),
        426 => Some(Status::UpgradeRequired),
        428 => Some(Status::PreconditionRequired),
        429 => Some(Status::TooManyRequests),
        431 => Some(Status::RequestHeaderFieldsTooLarge),
        451 => Some(Status::UnavailableForLegalReasons),
        500 => Some(Status::InternalServerError),
        501 => Some(Status::NotImplemented),
        502 => Some(Status::BadGateway),
        503 => Some(Status::ServiceUnavailable),
        504 => Some(Status::GatewayTimeout),
        505 => Some(Status::HttpVersionNotSupported),
        506 => Some(Status::VariantAlsoNegotiates),
        507 => Some(Status::InsufficientStorage),
        508 => Some(Status::LoopDetected),
        510 => Some(Status::NotExtended),
        511 => Some(Status::NetworkAuthenticationRequired),
        _ => None,
    }
}

/// The reason phrase of a status.
pub open spec fn status_reason(s: Status) -> Seq<char> {
    match s {
        Status::Continue => "Continue"@,
        Status::SwitchingProtocols => "Switching Protocols"@,
        Status::Processing => "Processing"@,
        Status::OK => "OK"@,
        Status::Created => "Created"@,
        Status::Accepted => "Accepted"@,
        Status::NonAuthoritativeInformation => "Non-Authoritative Information"@,
        Status::NoContent => "No Content"@,
        Status::ResetContent => "Reset Content"@,
        Status::PartialContent => "Partial Content"@,
        Status::MultiStatus => "Multi-Status"@,
        Status::AlreadyReported => "Already Reported"@,
        Status::ImUsed => "IM Used"@,
        Status::MultipleChoices => "Multiple Choices"@,
        Status::MovedPermanently => "Moved Permanently"@,
        Status::Found => "Found"@,
        Status::SeeOther => "See Other"@,
        Status::NotModified => "Not Modified"@,
        Status::UseProxy => "Use Proxy"@,
        Status::TemporaryRedirect => "Temporary Redirect"@,
        Status::PermanentRedirect => "Permanent Redirect"@,
        Status::BadRequest => "Bad Request"@,
        Status::Unauthorized => "Unauthorized"@,
        Status::PaymentRequired => "Payment Required"@,
        Status::Forbidden => "Forbidden"@,
        Status::NotFound => "Not Found"@,
        Status::MethodNotAllowed => "Method Not Allowed"@,
        Status::NotAcceptable => "Not Acceptable"@,
        Status::ProxyAuthenticationRequired => "Proxy Authentication Required"@,
        Status::RequestTimeout => "Request Timeout"@,
        Status::Conflict => "Conflict"@,
        Status::Gone => "Gone"@,
        Status::LengthRequired => "Length Required"@,
        Status::PreconditionFailed => "Precondition Failed"@,
        Status::PayloadTooLarge => "Payload Too Large"@,
        Status::UriTooLong => "URI Too Long"@,
        Status::UnsupportedMediaType => "Unsupported Media Type"@,
        Status::RangeNotSatisfiable => "Range Not Satisfiable"@,
        Status::ExpectationFailed => "Expectation Failed"@,
        Status::ImATeapot => "I'm a teapot"@,
        Status::MisdirectedRequest => "Misdirected Request"@,
        Status::UnprocessableEntity => "Unprocessable Entity"@,
        Status::Locked => "Locked"@,
        Status::FailedDependency => "Failed Dependency"@,
        Status::UpgradeRequired => "Upgrade Required"@,
        Status::PreconditionRequired => "Precondition Required"@,
        Status::TooManyRequests => "Too Many Requests"@,
        Status::RequestHeaderFieldsTooLarge => "Request Header Fields Too Large"@,
        Status::UnavailableForLegalReasons => "Unavailable For Legal Reasons"@,
        Status::InternalServerError => "Internal Server Error"@,
        Status::NotImplemented => "Not Implemented"@,
        Status::BadGateway => "Bad Gateway"@,
        Status::ServiceUnavailable => "Service Unavailable"@,
        Status::GatewayTimeout => "Gateway Timeout"@,
        Status::HttpVersionNotSupported => "HTTP Version Not Supported"@,
        Status::VariantAlsoNegotiates => "Variant Also Negotiates"@,
        Status::InsufficientStorage => "Insufficient Storage"@,
        Status::LoopDetected => "Loop Detected"@,
        Status::NotExtended => "Not Extended"@,
        Status::NetworkAuthenticationRequired => "Network Authentication Required"@,
    }
}

impl Status {
    /// Finds the status of a numeric code.
    pub fn from_code(code: u16) -> (r: Result<Status>)
        ensures
            match r {
                Ok(s) => status_from_code(code) == Some(s),
                Err(e) => status_from_code(code) is None && (e matches Error::Misc(m)
                    && m@ == "failed to get status from code "@ + decimal(code as nat)),
            },
    {
        match code {
            100 => Ok(Status::Continue),
            101 => Ok(Status::SwitchingProtocols),
            102 => Ok(Status::Processing),
            200 => Ok(Status::OK),
            201 => Ok(Status::Created),
            202 => Ok(Status::Accepted),
            203 => Ok(Status::NonAuthoritativeInformation),
            204 => Ok(Status::NoContent),
            205 => Ok(Status::ResetContent),
            206 => Ok(Status::PartialContent),
            207 => Ok(Status::MultiStatus),
            208 => Ok(Status::AlreadyReported),
            226 => Ok(Status::ImUsed),
            300 => Ok(Status::MultipleChoices),
            301 => Ok(Status::MovedPermanently),
            302 => Ok(Status::Found),
            303 => Ok(Status::SeeOther),
            304 => Ok(Status::NotModified),
            305 => Ok(Status::UseProxy),
            307 => Ok(Status::TemporaryRedirect),
            308 => Ok(Status::PermanentRedirect),
            400 => Ok(Status::BadRequest),
            401 => Ok(Status::Unauthorized),
            402 => Ok(Status::PaymentRequired),
            403 => Ok(Status::Forbidden),
            404 => Ok(Status::NotFound),
            405 => Ok(Status::MethodNotAllowed),
            406 => Ok(Status::NotAcceptable),
            407 => Ok(Status::ProxyAuthenticationRequired),
            408 => Ok(Status::RequestTimeout),
            409 => Ok(Status::Conflict),
            410 => Ok(Status::Gone),
            411 => Ok(Status::LengthRequired),
            412 => Ok(Status::PreconditionFailed),
            413 => Ok(Status::PayloadTooLarge),
            414 => Ok(Status::UriTooLong),
            415 => Ok(Status::UnsupportedMediaType),
            416 => Ok(Status::RangeNotSatisfiable),
            417 => Ok(Status::ExpectationFailed),
            418 => Ok(Status::ImATeapot),
            421 => Ok(Status::MisdirectedRequest),
            422 => Ok(Status::UnprocessableEntity),
            423 => Ok(Status::Locked),
            424 => Ok(Status::FailedDependency),
            426 => Ok(Status::UpgradeRequired),
            428 => Ok(Status::PreconditionRequired),
            429 => Ok(Status::TooManyRequests),
            431 => Ok(Status::RequestHeaderFieldsTooLarge),
            451 => Ok(Status::UnavailableForLegalReasons),
            500 => Ok(Status::InternalServerError),
            501 => Ok(Status::NotImplemented),
            502 => Ok(Status::BadGateway),
            503 => Ok(Status::ServiceUnavailable),
            504 => Ok(Status::GatewayTimeout),
            505 => Ok(Status::HttpVersionNotSupported),
            506 => Ok(Status::VariantAlsoNegotiates),
            507 => Ok(Status::InsufficientStorage),
            508 => Ok(Status::LoopDetected),
            510 => Ok(Status::NotExtended),
            511 => Ok(Status::NetworkAuthenticationRequired),
            _ => Err(Error::Misc(join_owned("failed to get status from code ", decimal_string(code as u64)))),
        }
    }

    /// The reason phrase of this status.
    pub fn reason(&self) -> (r: &'static str)
        ensures
            r@ == status_reason(*self),
    {
        match self {
            Status::Continue => "Continue",
            Status::SwitchingProtocols => "Switching Protocols",
            Status::Processing => "Processing",
            Status::OK => "OK",
            Status::Created => "Created",
            Status::Accepted => "Accepted",
            Status::NonAuthoritativeInformation => "Non-Authoritative Information",
            Status::NoContent => "No Content",
            Status::ResetContent => "Reset Content",
            Status::PartialContent => "Partial Content",
            Status::MultiStatus => "Multi-Status",
            Status::AlreadyReported => "Already Reported",
            Status::ImUsed => "IM Used",
            Status::MultipleChoices => "Multiple Choices",
            Status::MovedPermanently => "Moved Permanently",
            Status::Found => "Found",
            Status::SeeOther => "See Other",
            Status::NotModified => "Not Modified",
            Status::UseProxy => "Use Proxy",
            Status::TemporaryRedirect => "Temporary Redirect",
            Status::PermanentRedirect => "Permanent Redirect",
            Status::BadRequest => "Bad Request",
            Status::Unauthorized => "Unauthorized",
            Status::PaymentRequired => "Payment Required",
            Status::Forbidden => "Forbidden",
            Status::NotFound => "Not Found",
            Status::MethodNotAllowed => "Method Not Allowed",
            Status::NotAcceptable => "Not Acceptable",
            Status::ProxyAuthenticationRequired => "Proxy Authentication Required",
            Status::RequestTimeout => "Request Timeout",
            Status::Conflict => "Conflict",
            Status::Gone => "Gone",
            Status::LengthRequired => "Length Required",
            Status::PreconditionFailed => "Precondition Failed",
            Status::PayloadTooLarge => "Payload Too Large",
            Status::UriTooLong => "URI Too Long",
            Status::UnsupportedMediaType => "Unsupported Media Type",
            Status::RangeNotSatisfiable => "Range Not Satisfiable",
            Status::ExpectationFailed => "Expectation Failed",
            Status::ImATeapot => "I'm a teapot",
            Status::MisdirectedRequest => "Misdirected Request",
            Status::UnprocessableEntity => "Unprocessable Entity",
            Status::Locked => "Locked",
            Status::FailedDependency => "Failed Dependency",
            Status::UpgradeRequired => "Upgrade Required",
            Status::PreconditionRequired => "Precondition Required",
            Status::TooManyRequests => "Too Many Requests",
            Status::RequestHeaderFieldsTooLarge => "Request Header Fields Too Large",
            Status::UnavailableForLegalReasons => "Unavailable For Legal Reasons",
            Status::InternalServerError => "Internal Server Error",
            Status::NotImplemented => "Not Implemented",
            Status::BadGateway => "Bad Gateway",
            Status::ServiceUnavailable => "Service Unavailable",
            Status::GatewayTimeout => "Gateway Timeout",
            Status::HttpVersionNotSupported => "HTTP Version Not Supported",
            Status::VariantAlsoNegotiates => "Variant Also Negotiates",
            Status::InsufficientStorage => "Insufficient Storage",
            Status::LoopDetected => "Loop Detected",
            Status::NotExtended => "Not Extended",
            Status::NetworkAuthenticationRequired => "Network Authentication Required",
        }
    }

    /// The numeric code of this status.
    pub fn code(&self) -> (r: u16)
        ensures
            r == status_code(*self),
    {
        match self {
            Status::Continue => 100,
            Status::SwitchingProtocols => 101,
            Status::Processing => 102,
            Status::OK => 200,
            Status::Created => 201,
            Status::Accepted => 202,
            Status::NonAuthoritativeInformation => 203,
            Status::NoContent => 204,
            Status::ResetContent => 205,
            Status::PartialContent => 206,
            Status::MultiStatus => 207,
            Status::AlreadyReported => 208,
            Status::ImUsed => 226,
            Status::MultipleChoices => 300,
            Status::MovedPermanently => 301,
            Status::Found => 302,
            Status::SeeOther => 303,
            Status::NotModified => 304,
            Status::UseProxy => 305,
            Status::TemporaryRedirect => 307,
            Status::PermanentRedirect => 308,
            Status::BadRequest => 400,
            Status::Unauthorized => 401,
            Status::PaymentRequired => 402,
            Status::Forbidden => 403,
            Status::NotFound => 404,
            Status::MethodNotAllowed => 405,
            Status::NotAcceptable => 406,
            Status::ProxyAuthenticationRequired => 407,
            Status::RequestTimeout => 408,
            Status::Conflict => 409,
            Status::Gone => 410,
            Status::LengthRequired => 411,
            Status::PreconditionFailed => 412,
            Status::PayloadTooLarge => 413,
            Status::UriTooLong => 414,
            Status::UnsupportedMediaType => 415,
            Status::RangeNotSatisfiable => 416,
            Status::ExpectationFailed => 417,
            Status::ImATeapot => 418,
            Status::MisdirectedRequest => 421,
            Status::UnprocessableEntity => 422,
            Status::Locked => 423,
            Status::FailedDependency => 424,
            Status::UpgradeRequired => 426,
            Status::PreconditionRequired => 428,
            Status::TooManyRequests => 429,
            Status::RequestHeaderFieldsTooLarge => 431,
            Status::UnavailableForLegalReasons => 451,
            Status::InternalServerError => 500,
            Status::NotImplemented => 501,
            Status::BadGateway => 502,
            Status::ServiceUnavailable => 503,
            Status::GatewayTimeout => 504,
            Status::HttpVersionNotSupported => 505,
            Status::VariantAlsoNegotiates => 506,
            Status::InsufficientStorage => 507,
            Status::LoopDetected => 508,
            Status::NotExtended => 510,
            Status::NetworkAuthenticationRequired => 511,
        }
    }

    /// Whether this is a success status (2xx).
    pub fn success(&self) -> (r: bool)
        ensures
            r == (200 <= status_code(*self) <= 299),
    {
        let c = self.code();
        c >= 200 && c <= 299
    }

    /// Whether this is a redirection status (3xx).
    pub fn redirect(&self) -> (r: bool)
        ensures
            r == (300 <= status_code(*self) <= 399),
    {
        let c = self.code();
        c >= 300 && c <= 399
    }

    /// Whether this is a client error status (4xx).
    pub fn client_err(&self) -> (r: bool)
        ensures
            r == (400 <= status_code(*self) <= 499),
    {
        let c = self.code();
        c >= 400 && c <= 499
    }

    /// Whether this is a server error status (5xx).
    pub fn server_err(&self) -> (r: bool)
        ensures
            r == (500 <= status_code(*self) <= 599),
    {
        let c = self.code();
        c >= 500 && c <= 599
    }
}


/// Reading back the wire name of a method gives the method again, for the
/// methods that the parser recognises (`GET` and `POST`).
pub proof fn lemma_method_text_roundtrip(m: Method)
    requires
        m == Method::GET || m == Method::POST,
    ensures
        method_from_text(method_text(m)) == Some(m),
{
    reveal_strlit("GET");
    reveal_strlit("POST");
    assert("GET"@.len() != "POST"@.len());
}

/// Reading back the wire name of any version gives the version again.
pub proof fn lemma_version_text_roundtrip(v: Version)
    ensures
        version_from_text(version_text(v)) == Some(v),
{
    reveal_strlit("HTTP/1.0");
    reveal_strlit("HTTP/1.1");
    reveal_strlit("HTTP/2.0");
    assert("HTTP/1.0"@[7] != "HTTP/1.1"@[7]);
    assert("HTTP/1.0"@[5] != "HTTP/2.0"@[5]);
    assert("HTTP/1.1"@[5] != "HTTP/2.0"@[5]);
}

/// Looking up the code of any status gives the status again, and a status
/// found for a code carries that code.
pub proof fn lemma_status_code_roundtrip(s: Status, code: u16)
    ensures
        status_from_code(status_code(s)) == Some(s),
        status_from_code(code) matches Some(t) ==> status_code(t) == code,
{
}

/// A status belongs to at most one of the success, redirect, client-error
/// and server-error classes.
pub proof fn lemma_status_classes_disjoint(s: Status)
    ensures
        !(200 <= status_code(s) <= 299 && 300 <= status_code(s) <= 399),
        !(300 <= status_code(s) <= 399 && 400 <= status_code(s) <= 499),
        !(400 <= status_code(s) <= 499 && 500 <= status_code(s) <= 599),
{
}

/// The reason phrase registered for each HTTP status code (the IANA
/// status code registry, as far as this library knows codes).
pub open spec fn registered_phrase(code: u16) -> Option<Seq<char>> {
    match code {
        100 => Some("Continue"@),
        101 => Some("Switching Protocols"@),
        102 => Some("Processing"@),
        200 => Some("OK"@),
        201 => Some("Created"@),
        202 => Some("Accepted"@),
        203 => Some("Non-Authoritative Information"@),
        204 => Some("No Content"@),
        205 => Some("Reset Content"@),
        206 => Some("Partial Content"@),
        207 => Some("Multi-Status"@),
        208 => Some("Already Reported"@),
        226 => Some("IM Used"@),
        300 => Some("Multiple Choices"@),
        301 => Some("Moved Permanently"@),
        302 => Some("Found"@),
        303 => Some("See Other"@),
        304 => Some("Not Modified"@),
        305 => Some("Use Proxy"@),
        307 => Some("Temporary Redirect"@),
        308 => Some("Permanent Redirect"@),
        400 => Some("Bad Request"@),
        401 => Some("Unauthorized"@),
        402 => Some("Payment Required"@),
        403 => Some("Forbidden"@),
        404 => Some("Not Found"@),
        405 => Some("Method Not Allowed"@),
        406 => Some("Not Acceptable"@),
        407 => Some("Proxy Authentication Required"@),
        408 => Some("Request Timeout"@),
        409 => Some("Conflict"@),
        410 => Some("Gone"@),
        411 => Some("Length Required"@),
        412 => Some("Precondition Failed"@),
        413 => Some("Payload Too Large"@),
        414 => Some("URI Too Long"@),
        415 => Some("Unsupported Media Type"@),
        416 => Some("Range Not Satisfiable"@),
        417 => Some("Expectation Failed"@),
        418 => Some("I'm a teapot"@),
        421 => Some("Misdirected Request"@),
        422 => Some("Unprocessable Entity"@),
        423 => Some("Locked"@),
        424 => Some("Failed Dependency"@),
        426 => Some("Upgrade Required"@),
        428 => Some("Precondition Required"@),
        429 => Some("Too Many Requests"@),
        431 => Some("Request Header Fields Too Large"@),
        451 => Some("Unavailable For Legal Reasons"@),
        500 => Some("Internal Server Error"@),
        501 => Some("Not Implemented"@),
        502 => Some("Bad Gateway"@),
        503 => Some("Service Unavailable"@),
        504 => Some("Gateway Timeout"@),
        505 => Some("HTTP Version Not Supported"@),
        506 => Some("Variant Also Negotiates"@),
        507 => Some("Insufficient Storage"@),
        508 => Some("Loop Detected"@),
        510 => Some("Not Extended"@),
        511 => Some("Network Authentication Required"@),
        _ => None,
    }
}

/// Each status carries its registered code: the phrase registered for a
/// status's code is the status's own reason phrase, and the status found
/// for a code has the phrase registered for that code. A code is known
/// exactly when a phrase is registered for it.
pub proof fn lemma_status_matches_registry(s: Status, code: u16)
    ensures
        registered_phrase(status_code(s)) == Some(status_reason(s)),
        status_from_code(code) is Some <==> registered_phrase(code) is Some,
        status_from_code(code) matches Some(t) ==> registered_phrase(code) == Some(status_reason(t)),
{
}

} // verus!
