//! HTTP requests: building, parsing and serialising.

use vstd::prelude::*;
use vstd::slice::*;
use vstd::string::*;
use vstd::utf8::encode_utf8;

use crate::err::Error;
use crate::err::Result;
use crate::http::header::headers_text;
use crate::http::header::set_header;
use crate::http::header::Header;
use crate::http::header::HeaderMap;
use crate::http::types::method_from_text;
use crate::http::types::method_text;
use crate::http::types::scheme_from_text;
use crate::http::types::scheme_port;
use crate::http::types::version_from_code;
use crate::http::types::version_text;
use crate::http::types::Method;
use crate::http::types::Scheme;
use crate::http::types::Version;
use crate::http::types::HTTP_PORT;
use crate::text::join;

verus! {

/// The parts of a URL that a request is built from: its scheme text, its
/// host (absent for URLs without one) and its path.
pub struct UrlParts {
    pub scheme: String,
    pub host: Option<String>,
    pub path: String,
}

/// The parts of a request head that the parser found: method text, path,
/// minor version number, and the offset at which the body starts.
pub struct RawHead {
    pub method: Option<String>,
    pub path: Option<String>,
    pub version: Option<u8>,
    pub body_start: usize,
}

/// The text view of an optional string.
pub open spec fn opt_view(o: Option<String>) -> Option<Seq<char>> {
    match o {
        Some(s) => Some(s@),
        None => None,
    }
}

/// The plain-value view of parsed URL parts.
pub open spec fn url_parts_view(p: Option<UrlParts>) -> Option<(Seq<char>, Option<Seq<char>>, Seq<char>)> {
    match p {
        Some(u) => Some((u.scheme@, opt_view(u.host), u.path@)),
        None => None,
    }
}

/// The plain-value view of a parse outcome for a request head.
pub open spec fn raw_head_view(r: std::result::Result<Option<RawHead>, ()>) -> std::result::Result<
    Option<(Option<Seq<char>>, Option<Seq<char>>, Option<u8>, usize)>,
    (),
> {
    match r {
        Ok(Some(h)) => Ok(Some((opt_view(h.method), opt_view(h.path), h.version, h.body_start))),
        Ok(None) => Ok(None),
        Err(()) => Err(()),
    }
}

/// What `url::Url::parse` yields for a text, seen through the URL's
/// `scheme`, `host_str` and `path` accessors; `None` when the text is no URL.
pub uninterp spec fn spec_url_parts(s: Seq<char>) -> Option<(Seq<char>, Option<Seq<char>>, Seq<char>)>;

/// What `httparse::Request::parse` yields for a buffer with room for 128
/// headers: an error, an incomplete head (`None`), or the request line's
/// method, path and minor version with the offset of the body.
pub uninterp spec fn spec_parse_request_head(buf: Seq<u8>) -> std::result::Result<
    Option<(Option<Seq<char>>, Option<Seq<char>>, Option<u8>, usize)>,
    (),
>;

/// Splits a URL with `url::Url::parse` and reads back its scheme, host and
/// path. Trusted: the contract only names the outcome; it claims nothing
/// about how the `url` crate parses.
#[verifier::external_body]
fn url_parts(s: &str) -> (r: Option<UrlParts>)
    ensures
        url_parts_view(r) == spec_url_parts(s@),
{
    match url::Url::parse(s) {
        Ok(u) => Some(UrlParts {
            scheme: u.scheme().to_string(),
            host: u.host_str().map(|h| h.to_string()),
            path: u.path().to_string(),
        }),
        Err(_) => None,
    }
}

/// Parses a request head with `httparse::Request::parse`, with room for 128
/// headers. Trusted: besides naming the outcome, the contract claims what
/// httparse's source shows of a complete parse: the request line's three
/// parts are all present and the body offset lies within the buffer.
#[verifier::external_body]
fn parse_request_head(buf: &[u8]) -> (r: std::result::Result<Option<RawHead>, ()>)
    ensures
        raw_head_view(r) == spec_parse_request_head(buf@),
        r matches Ok(Some(h)) ==> h.body_start <= buf@.len() && h.method is Some && h.path is Some
            && h.version is Some,
{
    let mut headers = [httparse::EMPTY_HEADER; 128];
    let mut req = httparse::Request::new(&mut headers);
    match req.parse(buf) {
        Ok(httparse::Status::Complete(len)) => Ok(Some(RawHead {
            method: req.method.map(|m| m.to_string()),
            path: req.path.map(|p| p.to_string()),
            version: req.version,
            body_start: len,
        })),
        Ok(httparse::Status::Partial) => Ok(None),
        Err(_) => Err(()),
    }
}

/// The abstract content of a request.
pub struct RequestModel {
    pub method: Method,
    pub scheme: Scheme,
    pub version: Version,
    pub host: Seq<char>,
    pub path: Seq<char>,
    pub port: u16,
    pub headers: Seq<(Header, Seq<char>)>,
    pub body: Seq<u8>,
}

/// The request that a URL describes: HTTP/1.0, the scheme's default port,
/// a `Host` header with the URL's host, and an empty body.
pub open spec fn url_request(method: Method, scheme: Scheme, host: Seq<char>, path: Seq<char>) -> RequestModel {
    RequestModel {
        method: method,
        scheme: scheme,
        version: Version::V10,
        host: host,
        path: path,
        port: scheme_port(scheme),
        headers: seq![(Header::Host, host)],
        body: Seq::empty(),
    }
}

/// The request that a parsed request head describes: plain HTTP on port 80,
/// no host and no headers, with the bytes after the head as its body.
pub open spec fn raw_request(method: Method, path: Seq<char>, version: u8, body: Seq<u8>) -> RequestModel {
    RequestModel {
        method: method,
        scheme: Scheme::HTTP,
        version: version_from_code(version),
        host: Seq::empty(),
        path: path,
        port: HTTP_PORT,
        headers: Seq::empty(),
        body: body,
    }
}

/// The text of a request's head: the request line, the header lines and
/// the blank line that ends the head.
pub open spec fn request_head_text(q: RequestModel) -> Seq<char> {
    method_text(q.method) + " "@ + q.path + " "@ + version_text(q.version) + "\r\n"@
        + headers_text(q.headers) + "\r\n"@
}

/// The bytes of a request on the wire.
pub open spec fn request_bytes(q: RequestModel) -> Seq<u8> {
    encode_utf8(request_head_text(q)) + q.body
}

/// An HTTP request.
pub struct Request {
    method: Method,
    scheme: Scheme,
    version: Version,
    host: String,
    path: String,
    port: u16,
    headers: HeaderMap,
    body: Vec<u8>,
}

impl View for Request {
    type V = RequestModel;

    closed spec fn view(&self) -> RequestModel {
        RequestModel {
            method: self.method,
            scheme: self.scheme,
            version: self.version,
            host: self.host@,
            path: self.path@,
            port: self.port,
            headers: self.headers@,
            body: self.body@,
        }
    }
}

impl Request {
    #[verifier::type_invariant]
    spec fn headers_distinct(self) -> bool {
        self.headers.wf()
    }

    /// Builds a request from the outcome of splitting a URL.
    pub fn from_url_parts(method: Method, parts: Option<UrlParts>) -> (r: Result<Self>)
        ensures
            match url_parts_view(parts) {
                None => (r matches Err(Error::Net(m)) && m@ == "failed to parse url"@),
                Some((scheme, host, path)) => match scheme_from_text(scheme) {
                    None => (r matches Err(Error::Misc(m)) && m@
                        == "failed to parse scheme from "@ + scheme),
                    Some(sc) => match host {
                        None => (r matches Err(Error::Net(m)) && m@.len() == 0),
                        Some(h) => (r matches Ok(q) && q@ == url_request(method, sc, h, path)),
                    },
                },
            },
    {
        let parts = match parts {
            Some(p) => p,
            None => {
                return Err(Error::Net(String::from_str("failed to parse url")));
            },
        };
        let scheme = Scheme::from_str(parts.scheme.as_str())?;
        let host = match parts.host {
            Some(h) => h,
            None => {
                return Err(Error::Net(String::new()));
            },
        };
        let mut headers = HeaderMap::new();
        headers.set(Header::Host, host.as_str());
        proof {
            assert(headers@ =~= seq![(Header::Host, host@)]);
        }
        Ok(Request {
            method: method,
            version: Version::V10,
            scheme: scheme,
            host: host,
            path: parts.path,
            port: scheme.port(),
            headers: headers,
            body: Vec::new(),
        })
    }

    /// Builds a request for a URL.
    pub fn from_url(method: Method, url: &str) -> (r: Result<Self>)
        ensures
            match spec_url_parts(url@) {
                None => (r matches Err(Error::Net(m)) && m@ == "failed to parse url"@),
                Some((scheme, host, path)) => match scheme_from_text(scheme) {
                    None => (r matches Err(Error::Misc(m)) && m@
                        == "failed to parse scheme from "@ + scheme),
                    Some(sc) => match host {
                        None => (r matches Err(Error::Net(m)) && m@.len() == 0),
                        Some(h) => (r matches Ok(q) && q@ == url_request(method, sc, h, path)),
                    },
                },
            },
    {
        Self::from_url_parts(method, url_parts(url))
    }

    /// Builds a `GET` request for a URL.
    pub fn get(url: &str) -> (r: Result<Self>)
        ensures
            match spec_url_parts(url@) {
                None => (r matches Err(Error::Net(m)) && m@ == "failed to parse url"@),
                Some((scheme, host, path)) => match scheme_from_text(scheme) {
                    None => (r matches Err(Error::Misc(m)) && m@
                        == "failed to parse scheme from "@ + scheme),
                    Some(sc) => match host {
                        None => (r matches Err(Error::Net(m)) && m@.len() == 0),
                        Some(h) => (r matches Ok(q) && q@ == url_request(Method::GET, sc, h, path)),
                    },
                },
            },
    {
        Self::from_url(Method::GET, url)
    }

    /// Builds a `POST` request for a URL.
    pub fn post(url: &str) -> (r: Result<Self>)
        ensures
            match spec_url_parts(url@) {
                None => (r matches Err(Error::Net(m)) && m@ == "failed to parse url"@),
                Some((scheme, host, path)) => match scheme_from_text(scheme) {
                    None => (r matches Err(Error::Misc(m)) && m@
                        == "failed to parse scheme from "@ + scheme),
                    Some(sc) => match host {
                        None => (r matches Err(Error::Net(m)) && m@.len() == 0),
                        Some(h) => (r matches Ok(q) && q@ == url_request(Method::POST, sc, h, path)),
                    },
                },
            },
    {
        Self::from_url(Method::POST, url)
    }

    /// Builds a request from the outcome of parsing the head of `buf`.
    pub fn from_raw_head(head: std::result::Result<Option<RawHead>, ()>, buf: &[u8]) -> (r: Result<Self>)
        requires
            head matches Ok(Some(h)) ==> h.body_start <= buf@.len(),
        ensures
            match raw_head_view(head) {
                Err(()) => (r matches Err(Error::HTTPMessage)),
                Ok(None) => (r matches Err(Error::Net(m)) && m@.len() == 0),
                Ok(Some((method, path, version, start))) => match method {
                    None => (r matches Err(Error::Net(m)) && m@.len() == 0),
                    Some(mt) => match method_from_text(mt) {
                        None => (r matches Err(Error::Misc(m)) && m@
                            == "failed to parse http method from "@ + mt),
                        Some(me) => match (path, version) {
                            (Some(p), Some(v)) => (r matches Ok(q) && q@ == raw_request(
                                me,
                                p,
                                v,
                                buf@.subrange(start as int, buf@.len() as int),
                            )),
                            _ => (r matches Err(Error::Net(m)) && m@.len() == 0),
                        },
                    },
                },
            },
    {
        let head = match head {
            Err(()) => {
                return Err(Error::HTTPMessage);
            },
            Ok(None) => {
                return Err(Error::Net(String::new()));
            },
            Ok(Some(h)) => h,
        };
        let method = match head.method {
            Some(m) => Method::from_str(m.as_str())?,
            None => {
                return Err(Error::Net(String::new()));
            },
        };
        let path = match head.path {
            Some(p) => p,
            None => {
                return Err(Error::Net(String::new()));
            },
        };
        let version = match head.version {
            Some(v) => v,
            None => {
                return Err(Error::Net(String::new()));
            },
        };
        let body = slice_to_vec(slice_subrange(buf, head.body_start, buf.len()));
        let headers = HeaderMap::new();
        Ok(Request {
            method: method,
            version: Version::from(version),
            scheme: Scheme::HTTP,
            host: String::new(),
            path: path,
            port: HTTP_PORT,
            headers: headers,
            body: body,
        })
    }

    /// Parses a raw request: its head, then the rest of the buffer as body.
    pub fn from_raw(buf: &[u8]) -> (r: Result<Self>)
        ensures
            match spec_parse_request_head(buf@) {
                Err(()) => (r matches Err(Error::HTTPMessage)),
                Ok(None) => (r matches Err(Error::Net(m)) && m@.len() == 0),
                Ok(Some((method, path, version, start))) => match method {
                    None => (r matches Err(Error::Net(m)) && m@.len() == 0),
                    Some(mt) => match method_from_text(mt) {
                        None => (r matches Err(Error::Misc(m)) && m@
                            == "failed to parse http method from "@ + mt),
                        Some(me) => match (path, version) {
                            (Some(p), Some(v)) => (r matches Ok(q) && q@ == raw_request(
                                me,
                                p,
                                v,
                                buf@.subrange(start as int, buf@.len() as int),
                            )),
                            _ => (r matches Err(Error::Net(m)) && m@.len() == 0),
                        },
                    },
                },
            },
    {
        Self::from_raw_head(parse_request_head(buf), buf)
    }

    /// The port to connect to.
    pub fn port(&self) -> (r: u16)
        ensures
            r == self@.port,
    {
        self.port
    }

    /// The host to connect to.
    pub fn host(&self) -> (r: &str)
        ensures
            r@ == self@.host,
    {
        self.host.as_str()
    }

    /// The request path.
    pub fn path(&self) -> (r: &str)
        ensures
            r@ == self@.path,
    {
        self.path.as_str()
    }

    /// The URL scheme.
    pub fn scheme(&self) -> (r: Scheme)
        ensures
            r == self@.scheme,
    {
        self.scheme
    }

    /// The request method.
    pub fn method(&self) -> (r: Method)
        ensures
            r == self@.method,
    {
        self.method
    }

    /// The protocol version.
    pub fn version(&self) -> (r: Version)
        ensures
            r == self@.version,
    {
        self.version
    }

    /// The request headers.
    pub fn headers(&self) -> (r: &HeaderMap)
        ensures
            r@ == self@.headers,
            r.wf(),
    {
        proof {
            use_type_invariant(self);
        }
        &self.headers
    }

    /// Sets a header field, replacing any earlier value of it.
    pub fn set_header(&mut self, key: Header, value: &str)
        ensures
            final(self)@ == (RequestModel { headers: set_header(old(self)@.headers, key, value@), ..old(self)@ }),
    {
        proof {
            use_type_invariant(&*self);
        }
        let mut h = HeaderMap::new();
        std::mem::swap(&mut h, &mut self.headers);
        h.set(key, value);
        self.headers = h;
    }

    /// Replaces the body.
    pub fn body(&mut self, data: &[u8])
        ensures
            final(self)@ == (RequestModel { body: data@, ..old(self)@ }),
    {
        proof {
            use_type_invariant(&*self);
        }
        self.body = slice_to_vec(data);
    }

    /// A copy of the request.
    pub fn clone(&self) -> (r: Self)
        ensures
            r@ == self@,
    {
        proof {
            use_type_invariant(self);
        }
        Request {
            method: self.method,
            scheme: self.scheme,
            version: self.version,
            host: self.host.clone(),
            path: self.path.clone(),
            port: self.port,
            headers: self.headers.clone(),
            body: slice_to_vec(self.body.as_slice()),
        }
    }

    /// The request as bytes on the wire.
    pub fn message(&self) -> (r: Vec<u8>)
        ensures
            r@ == request_bytes(self@),
    {
        let mut head = join(self.method.as_str(), " ");
        head.append(self.path.as_str());
        head.append(" ");
        head.append(self.version.as_str());
        head.append("\r\n");
        let hs = self.headers.to_string();
        head.append(hs.as_str());
        head.append("\r\n");
        let mut m = head.as_str().as_bytes_vec();
        m.extend_from_slice(self.body.as_slice());
        proof {
            assert(head@ == request_head_text(self@));
            assert(m@ =~= request_bytes(self@));
        }
        m
    }
}

} // verus!
