use dirty::http::header::{Header, HeaderMap};
use dirty::http::req::Request;
use dirty::http::types::{Auth, ContentType, Method, Scheme, Status, Version, HTTPS_PORT, HTTP_PORT};
use dirty::Error;

#[test]
fn scheme_ports() {
    assert_eq!(Scheme::HTTP.port(), 80);
    assert_eq!(Scheme::HTTPS.port(), 443);
    assert_eq!(HTTP_PORT, 80);
    assert_eq!(HTTPS_PORT, 443);
}

#[test]
fn scheme_from_text() {
    assert!(matches!(Scheme::from_str("http"), Ok(Scheme::HTTP)));
    assert!(matches!(Scheme::from_str("https"), Ok(Scheme::HTTPS)));
    match Scheme::from_str("ftp") {
        Err(Error::Misc(m)) => assert_eq!(m, "failed to parse scheme from ftp"),
        _ => panic!("ftp is no scheme of the client"),
    }
}

#[test]
fn method_text_both_ways() {
    assert_eq!(Method::GET.as_str(), "GET");
    assert_eq!(Method::POST.as_str(), "POST");
    assert!(matches!(Method::from_str("GET"), Ok(Method::GET)));
    assert!(matches!(Method::from_str("POST"), Ok(Method::POST)));
    match Method::from_str("get") {
        Err(Error::Misc(m)) => assert_eq!(m, "failed to parse http method from get"),
        _ => panic!("methods are upper case"),
    }
}

#[test]
fn version_text_both_ways() {
    assert_eq!(Version::V10.as_str(), "HTTP/1.0");
    assert_eq!(Version::V11.as_str(), "HTTP/1.1");
    assert_eq!(Version::V20.as_str(), "HTTP/2.0");
    assert!(matches!(Version::from_str("HTTP/1.1"), Ok(Version::V11)));
    assert!(Version::from_str("HTTP/3").is_err());
    assert!(matches!(Version::from(11u8), Version::V11));
    assert!(matches!(Version::from(2u8), Version::V20));
    assert!(matches!(Version::from(1u8), Version::V10));
    assert!(matches!(Version::from(0u8), Version::V10));
}

#[test]
fn content_types_by_extension() {
    assert!(matches!(ContentType::from_ext("png"), Some(ContentType::PNG)));
    assert!(matches!(ContentType::from_ext("htm"), Some(ContentType::HTML)));
    assert!(matches!(ContentType::from_ext("jpeg"), Some(ContentType::JPEG)));
    assert!(ContentType::from_ext("nope").is_none());
    assert_eq!(ContentType::PNG.as_str(), "image/png");
    assert_eq!(ContentType::JSON.as_str(), "application/json");
}

#[test]
fn content_types_by_path() {
    assert!(matches!(ContentType::from_path("assets/img/hero.png"), Some(ContentType::PNG)));
    assert!(matches!(ContentType::from_path("index.html"), Some(ContentType::HTML)));
    assert!(matches!(ContentType::from_path("/tmp/archive.tar.zip"), Some(ContentType::ZIP)));
    assert!(ContentType::from_path("README").is_none());
    assert!(ContentType::from_path(".bashrc").is_none());
    assert!(ContentType::from_path("notes.unknownext").is_none());
}

#[test]
fn auth_header_text() {
    assert_eq!(Auth::Basic("abc".to_string()).to_string(), "Basic abc");
    assert_eq!(Auth::Bearer("t0k".to_string()).to_string(), "Bearer t0k");
    assert_eq!(Auth::Digest("d".to_string()).to_string(), "Digest d");
}

#[test]
fn status_codes_both_ways() {
    assert!(matches!(Status::from_code(200), Ok(Status::OK)));
    assert!(matches!(Status::from_code(404), Ok(Status::NotFound)));
    assert_eq!(Status::NotFound.code(), 404);
    assert_eq!(Status::NotFound.reason(), "Not Found");
    assert_eq!(Status::OK.reason(), "OK");
    match Status::from_code(299) {
        Err(Error::Misc(m)) => assert_eq!(m, "failed to get status from code 299"),
        _ => panic!("299 is no status"),
    }
    for code in 0u16..1000 {
        if let Ok(s) = Status::from_code(code) {
            assert_eq!(s.code(), code);
        }
    }
}

#[test]
fn status_classes() {
    assert!(Status::OK.success());
    assert!(!Status::OK.redirect());
    assert!(Status::MovedPermanently.redirect());
    assert!(Status::NotFound.client_err());
    assert!(Status::InternalServerError.server_err());
    assert!(!Status::InternalServerError.client_err());
    assert!(!Status::Continue.success());
}

#[test]
fn header_set_then_get() {
    let mut h = HeaderMap::new();
    assert_eq!(h.len(), 0);
    h.set(Header::Host, "example.com");
    h.set(Header::ContentType, "text/plain");
    assert_eq!(h.get(Header::Host), Some("example.com"));
    h.set(Header::Host, "other.org");
    assert_eq!(h.get(Header::Host), Some("other.org"));
    assert_eq!(h.get(Header::ContentType), Some("text/plain"));
    assert_eq!(h.get(Header::Cookie), None);
    assert_eq!(h.len(), 2);
    assert_eq!(h.to_string(), "Host: other.org\r\nContent-Type: text/plain\r\n");
}

#[test]
fn header_names() {
    assert_eq!(Header::UserAgent.as_str(), "User-Agent");
    assert_eq!(Header::SetCookie.as_str(), "Set-Cookie");
}

#[test]
fn request_from_url() {
    let r = Request::get("http://example.com/a/b?q=1").unwrap();
    assert!(matches!(r.method(), Method::GET));
    assert!(matches!(r.scheme(), Scheme::HTTP));
    assert!(matches!(r.version(), Version::V10));
    assert_eq!(r.host(), "example.com");
    assert_eq!(r.path(), "/a/b");
    assert_eq!(r.port(), 80);
    assert_eq!(r.headers().get(Header::Host), Some("example.com"));
    let s = Request::post("https://api.example.org/v1").unwrap();
    assert!(matches!(s.method(), Method::POST));
    assert_eq!(s.port(), 443);
}

#[test]
fn request_url_errors() {
    match Request::get("not a url") {
        Err(Error::Net(m)) => assert_eq!(m, "failed to parse url"),
        _ => panic!("expected a url error"),
    }
    match Request::get("ftp://example.com/file") {
        Err(Error::Misc(m)) => assert_eq!(m, "failed to parse scheme from ftp"),
        _ => panic!("expected a scheme error"),
    }
    match Request::get("http:/") {
        Err(Error::Net(_)) => {},
        _ => panic!("expected a missing-host error"),
    }
}

#[test]
fn request_message_bytes() {
    let mut r = Request::get("http://example.com/index.html").unwrap();
    r.set_header(Header::Accept, "*/*");
    r.body(b"hello");
    let m = r.message();
    assert_eq!(
        String::from_utf8(m).unwrap(),
        "GET /index.html HTTP/1.0\r\nHost: example.com\r\nAccept: */*\r\n\r\nhello"
    );
    let c = r.clone();
    assert_eq!(c.message(), r.message());
}

#[test]
fn request_from_raw_bytes() {
    let raw = b"POST /submit HTTP/1.1\r\nHost: x\r\n\r\nbody!";
    let r = Request::from_raw(raw).unwrap();
    assert!(matches!(r.method(), Method::POST));
    assert_eq!(r.path(), "/submit");
    // The parser reports the minor version (1 for HTTP/1.1), and a minor
    // version of 1 reads as HTTP/1.0.
    assert!(matches!(r.version(), Version::V10));
    assert_eq!(r.port(), 80);
    assert_eq!(r.host(), "");
    assert_eq!(r.headers().len(), 0);
    assert_eq!(r.message(), b"POST /submit HTTP/1.0\r\n\r\nbody!".to_vec());
}

#[test]
fn request_from_raw_errors() {
    assert!(matches!(Request::from_raw(b"GET / HTTP/1.1\r\nHost"), Err(Error::Net(_))));
    assert!(matches!(Request::from_raw(b"\x00\x01 nonsense\r\n\r\n"), Err(Error::HTTPMessage)));
    match Request::from_raw(b"PUT / HTTP/1.1\r\n\r\n") {
        Err(Error::Misc(m)) => assert_eq!(m, "failed to parse http method from PUT"),
        _ => panic!("PUT is not spoken"),
    }
}

#[test]
fn error_messages() {
    assert_eq!(Error::IO.to_string(), "io error");
    assert_eq!(Error::Gfx("bad".to_string()).to_string(), "gfx error: bad");
    assert_eq!(Error::OpenGL("INVALID_ENUM".to_string()).to_string(), "opengl error: INVALID_ENUM");
    assert_eq!(Error::Misc("x".to_string()).to_string(), "error: x");
    assert!(matches!(Error::from("boom".to_string()), Error::Misc(m) if m == "boom"));
}

#[test]
fn other_methods_print_but_do_not_parse() {
    assert_eq!(Method::PUT.as_str(), "PUT");
    assert_eq!(Method::DELETE.as_str(), "DELETE");
    assert!(Method::from_str("DELETE").is_err());
}
