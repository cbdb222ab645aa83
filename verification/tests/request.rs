use communityvi::http_test::{Error, Host, InternalError};
use communityvi::request::{request_uri, with_fallback_host, RequestBuilder, RequestComponents, UriParts};

fn host(text: &str) -> Host {
    Host::parse(text).expect("Invalid host")
}

fn parts(uri: &UriParts) -> (Option<&str>, Option<&str>, Option<&str>) {
    (uri.scheme.as_deref(), uri.authority.as_deref(), uri.path_and_query.as_deref())
}

fn http_error(text: &str) -> Error {
    Error(InternalError::Http(text.to_string()))
}

fn prepared(builder: RequestBuilder) -> RequestComponents {
    match builder.prepare() {
        Ok(components) => components,
        Err(error) => panic!("Failed to prepare request: {error:?}"),
    }
}

fn prepare_error(builder: RequestBuilder) -> Error {
    match builder.prepare() {
        Ok(_) => panic!("Request was prepared"),
        Err(error) => error,
    }
}

#[test]
fn relative_uris_are_completed_with_the_fallback_host() {
    let fallback = host("localhost");
    let uri = request_uri("/path?x=1", Some(&fallback)).expect("Invalid URI");
    assert_eq!((Some("https"), Some("localhost"), Some("/path?x=1")), parts(&uri));
}

#[test]
fn absolute_uris_keep_their_host() {
    let fallback = host("localhost");
    let uri = request_uri("http://example.com/a", Some(&fallback)).expect("Invalid URI");
    assert_eq!((Some("http"), Some("example.com"), Some("/a")), parts(&uri));
    let uri = request_uri("/a", None).expect("Invalid URI");
    assert_eq!((None, None, Some("/a")), parts(&uri));
}

#[test]
fn unparsable_uris_are_http_errors() {
    assert!(matches!(request_uri("", None), Err(error) if error == http_error("empty string")));
}

#[test]
fn uris_without_path_cannot_be_completed() {
    let uri = UriParts { scheme: None, authority: None, path_and_query: None };
    assert!(matches!(with_fallback_host(uri, &host("localhost")), Err(error) if error == http_error("path missing")));
}

#[test]
fn requests_are_get_slash_by_default() {
    let components = prepared(RequestBuilder::new());
    assert_eq!("GET", components.method);
    assert_eq!((None, None, Some("/")), parts(&components.uri));
    assert!(components.headers.is_empty());
}

#[test]
fn builder_collects_method_uri_and_headers() {
    let builder = RequestBuilder::new()
        .fallback_host(host("example.org"))
        .method("POST")
        .uri("/api/offset")
        .header("X-Test", "a")
        .header("Accept", "text/plain")
        .header("x-test", "b");
    let components = prepared(builder);
    assert_eq!("POST", components.method);
    assert_eq!((Some("https"), Some("example.org"), Some("/api/offset")), parts(&components.uri));
    assert_eq!(
        vec![("x-test".to_string(), "b".to_string()), ("accept".to_string(), "text/plain".to_string())],
        components.headers
    );
}

#[test]
fn authorization_headers_are_set() {
    let components = prepared(RequestBuilder::new().basic_auth(b"user", b"pass"));
    assert_eq!(vec![("authorization".to_string(), "Basic dXNlcjpwYXNz".to_string())], components.headers);
    let components = prepared(RequestBuilder::new().basic_auth(b"user", b"pass").bearer_auth("token"));
    assert_eq!(vec![("authorization".to_string(), "Bearer token".to_string())], components.headers);
}

#[test]
fn the_first_failed_step_decides() {
    let builder = RequestBuilder::new().method("").uri("not a uri").header("X", "y");
    assert_eq!(http_error("invalid HTTP method"), prepare_error(builder));
    let builder = RequestBuilder::new().header("bad name", "x").method("GET");
    assert_eq!(http_error("invalid HTTP header name"), prepare_error(builder));
    let builder = RequestBuilder::new().header("X-Test", "a\nb");
    assert_eq!(http_error("failed to parse header value"), prepare_error(builder));
}

#[test]
fn hosts_are_taken_from_uris() {
    let uri = request_uri("http://example.com/a", None).expect("Invalid URI");
    assert_eq!("example.com", Host::try_from(uri).expect("No host").as_str());
    let uri = request_uri("/a?b=c", None).expect("Invalid URI");
    assert_eq!(
        Error(InternalError::InvalidHost("URI /a?b=c doesn't have a host".to_string())),
        Host::try_from(uri).expect_err("Found a host")
    );
    let uri = request_uri("http://localhost:8080/", None).expect("Invalid URI");
    assert_eq!(
        Error(InternalError::InvalidHost("localhost:8080 is more than just a host.".to_string())),
        Host::try_from(uri).expect_err("Port was taken for a host")
    );
}

#[test]
fn extension_methods_and_non_ascii_header_values_are_accepted() {
    let components = prepared(RequestBuilder::new().method("PURGE").header("X-Name", "Jürgen\tB."));
    assert_eq!("PURGE", components.method);
    assert_eq!(vec![("x-name".to_string(), "Jürgen\tB.".to_string())], components.headers);
    let builder = RequestBuilder::new().method("GET /");
    assert_eq!(http_error("invalid HTTP method"), prepare_error(builder));
    let builder = RequestBuilder::new().header("X", "a\u{7f}");
    assert_eq!(http_error("failed to parse header value"), prepare_error(builder));
}
