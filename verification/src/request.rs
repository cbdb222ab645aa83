use vstd::prelude::*;
use vstd::string::StringExecFns;
use vstd::std_specs::convert::TryFromSpecImpl;
use crate::http_test::{basic_auth_value, bearer_auth_value, base64_unpadded, host_from_text, Error, Host, InternalError};

verus! {

/// A URI taken apart: its scheme, its authority and its path with the query.
/// Each part is absent where the URI has none.
pub struct UriParts {
    pub scheme: Option<String>,
    pub authority: Option<String>,
    pub path_and_query: Option<String>,
}

/// The text of an optional part.
pub open spec fn part_view(part: Option<String>) -> Option<Seq<char>> {
    match part {
        Some(text) => Some(text@),
        None => None,
    }
}

impl UriParts {
    /// The parts as texts: scheme, authority, path with query.
    pub open spec fn view(&self) -> (Option<Seq<char>>, Option<Seq<char>>, Option<Seq<char>>) {
        (part_view(self.scheme), part_view(self.authority), part_view(self.path_and_query))
    }
}

/// How a URI is shown: the scheme followed by `://`, the authority, then the path
/// with the query, each where the URI has it.
pub open spec fn uri_text(uri: (Option<Seq<char>>, Option<Seq<char>>, Option<Seq<char>>)) -> Seq<char> {
    (match uri.0 { Some(scheme) => scheme + "://"@, None => Seq::empty() })
        + (match uri.1 { Some(authority) => authority, None => Seq::empty() })
        + (match uri.2 { Some(path) => path, None => Seq::empty() })
}

impl UriParts {
    /// The URI as text.
    pub fn to_display_string(&self) -> (text: String)
        ensures
            text@ == uri_text(self.view()),
    {
        let mut text = String::new();
        match &self.scheme {
            Some(scheme) => {
                text.append(scheme.as_str());
                text.append("://");
            },
            None => {},
        }
        match &self.authority {
            Some(authority) => text.append(authority.as_str()),
            None => {},
        }
        match &self.path_and_query {
            Some(path) => text.append(path.as_str()),
            None => {},
        }
        proof {
            reveal_strlit("://");
        }
        assert(text@ =~= uri_text(self.view()));
        text
    }
}

impl TryFrom<UriParts> for Host {
    type Error = Error;

    /// The host of a URI: the URI must have an authority, and that authority must
    /// be nothing but a host.
    fn try_from(uri: UriParts) -> (host: Result<Host, Error>)
        ensures
            match uri.view().1 {
                None => host matches Err(Error(InternalError::InvalidHost(message)))
                    && message@ == "URI "@ + uri_text(uri.view()) + " doesn't have a host"@,
                Some(authority) => match (host, host_from_text(authority)) {
                    (Ok(host), Ok(expected)) => host.view() == expected,
                    (Err(Error(InternalError::InvalidHost(message))), Err(expected)) => message@ == expected,
                    _ => false,
                },
            },
    {
        match &uri.authority {
            Some(authority) => Host::parse(authority.as_str()),
            None => {
                let mut message = String::from_str("URI ");
                let shown = uri.to_display_string();
                message.append(shown.as_str());
                message.append(" doesn't have a host");
                Err(Error(InternalError::InvalidHost(message)))
            },
        }
    }
}

impl TryFromSpecImpl<UriParts> for Host {
    open spec fn obeys_try_from_spec() -> bool {
        false
    }

    open spec fn try_from_spec(uri: UriParts) -> Result<Host, Error> {
        arbitrary()
    }
}

/// What http's `Uri` parser makes of a text: its scheme, authority and path with
/// query, or the text of the parse error.
pub uninterp spec fn parsed_uri(text: Seq<char>) -> Result<(Option<Seq<char>>, Option<Seq<char>>, Option<Seq<char>>), Seq<char>>;

/// Parses `text` as an `http::Uri` and takes it apart with `into_parts`, giving
/// each part by its `as_str()`, or the `to_string()` of the parse error.
#[verifier::external_body]
fn parse_uri(text: &str) -> (parsed: Result<UriParts, String>)
    ensures
        match (parsed, parsed_uri(text@)) {
            (Ok(parts), Ok(expected)) => parts.view() == expected,
            (Err(message), Err(expected)) => message@ == expected,
            _ => false,
        },
{
    match text.parse::<http::Uri>() {
        Ok(uri) => {
            let parts = uri.into_parts();
            Ok(UriParts {
                scheme: parts.scheme.map(|part| part.as_str().to_string()),
                authority: parts.authority.map(|part| part.as_str().to_string()),
                path_and_query: parts.path_and_query.map(|part| part.as_str().to_string()),
            })
        },
        Err(error) => Err(error.to_string()),
    }
}

/// A character that may stand in an HTTP method (a `tchar` of RFC 9110): an ASCII
/// letter or digit, or one of `!#$%&'*+-.^_`|~`.
pub open spec fn is_method_char(c: char) -> bool {
    ('a' <= c <= 'z') || ('A' <= c <= 'Z') || ('0' <= c <= '9') || c == '!' || c == '#' || c == '$'
        || c == '%' || c == '&' || c == '\'' || c == '*' || c == '+' || c == '-' || c == '.' || c == '^'
        || c == '_' || c == '`' || c == '|' || c == '~'
}

/// What http's `Method` parser makes of a text: a non-empty text of method
/// characters is the method's name as it is; anything else is refused.
pub open spec fn parsed_method(text: Seq<char>) -> Result<Seq<char>, Seq<char>> {
    if text.len() > 0 && forall|i: int| 0 <= i < text.len() ==> #[trigger] is_method_char(text[i]) {
        Ok(text)
    } else {
        Err("invalid HTTP method"@)
    }
}

/// Parses `text` as an `http::Method`, giving its `as_str()` or the
/// `to_string()` of the parse error. Claimed, from `Method::from_bytes`: the
/// standard methods and extension methods alike accept exactly the non-empty texts
/// of method characters and keep them as they are; the error shows as
/// "invalid HTTP method".
#[verifier::external_body]
fn parse_method(text: &str) -> (parsed: Result<String, String>)
    ensures
        match (parsed, parsed_method(text@)) {
            (Ok(method), Ok(expected)) => method@ == expected,
            (Err(message), Err(expected)) => message@ == expected,
            _ => false,
        },
{
    match http::Method::try_from(text) {
        Ok(method) => Ok(method.as_str().to_string()),
        Err(error) => Err(error.to_string()),
    }
}

/// What http's `HeaderName` parser makes of a text: the header name as http
/// keeps it, or the text of the parse error.
pub uninterp spec fn parsed_header_name(text: Seq<char>) -> Result<Seq<char>, Seq<char>>;

/// Parses `text` as an `http::header::HeaderName`, giving its `as_str()` or the
/// `to_string()` of the parse error.
#[verifier::external_body]
fn parse_header_name(text: &str) -> (parsed: Result<String, String>)
    ensures
        match (parsed, parsed_header_name(text@)) {
            (Ok(name), Ok(expected)) => name@ == expected,
            (Err(message), Err(expected)) => message@ == expected,
            _ => false,
        },
{
    match http::header::HeaderName::try_from(text) {
        Ok(name) => Ok(name.as_str().to_string()),
        Err(error) => Err(error.to_string()),
    }
}

/// A character that may stand in an HTTP header value: a tab, or any character
/// but the ASCII control characters.
pub open spec fn is_header_value_char(c: char) -> bool {
    c == '\t' || (c as u32 >= 32 && c as u32 != 127)
}

/// Whether http's `HeaderValue` parser refuses a text, and with which error text:
/// it refuses exactly the texts with a character that may not stand in a value.
pub open spec fn header_value_error(text: Seq<char>) -> Option<Seq<char>> {
    if forall|i: int| 0 <= i < text.len() ==> #[trigger] is_header_value_char(text[i]) {
        None
    } else {
        Some("failed to parse header value"@)
    }
}

/// Parses `text` as an `http::header::HeaderValue`, which keeps the text as it is;
/// on failure gives the `to_string()` of the parse error. Claimed, from
/// `HeaderValue::from_str`: a byte is refused exactly when it is below 32 and no
/// tab, or is 127 (bytes of non-ASCII characters are 128 or more and accepted);
/// the error shows as "failed to parse header value".
#[verifier::external_body]
fn check_header_value(text: &str) -> (checked: Result<(), String>)
    ensures
        match (checked, header_value_error(text@)) {
            (Ok(()), None) => true,
            (Err(message), Some(expected)) => message@ == expected,
            _ => false,
        },
{
    match http::header::HeaderValue::try_from(text) {
        Ok(_) => Ok(()),
        Err(error) => Err(error.to_string()),
    }
}

/// The header name of the `Authorization` header, as http keeps it.
pub open spec fn authorization_header() -> Seq<char> {
    "authorization"@
}

/// Gives a URI without scheme and authority the scheme `https` and the fallback
/// host as its authority. Any other URI stays as it is.
pub open spec fn uri_with_fallback_host(
    uri: (Option<Seq<char>>, Option<Seq<char>>, Option<Seq<char>>),
    fallback: Seq<char>,
) -> Result<(Option<Seq<char>>, Option<Seq<char>>, Option<Seq<char>>), Seq<char>> {
    if uri.0 is None && uri.1 is None {
        if uri.2 is None {
            Err("path missing"@)
        } else {
            Ok((Some("https"@), Some(fallback), uri.2))
        }
    } else {
        Ok(uri)
    }
}

/// Completes a URI without scheme and authority with the scheme `https` and the
/// fallback host. A URI that has no path then cannot be put together again, which
/// is an HTTP error "path missing".
pub fn with_fallback_host(uri: UriParts, fallback: &Host) -> (completed: Result<UriParts, Error>)
    ensures
        match (completed, uri_with_fallback_host(uri.view(), fallback.view())) {
            (Ok(parts), Ok(expected)) => parts.view() == expected,
            (Err(Error(InternalError::Http(message))), Err(expected)) => message@ == expected,
            _ => false,
        },
{
    if uri.scheme.is_none() && uri.authority.is_none() {
        if uri.path_and_query.is_none() {
            Err(Error(InternalError::Http(String::from_str("path missing"))))
        } else {
            Ok(UriParts {
                scheme: Some(String::from_str("https")),
                authority: Some(fallback.to_display_string()),
                path_and_query: uri.path_and_query,
            })
        }
    } else {
        Ok(uri)
    }
}

/// Parses the text of a request URI and, where a fallback host is given,
/// completes it with that host. A parse error is an HTTP error with the parser's
/// text.
pub fn request_uri(text: &str, fallback: Option<&Host>) -> (uri: Result<UriParts, Error>)
    ensures
        match parsed_uri(text@) {
            Err(expected) => uri matches Err(Error(InternalError::Http(message))) && message@ == expected,
            Ok(parsed) => match fallback {
                None => uri matches Ok(parts) && parts.view() == parsed,
                Some(host) => match (uri, uri_with_fallback_host(parsed, host.view())) {
                    (Ok(parts), Ok(expected)) => parts.view() == expected,
                    (Err(Error(InternalError::Http(message))), Err(expected)) => message@ == expected,
                    _ => false,
                },
            },
        },
{
    match parse_uri(text) {
        Err(message) => Err(Error(InternalError::Http(message))),
        Ok(parts) => match fallback {
            None => Ok(parts),
            Some(host) => with_fallback_host(parts, host),
        },
    }
}

/// The parts of a request that a builder collects: its method, its URI and its
/// headers, each header name at most once.
pub struct RequestComponents {
    pub method: String,
    pub uri: UriParts,
    pub headers: Vec<(String, String)>,
}

/// The header names and values as texts.
pub open spec fn headers_view(headers: Seq<(String, String)>) -> Seq<(Seq<char>, Seq<char>)> {
    headers.map_values(|header: (String, String)| (header.0@, header.1@))
}

/// No header name occurs twice.
pub open spec fn unique_names(headers: Seq<(Seq<char>, Seq<char>)>) -> bool {
    forall|i: int, j: int| 0 <= i < j < headers.len() ==> #[trigger] headers[i].0 != #[trigger] headers[j].0
}

/// Sets a header: a header with the same name gets the new value in its place,
/// otherwise the header is added at the end.
pub open spec fn set_header(headers: Seq<(Seq<char>, Seq<char>)>, name: Seq<char>, value: Seq<char>) -> Seq<(Seq<char>, Seq<char>)> {
    if exists|k: int| 0 <= k < headers.len() && #[trigger] headers[k].0 == name {
        let k = choose|k: int| 0 <= k < headers.len() && #[trigger] headers[k].0 == name;
        headers.update(k, (name, value))
    } else {
        headers.push((name, value))
    }
}

/// A request's components as texts.
pub open spec fn components_view(components: RequestComponents) -> (
    Seq<char>,
    (Option<Seq<char>>, Option<Seq<char>>, Option<Seq<char>>),
    Seq<(Seq<char>, Seq<char>)>,
) {
    (components.method@, components.uri.view(), headers_view(components.headers@))
}

/// Builds a test request step by step; the first step that fails decides the
/// outcome, and later steps leave it as it is.
pub struct RequestBuilder {
    fallback_host: Option<Host>,
    components: Result<RequestComponents, Error>,
}

impl RequestBuilder {
    /// The host that completes a URI without one.
    pub closed spec fn spec_fallback_host(&self) -> Option<Seq<char>> {
        match self.fallback_host {
            Some(host) => Some(host.view()),
            None => None,
        }
    }

    /// The components so far as texts, or the error of the first failed step.
    pub closed spec fn spec_components(&self) -> Result<(
        Seq<char>,
        (Option<Seq<char>>, Option<Seq<char>>, Option<Seq<char>>),
        Seq<(Seq<char>, Seq<char>)>,
    ), InternalError> {
        match self.components {
            Ok(components) => Ok(components_view(components)),
            Err(error) => Err(error.0),
        }
    }

    /// Header names are unique.
    pub closed spec fn well_formed(&self) -> bool {
        match self.components {
            Ok(components) => unique_names(headers_view(components.headers@)),
            Err(_) => true,
        }
    }

    /// A request `GET /` without headers and without a fallback host.
    pub fn new() -> (builder: Self)
        ensures
            builder.well_formed(),
            builder.spec_fallback_host() is None,
            builder.spec_components() == Ok::<_, InternalError>(("GET"@, (None::<Seq<char>>, None::<Seq<char>>, Some("/"@)), Seq::<(Seq<char>, Seq<char>)>::empty())),
    {
        let components = RequestComponents {
            method: String::from_str("GET"),
            uri: UriParts { scheme: None, authority: None, path_and_query: Some(String::from_str("/")) },
            headers: Vec::new(),
        };
        proof {
            assert(headers_view(components.headers@) =~= Seq::<(Seq<char>, Seq<char>)>::empty());
        }
        RequestBuilder { fallback_host: None, components: Ok(components) }
    }

    /// Sets the host that completes a URI without scheme and authority.
    pub fn fallback_host(self, host: Host) -> (builder: Self)
        requires
            self.well_formed(),
        ensures
            builder.well_formed(),
            builder.spec_fallback_host() == Some(host.view()),
            builder.spec_components() == self.spec_components(),
    {
        RequestBuilder { fallback_host: Some(host), components: self.components }
    }

    /// Sets the method, given as text.
    pub fn method(self, text: &str) -> (builder: Self)
        requires
            self.well_formed(),
        ensures
            builder.well_formed(),
            builder.spec_fallback_host() == self.spec_fallback_host(),
            match self.spec_components() {
                Err(error) => builder.spec_components() == Err::<(Seq<char>, (Option<Seq<char>>, Option<Seq<char>>, Option<Seq<char>>), Seq<(Seq<char>, Seq<char>)>), InternalError>(error),
                Ok((method, uri, headers)) => match parsed_method(text@) {
                    Ok(parsed) => builder.spec_components() == Ok::<_, InternalError>((parsed, uri, headers)),
                    Err(message) => builder.spec_components() matches Err(InternalError::Http(shown)) && shown@ == message,
                },
            },
    {
        let RequestBuilder { fallback_host, components } = self;
        let components = match components {
            Err(error) => Err(error),
            Ok(components) => match parse_method(text) {
                Ok(method) => Ok(RequestComponents { method, uri: components.uri, headers: components.headers }),
                Err(message) => Err(Error(InternalError::Http(message))),
            },
        };
        RequestBuilder { fallback_host, components }
    }

    /// Sets the URI, given as text.
    pub fn uri(self, text: &str) -> (builder: Self)
        requires
            self.well_formed(),
        ensures
            builder.well_formed(),
            builder.spec_fallback_host() == self.spec_fallback_host(),
            match self.spec_components() {
                Err(error) => builder.spec_components() == Err::<(Seq<char>, (Option<Seq<char>>, Option<Seq<char>>, Option<Seq<char>>), Seq<(Seq<char>, Seq<char>)>), InternalError>(error),
                Ok((method, uri, headers)) => match parsed_uri(text@) {
                    Ok(parsed) => builder.spec_components() == Ok::<_, InternalError>((method, parsed, headers)),
                    Err(message) => builder.spec_components() matches Err(InternalError::Http(shown)) && shown@ == message,
                },
            },
    {
        let RequestBuilder { fallback_host, components } = self;
        let components = match components {
            Err(error) => Err(error),
            Ok(components) => match parse_uri(text) {
                Ok(uri) => Ok(RequestComponents { method: components.method, uri, headers: components.headers }),
                Err(message) => Err(Error(InternalError::Http(message))),
            },
        };
        RequestBuilder { fallback_host, components }
    }

    /// Sets a header, with name and value given as text; a header of the same
    /// name is replaced.
    pub fn header(self, name: &str, value: &str) -> (builder: Self)
        requires
            self.well_formed(),
        ensures
            builder.well_formed(),
            builder.spec_fallback_host() == self.spec_fallback_host(),
            match self.spec_components() {
                Err(error) => builder.spec_components() == Err::<(Seq<char>, (Option<Seq<char>>, Option<Seq<char>>, Option<Seq<char>>), Seq<(Seq<char>, Seq<char>)>), InternalError>(error),
                Ok((method, uri, headers)) => match (parsed_header_name(name@), header_value_error(value@)) {
                    (Err(message), _) => builder.spec_components() matches Err(InternalError::Http(shown)) && shown@ == message,
                    (Ok(_), Some(message)) => builder.spec_components() matches Err(InternalError::Http(shown)) && shown@ == message,
                    (Ok(parsed), None) => builder.spec_components()
                        == Ok::<_, InternalError>((method, uri, set_header(headers, parsed, value@))),
                },
            },
    {
        let RequestBuilder { fallback_host, components } = self;
        let components = match components {
            Err(error) => Err(error),
            Ok(components) => match parse_header_name(name) {
                Err(message) => Err(Error(InternalError::Http(message))),
                Ok(parsed) => match check_header_value(value) {
                    Err(message) => Err(Error(InternalError::Http(message))),
                    Ok(()) => {
                        let mut headers = components.headers;
                        insert_header(&mut headers, parsed, String::from_str(value));
                        Ok(RequestComponents { method: components.method, uri: components.uri, headers })
                    },
                },
            },
        };
        RequestBuilder { fallback_host, components }
    }

    /// Sets the `Authorization` header to basic authentication with this user and
    /// password.
    pub fn basic_auth(self, user: &[u8], password: &[u8]) -> (builder: Self)
        requires
            self.well_formed(),
        ensures
            builder.well_formed(),
            builder.spec_fallback_host() == self.spec_fallback_host(),
            match self.spec_components() {
                Err(error) => builder.spec_components() == Err::<(Seq<char>, (Option<Seq<char>>, Option<Seq<char>>, Option<Seq<char>>), Seq<(Seq<char>, Seq<char>)>), InternalError>(error),
                Ok((method, uri, headers)) => {
                    let value = "Basic "@ + base64_unpadded(user@ + seq![58u8] + password@);
                    match (parsed_header_name("authorization"@), header_value_error(value)) {
                        (Err(message), _) => builder.spec_components() matches Err(InternalError::Http(shown)) && shown@ == message,
                        (Ok(_), Some(message)) => builder.spec_components() matches Err(InternalError::Http(shown)) && shown@ == message,
                        (Ok(parsed), None) => builder.spec_components()
                            == Ok::<_, InternalError>((method, uri, set_header(headers, parsed, value))),
                    }
                },
            },
    {
        let value = basic_auth_value(user, password);
        proof {
            reveal_strlit("authorization");
        }
        self.header("authorization", value.as_str())
    }

    /// Sets the `Authorization` header to this bearer token.
    pub fn bearer_auth(self, token: &str) -> (builder: Self)
        requires
            self.well_formed(),
        ensures
            builder.well_formed(),
            builder.spec_fallback_host() == self.spec_fallback_host(),
            match self.spec_components() {
                Err(error) => builder.spec_components() == Err::<(Seq<char>, (Option<Seq<char>>, Option<Seq<char>>, Option<Seq<char>>), Seq<(Seq<char>, Seq<char>)>), InternalError>(error),
                Ok((method, uri, headers)) => {
                    let value = "Bearer "@ + token@;
                    match (parsed_header_name("authorization"@), header_value_error(value)) {
                        (Err(message), _) => builder.spec_components() matches Err(InternalError::Http(shown)) && shown@ == message,
                        (Ok(_), Some(message)) => builder.spec_components() matches Err(InternalError::Http(shown)) && shown@ == message,
                        (Ok(parsed), None) => builder.spec_components()
                            == Ok::<_, InternalError>((method, uri, set_header(headers, parsed, value))),
                    }
                },
            },
    {
        let value = bearer_auth_value(token);
        self.header("authorization", value.as_str())
    }

    /// The components the request is sent with: those collected, with the URI
    /// completed by the fallback host where one is set; or the error of the first
    /// failed step.
    pub fn prepare(self) -> (prepared: Result<RequestComponents, Error>)
        requires
            self.well_formed(),
        ensures
            match self.spec_components() {
                Err(error) => prepared matches Err(Error(shown)) && shown == error,
                Ok((method, uri, headers)) => match self.spec_fallback_host() {
                    None => prepared matches Ok(components) && components_view(components) == (method, uri, headers),
                    Some(host) => match (prepared, uri_with_fallback_host(uri, host)) {
                        (Ok(components), Ok(completed)) => components_view(components) == (method, completed, headers),
                        (Err(Error(InternalError::Http(message))), Err(expected)) => message@ == expected,
                        _ => false,
                    },
                },
            },
            prepared matches Ok(components) ==> unique_names(headers_view(components.headers@)),
    {
        let RequestBuilder { fallback_host, components } = self;
        match components {
            Err(error) => Err(error),
            Ok(components) => match fallback_host {
                None => Ok(components),
                Some(host) => match with_fallback_host(components.uri, &host) {
                    Ok(uri) => Ok(RequestComponents { method: components.method, uri, headers: components.headers }),
                    Err(error) => Err(error),
                },
            },
        }
    }
}

/// Sets a header in a list whose names are unique.
fn insert_header(headers: &mut Vec<(String, String)>, name: String, value: String)
    requires
        unique_names(headers_view(old(headers)@)),
    ensures
        unique_names(headers_view(final(headers)@)),
        headers_view(final(headers)@) == set_header(headers_view(old(headers)@), name@, value@),
{
    let ghost before = headers_view(headers@);
    let mut index: usize = 0;
    while index < headers.len()
        invariant
            headers@ == old(headers)@,
            before == headers_view(headers@),
            unique_names(before),
            index <= headers@.len(),
            forall|k: int| 0 <= k < index ==> #[trigger] before[k].0 != name@,
        decreases headers@.len() - index,
    {
        assert(before[index as int] == (headers@[index as int].0@, headers@[index as int].1@));
        if headers[index].0.eq(&name) {
            proof {
                assert(before[index as int].0 == name@);
                let k = choose|k: int| 0 <= k < before.len() && #[trigger] before[k].0 == name@;
                if k != index {
                    if k < index {
                        assert(before[k].0 != name@);
                    } else {
                        assert(before[index as int].0 != before[k].0);
                    }
                }
            }
            let ghost old_headers = headers@;
            headers.set(index, (name, value));
            proof {
                assert(headers_view(headers@) =~= before.update(index as int, (name@, value@)));
                let after = headers_view(headers@);
                assert forall|i: int, j: int| 0 <= i < j < after.len() implies #[trigger] after[i].0 != #[trigger] after[j].0 by {
                    if i != index && j != index {
                        assert(after[i] == before[i]);
                        assert(after[j] == before[j]);
                    } else if i == index {
                        assert(after[j] == before[j]);
                        assert(before[index as int].0 != before[j].0);
                    } else {
                        assert(after[i] == before[i]);
                        assert(before[i].0 != before[index as int].0);
                    }
                }
            }
            return;
        }
        index = index + 1;
    }
    let ghost name_view = name@;
    let ghost value_view = value@;
    headers.push((name, value));
    proof {
        assert(!exists|k: int| 0 <= k < before.len() && #[trigger] before[k].0 == name_view);
        assert(headers_view(headers@) =~= before.push((name_view, value_view)));
        let after = headers_view(headers@);
        assert forall|i: int, j: int| 0 <= i < j < after.len() implies #[trigger] after[i].0 != #[trigger] after[j].0 by {
            assert(after[i] == before[i]);
            if j < before.len() {
                assert(after[j] == before[j]);
            }
        }
    }
}

} // verus!
