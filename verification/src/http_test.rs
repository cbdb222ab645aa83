use vstd::prelude::*;
use crate::text::prefixed;
use vstd::string::StringExecFns;
use vstd::std_specs::convert::{FromSpecImpl, TryFromSpecImpl};
use vstd::utf8::{decode_utf8, valid_utf8};

verus! {

/// The failures of the in-process HTTP test client, with their explanations.
#[derive(Clone, Debug, PartialEq, Eq)]
pub enum InternalError {
    Connection(String),
    InvalidHost(String),
    Http(String),
    Json(String),
    TextDecoding(String),
    Request(String),
    ResponseContent(String),
}

/// How an internal error is shown.
pub open spec fn internal_error_text(error: InternalError) -> Seq<char> {
    match error {
        InternalError::Connection(message) => "Connection error: "@ + message@,
        InternalError::InvalidHost(message) => "Invalid host: "@ + message@,
        InternalError::Http(message) => "HTTP error: "@ + message@,
        InternalError::Json(message) => "JSON error: "@ + message@,
        InternalError::TextDecoding(message) => "Text decoding error: "@ + message@,
        InternalError::Request(message) => "Request error: "@ + message@,
        InternalError::ResponseContent(message) => "Failed to read response content: "@ + message@,
    }
}

impl InternalError {
    /// The text by which the error is shown.
    pub fn to_display_string(&self) -> (text: String)
        ensures
            text@ == internal_error_text(*self),
    {
        match self {
            InternalError::Connection(message) => prefixed("Connection error: ", message),
            InternalError::InvalidHost(message) => prefixed("Invalid host: ", message),
            InternalError::Http(message) => prefixed("HTTP error: ", message),
            InternalError::Json(message) => prefixed("JSON error: ", message),
            InternalError::TextDecoding(message) => prefixed("Text decoding error: ", message),
            InternalError::Request(message) => prefixed("Request error: ", message),
            InternalError::ResponseContent(message) => prefixed("Failed to read response content: ", message),
        }
    }
}

/// An error of the HTTP test client.
#[derive(Clone, Debug, PartialEq, Eq)]
pub struct Error(pub InternalError);

impl Error {
    /// The text by which the error is shown: that of the internal error.
    pub fn to_display_string(&self) -> (text: String)
        ensures
            text@ == internal_error_text(self.0),
    {
        self.0.to_display_string()
    }
}

impl From<InternalError> for Error {
    fn from(error: InternalError) -> (wrapped: Self) {
        Error(error)
    }
}

impl FromSpecImpl<InternalError> for Error {
    open spec fn obeys_from_spec() -> bool {
        true
    }

    open spec fn from_spec(error: InternalError) -> Self {
        Error(error)
    }
}

/// What http's `Authority::from_str` makes of a text: the authority's host, or the
/// text of the parse error.
pub uninterp spec fn parsed_authority_host(text: Seq<char>) -> Result<Seq<char>, Seq<char>>;

/// Parses `text` with `http::uri::Authority::from_str`. On success it gives the
/// authority's `host()` and `as_str()`, on failure the `to_string()` of the
/// parse error. The host and the error text are what `parsed_authority_host`
/// names for the text; `as_str()` gives back the parsed text itself, since
/// a parsed authority keeps the bytes it was parsed from.
#[verifier::external_body]
fn parse_authority(text: &str) -> (parsed: Result<(String, String), String>)
    ensures
        match (parsed, parsed_authority_host(text@)) {
            (Ok((host, whole)), Ok(parsed_host)) => host@ == parsed_host && whole@ == text@,
            (Err(message), Err(parsed_message)) => message@ == parsed_message,
            _ => false,
        },
{
    match text.parse::<http::uri::Authority>() {
        Ok(authority) => Ok((authority.host().to_string(), authority.as_str().to_string())),
        Err(error) => Err(error.to_string()),
    }
}

/// A validated URI host.
#[derive(Clone, Debug, PartialEq, Eq)]
pub struct Host(String);

/// The host that a text stands for, or the explanation why it is none: the text
/// must parse as an authority that consists of nothing but a host.
pub open spec fn host_from_text(text: Seq<char>) -> Result<Seq<char>, Seq<char>> {
    match parsed_authority_host(text) {
        Ok(host) => if host == text {
            Ok(host)
        } else {
            Err(text + " is more than just a host."@)
        },
        Err(message) => Err(message),
    }
}

impl Host {
    /// The host's text.
    pub closed spec fn view(&self) -> Seq<char> {
        self.0@
    }

    /// Validates a host given as text.
    pub fn parse(text: &str) -> (host: Result<Host, Error>)
        ensures
            match (host, host_from_text(text@)) {
                (Ok(host), Ok(expected)) => host.view() == expected,
                (Err(Error(InternalError::InvalidHost(message))), Err(expected)) => message@ == expected,
                _ => false,
            },
    {
        match parse_authority(text) {
            Ok((host, whole)) => {
                if host.eq(&whole) {
                    Ok(Host(host))
                } else {
                    let mut message = whole;
                    message.append(" is more than just a host.");
                    Err(Error(InternalError::InvalidHost(message)))
                }
            },
            Err(message) => Err(Error(InternalError::InvalidHost(message))),
        }
    }

    /// The host's text.
    pub fn as_str(&self) -> (text: &str)
        ensures
            text@ == self.view(),
    {
        self.0.as_str()
    }

    /// The host's text, as it is shown.
    pub fn to_display_string(&self) -> (text: String)
        ensures
            text@ == self.view(),
    {
        self.0.clone()
    }
}

impl From<Host> for String {
    fn from(host: Host) -> (text: String) {
        host.0
    }
}

impl FromSpecImpl<Host> for String {
    open spec fn obeys_from_spec() -> bool {
        true
    }

    closed spec fn from_spec(host: Host) -> String {
        host.0
    }
}

impl<'a> TryFrom<&'a str> for Host {
    type Error = Error;

    fn try_from(text: &'a str) -> (host: Result<Host, Error>)
        ensures
            match (host, host_from_text(text@)) {
                (Ok(host), Ok(expected)) => host.view() == expected,
                (Err(Error(InternalError::InvalidHost(message))), Err(expected)) => message@ == expected,
                _ => false,
            },
    {
        Host::parse(text)
    }
}

impl<'a> TryFromSpecImpl<&'a str> for Host {
    open spec fn obeys_try_from_spec() -> bool {
        false
    }

    open spec fn try_from_spec(text: &'a str) -> Result<Host, Error> {
        vstd::pervasive::arbitrary()
    }
}

impl TryFrom<String> for Host {
    type Error = Error;

    fn try_from(text: String) -> (host: Result<Host, Error>)
        ensures
            match (host, host_from_text(text@)) {
                (Ok(host), Ok(expected)) => host.view() == expected,
                (Err(Error(InternalError::InvalidHost(message))), Err(expected)) => message@ == expected,
                _ => false,
            },
    {
        Host::parse(text.as_str())
    }
}

impl TryFromSpecImpl<String> for Host {
    open spec fn obeys_try_from_spec() -> bool {
        false
    }

    open spec fn try_from_spec(text: String) -> Result<Host, Error> {
        vstd::pervasive::arbitrary()
    }
}

/// The text of the error that `std::str::from_utf8` reports for these bytes.
pub uninterp spec fn utf8_error_text(bytes: Seq<u8>) -> Seq<char>;

/// Decodes bytes with `std::str::from_utf8`: the text they encode if they are
/// valid UTF-8, else the `to_string()` of the error.
#[verifier::external_body]
fn decode_text(bytes: &[u8]) -> (text: Result<&str, String>)
    ensures
        match text {
            Ok(text) => valid_utf8(bytes@) && text@ == decode_utf8(bytes@),
            Err(message) => !valid_utf8(bytes@) && message@ == utf8_error_text(bytes@),
        },
{
    std::str::from_utf8(bytes).map_err(|error| error.to_string())
}

impl Host {
    /// Validates a host given as UTF-8 encoded bytes.
    pub fn parse_bytes(bytes: &[u8]) -> (host: Result<Host, Error>)
        ensures
            !valid_utf8(bytes@) ==> (host matches Err(Error(InternalError::InvalidHost(message)))
                && message@ == utf8_error_text(bytes@)),
            valid_utf8(bytes@) ==> match (host, host_from_text(decode_utf8(bytes@))) {
                (Ok(host), Ok(expected)) => host.view() == expected,
                (Err(Error(InternalError::InvalidHost(message))), Err(expected)) => message@ == expected,
                _ => false,
            },
    {
        match decode_text(bytes) {
            Ok(text) => Host::parse(text),
            Err(message) => Err(Error(InternalError::InvalidHost(message))),
        }
    }
}

impl<'a> TryFrom<&'a [u8]> for Host {
    type Error = Error;

    fn try_from(bytes: &'a [u8]) -> (host: Result<Host, Error>)
        ensures
            !valid_utf8(bytes@) ==> (host matches Err(Error(InternalError::InvalidHost(message)))
                && message@ == utf8_error_text(bytes@)),
            valid_utf8(bytes@) ==> match (host, host_from_text(decode_utf8(bytes@))) {
                (Ok(host), Ok(expected)) => host.view() == expected,
                (Err(Error(InternalError::InvalidHost(message))), Err(expected)) => message@ == expected,
                _ => false,
            },
    {
        Host::parse_bytes(bytes)
    }
}

impl<'a> TryFromSpecImpl<&'a [u8]> for Host {
    open spec fn obeys_try_from_spec() -> bool {
        false
    }

    open spec fn try_from_spec(bytes: &'a [u8]) -> Result<Host, Error> {
        vstd::pervasive::arbitrary()
    }
}

/// Whether an in-process connection to the given request host may be opened:
/// a server bound to a host only accepts requests for exactly that host.
pub open spec fn request_host_check(bind_host: Option<Seq<char>>, request_host: Option<Seq<char>>) -> Result<(), Seq<char>> {
    match bind_host {
        None => Ok(()),
        Some(host) => match request_host {
            None => Err("Request is missing a host. Server was bound to '"@ + host + "'"@),
            Some(request_host) => if request_host == host {
                Ok(())
            } else {
                Err("No server available for the host '"@ + request_host + "', server was bound to '"@ + host + "'"@)
            },
        },
    }
}

/// A server that is bound to no host accepts every request, whatever host it names.
pub proof fn lemma_unbound_server_accepts_every_request(request_host: Option<Seq<char>>)
    ensures
        request_host_check(None, request_host) == Ok::<(), Seq<char>>(()),
{
}

/// A server bound to a host accepts exactly the requests for that very host.
pub proof fn lemma_bound_server_accepts_only_its_host(host: Seq<char>, request_host: Option<Seq<char>>)
    ensures
        request_host_check(Some(host), request_host) is Ok <==> request_host == Some(host),
{
}

/// Checks the host of a request against the host the server is bound to; a
/// mismatch is a connection error.
pub fn check_request_host(bind_host: &Option<Host>, request_host: Option<&str>) -> (checked: Result<(), Error>)
    ensures
        match (checked, request_host_check(
            match bind_host { Some(host) => Some(host.view()), None => None },
            match request_host { Some(text) => Some(text@), None => None },
        )) {
            (Ok(()), Ok(())) => true,
            (Err(Error(InternalError::Connection(message))), Err(expected)) => message@ == expected,
            _ => false,
        },
        bind_host is None ==> checked is Ok,
        bind_host matches Some(host) ==> (checked is Ok <==> (request_host matches Some(text) && text@ == host.view())),
{
    match bind_host {
        None => Ok(()),
        Some(host) => match request_host {
            None => {
                let mut message = String::from_str("Request is missing a host. Server was bound to '");
                message.append(host.as_str());
                message.append("'");
                Err(Error(InternalError::Connection(message)))
            },
            Some(request_host) => {
                let request_text = String::from_str(request_host);
                if request_text.eq(&host.0) {
                    Ok(())
                } else {
                    let mut message = String::from_str("No server available for the host '");
                    message.append(request_host);
                    message.append("', server was bound to '");
                    message.append(host.as_str());
                    message.append("'");
                    Err(Error(InternalError::Connection(message)))
                }
            },
        },
    }
}

/// The character of the standard base64 alphabet (RFC 4648) for a six-bit value.
pub open spec fn base64_char(value: int) -> char {
    if value < 26 {
        (65 + value) as char
    } else if value < 52 {
        (97 + value - 26) as char
    } else if value < 62 {
        (48 + value - 52) as char
    } else if value == 62 {
        '+'
    } else {
        '/'
    }
}

/// Standard base64 (RFC 4648) without padding: each group of three bytes becomes
/// four characters; a last group of one or two bytes becomes two or three.
pub open spec fn base64_unpadded(bytes: Seq<u8>) -> Seq<char>
    decreases bytes.len(),
{
    if bytes.len() == 0 {
        Seq::empty()
    } else if bytes.len() == 1 {
        seq![base64_char((bytes[0] as int) / 4), base64_char(((bytes[0] as int) % 4) * 16)]
    } else if bytes.len() == 2 {
        seq![
            base64_char((bytes[0] as int) / 4),
            base64_char(((bytes[0] as int) % 4) * 16 + (bytes[1] as int) / 16),
            base64_char(((bytes[1] as int) % 16) * 4),
        ]
    } else {
        seq![
            base64_char((bytes[0] as int) / 4),
            base64_char(((bytes[0] as int) % 4) * 16 + (bytes[1] as int) / 16),
            base64_char(((bytes[1] as int) % 16) * 4 + (bytes[2] as int) / 64),
            base64_char((bytes[2] as int) % 64),
        ] + base64_unpadded(bytes.subrange(3, bytes.len() as int))
    }
}

/// Encodes bytes with `base64::engine::general_purpose::STANDARD_NO_PAD`, which is
/// standard base64 with the standard alphabet and no padding.
#[verifier::external_body]
fn encode_base64_unpadded(bytes: &[u8]) -> (encoded: String)
    ensures
        encoded@ == base64_unpadded(bytes@),
{
    base64::Engine::encode(&base64::engine::general_purpose::STANDARD_NO_PAD, bytes)
}

/// The value of a basic `Authorization` header: `Basic ` followed by the
/// unpadded base64 encoding of `user:password`.
pub fn basic_auth_value(user: &[u8], password: &[u8]) -> (value: String)
    ensures
        value@ == "Basic "@ + base64_unpadded(user@ + seq![58u8] + password@),
{
    let mut user_pass: Vec<u8> = Vec::new();
    let mut index: usize = 0;
    while index < user.len()
        invariant
            index <= user@.len(),
            user_pass@ == user@.subrange(0, index as int),
        decreases user@.len() - index,
    {
        user_pass.push(user[index]);
        index = index + 1;
    }
    user_pass.push(58u8);
    let mut index: usize = 0;
    while index < password.len()
        invariant
            index <= password@.len(),
            user_pass@ == user@ + seq![58u8] + password@.subrange(0, index as int),
        decreases password@.len() - index,
    {
        user_pass.push(password[index]);
        index = index + 1;
    }
    assert(user@.subrange(0, user@.len() as int) == user@);
    assert(password@.subrange(0, password@.len() as int) == password@);
    let encoded = encode_base64_unpadded(user_pass.as_slice());
    let mut value = String::from_str("Basic ");
    value.append(encoded.as_str());
    value
}

/// The value of a bearer `Authorization` header: `Bearer ` followed by the token.
pub fn bearer_auth_value(token: &str) -> (value: String)
    ensures
        value@ == "Bearer "@ + token@,
{
    let mut value = String::from_str("Bearer ");
    value.append(token);
    value
}

} // verus!
