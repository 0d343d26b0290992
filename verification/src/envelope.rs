//! Opening the `data` envelope that wraps every reply of the server.

use vstd::prelude::*;
use crate::codec::{json_member, json_string, member_text, string_text, text_view};

verus! {

/// Why a request gave no payload.
#[derive(Clone, Debug, PartialEq, Eq)]
pub enum RequestError {
    /// The transport could not complete the exchange; the text is its
    /// diagnostic.
    TransportError(String),
    /// The reply arrived but is not an envelope of the expected shape.
    DeserializationError,
}

/// The payload of a successful login.
#[derive(Clone, Debug, PartialEq, Eq)]
pub struct TokenResponse {
    pub csrf_token: String,
    pub auth_token: String,
    pub username: String,
}

/// The three strings of a login payload.
pub struct TokenView {
    pub csrf_token: Seq<char>,
    pub auth_token: Seq<char>,
    pub username: Seq<char>,
}

/// The payload that the envelope `body` wraps, as JSON text.
pub open spec fn envelope_payload(body: Seq<char>) -> Option<Seq<char>> {
    json_member(body, "data"@)
}

/// The string held by member `key` of the JSON object `doc`.
pub open spec fn member_string(doc: Seq<char>, key: Seq<char>) -> Option<Seq<char>> {
    match json_member(doc, key) {
        Some(m) => json_string(m),
        None => None,
    }
}

/// The login payload inside the envelope `body`: present exactly when the
/// envelope opens and its payload holds all three strings.
pub open spec fn login_tokens(body: Seq<char>) -> Option<TokenView> {
    match envelope_payload(body) {
        None => None,
        Some(data) => match (
            member_string(data, "CSRFPreventionToken"@),
            member_string(data, "ticket"@),
            member_string(data, "username"@),
        ) {
            (Some(c), Some(a), Some(u)) => Some(
                TokenView { csrf_token: c, auth_token: a, username: u },
            ),
            _ => None,
        },
    }
}

/// The view of an optional login payload.
pub open spec fn tokens_view(t: Option<TokenResponse>) -> Option<TokenView> {
    match t {
        Some(t) => Some(t@),
        None => None,
    }
}

impl TokenResponse {
    pub open spec fn view(&self) -> TokenView {
        TokenView {
            csrf_token: self.csrf_token@,
            auth_token: self.auth_token@,
            username: self.username@,
        }
    }

    /// Assembles a login payload from its three members; any missing member
    /// leaves none.
    pub fn from_fields(
        csrf_token: Option<String>,
        auth_token: Option<String>,
        username: Option<String>,
    ) -> (r: Option<TokenResponse>)
        ensures
            r == match (csrf_token, auth_token, username) {
                (Some(c), Some(a), Some(u)) => Some(
                    TokenResponse { csrf_token: c, auth_token: a, username: u },
                ),
                _ => None::<TokenResponse>,
            },
    {
        match (csrf_token, auth_token, username) {
            (Some(c), Some(a), Some(u)) => Some(
                TokenResponse { csrf_token: c, auth_token: a, username: u },
            ),
            _ => None,
        }
    }

    /// Reads the login payload out of the reply `body`.
    pub fn parse(body: &str) -> (r: Option<TokenResponse>)
        ensures
            tokens_view(r) == login_tokens(body@),
    {
        match member_text(body, "data") {
            None => None,
            Some(data) => {
                let csrf_token = string_member(data.as_str(), "CSRFPreventionToken");
                let auth_token = string_member(data.as_str(), "ticket");
                let username = string_member(data.as_str(), "username");
                TokenResponse::from_fields(csrf_token, auth_token, username)
            },
        }
    }
}

/// The string held by member `key` of the JSON object `doc`.
pub fn string_member(doc: &str, key: &str) -> (r: Option<String>)
    ensures
        text_view(r) == member_string(doc@, key@),
{
    match member_text(doc, key) {
        Some(m) => string_text(m.as_str()),
        None => None,
    }
}

/// Turns the `data` member looked up in a reply into the caller's result: the
/// payload where there is one, a deserialization error where there is none.
pub fn payload_or_error(data: Option<String>) -> (r: Result<String, RequestError>)
    ensures
        r == match data {
            Some(p) => Ok::<String, RequestError>(p),
            None => Err::<String, RequestError>(RequestError::DeserializationError),
        },
{
    match data {
        Some(p) => Ok(p),
        None => Err(RequestError::DeserializationError),
    }
}

/// Turns the login payload read from a reply into the caller's result.
pub fn tokens_or_error(tokens: Option<TokenResponse>) -> (r: Result<TokenResponse, RequestError>)
    ensures
        r == match tokens {
            Some(t) => Ok::<TokenResponse, RequestError>(t),
            None => Err::<TokenResponse, RequestError>(RequestError::DeserializationError),
        },
{
    match tokens {
        Some(t) => Ok(t),
        None => Err(RequestError::DeserializationError),
    }
}

/// Opens the envelope of a reply body and hands out the payload as JSON text.
pub fn unwrap_envelope(body: &str) -> (r: Result<String, RequestError>)
    ensures
        match envelope_payload(body@) {
            Some(p) => r matches Ok(text) && text@ == p,
            None => r == Err::<String, RequestError>(RequestError::DeserializationError),
        },
{
    payload_or_error(member_text(body, "data"))
}

/// What the outcome of sending a request means to the caller. `reply` is the
/// body received, or the transport's diagnostic where nothing was received.
///
/// A transport failure stays a transport failure; a body is opened as an
/// envelope.
pub fn decode_response(reply: Result<String, String>) -> (r: Result<String, RequestError>)
    ensures
        match reply {
            Err(m) => r == Err::<String, RequestError>(RequestError::TransportError(m)),
            Ok(body) => match envelope_payload(body@) {
                Some(p) => r matches Ok(text) && text@ == p,
                None => r == Err::<String, RequestError>(RequestError::DeserializationError),
            },
        },
{
    match reply {
        Err(m) => Err(RequestError::TransportError(m)),
        Ok(body) => unwrap_envelope(body.as_str()),
    }
}

/// What the outcome of the login exchange means. `reply` is the body
/// received, or the transport's diagnostic where nothing was received.
pub fn decode_login(reply: Result<String, String>) -> (r: Result<TokenResponse, RequestError>)
    ensures
        match reply {
            Err(m) => r == Err::<TokenResponse, RequestError>(RequestError::TransportError(m)),
            Ok(body) => match login_tokens(body@) {
                Some(t) => r matches Ok(tokens) && tokens@ == t,
                None => r == Err::<TokenResponse, RequestError>(
                    RequestError::DeserializationError,
                ),
            },
        },
{
    match reply {
        Err(m) => Err(RequestError::TransportError(m)),
        Ok(body) => tokens_or_error(TokenResponse::parse(body.as_str())),
    }
}

} // verus!
