//! The request that asks a token endpoint for a token, and the reading of
//! the endpoint's response.
//!
//! The library sends nothing itself. It says what to send, as a
//! `TokenRequest`, and takes what came back, as a `RequestTokenResponse`.

use vstd::prelude::*;
use vstd::string::StringExecFns;
use vstd::utf8::{decode_utf8, valid_utf8};
use crate::text::{has_prefix, lowercase, opt_text, starts_with, texts, to_lowercase};

verus! {

/// The media type of a token response.
pub const CONTENT_TYPE_JSON: &'static str = "application/json";

/// `FromUtf8Error` of the standard library, taken as it is: the library
/// reads it only through `utf8_error_text`.
#[verifier::external_type_specification]
#[verifier::external_body]
pub struct ExFromUtf8Error(std::string::FromUtf8Error);

/// The text that `String::from_utf8_lossy` makes of `bytes`, in which a
/// replacement character stands for each part that is not UTF-8.
pub uninterp spec fn utf8_lossy(bytes: Seq<u8>) -> Seq<char>;

/// The error with which `String::from_utf8` refuses `bytes`.
pub uninterp spec fn utf8_error(bytes: Seq<u8>) -> std::string::FromUtf8Error;

/// The text by which a `FromUtf8Error` is displayed.
pub uninterp spec fn utf8_error_text(error: std::string::FromUtf8Error) -> Seq<char>;

/// Calls `String::from_utf8_lossy` of the standard library. Nothing is
/// proved of it: the result is known only as `utf8_lossy` of the argument.
#[verifier::external_body]
pub(crate) fn string_from_utf8_lossy(bytes: &[u8]) -> (text: String)
    ensures
        text@ == utf8_lossy(bytes@),
{
    String::from_utf8_lossy(bytes).into_owned()
}

/// Calls `String::from_utf8` of the standard library, which accepts the
/// bytes exactly where they are UTF-8 and then gives the text they encode.
#[verifier::external_body]
pub(crate) fn string_from_utf8(bytes: Vec<u8>) -> (text: Result<String, std::string::FromUtf8Error>)
    ensures
        match text {
            Ok(s) => valid_utf8(bytes@) && s@ == decode_utf8(bytes@),
            Err(e) => !valid_utf8(bytes@) && e == utf8_error(bytes@),
        },
{
    String::from_utf8(bytes)
}

/// Formats a `FromUtf8Error` by its `Display`. Nothing is proved of it:
/// the result is known only as `utf8_error_text` of the argument.
#[verifier::external_body]
pub(crate) fn display_utf8_error(error: &std::string::FromUtf8Error) -> (text: String)
    ensures
        text@ == utf8_error_text(*error),
{
    error.to_string()
}

/// A request to a token endpoint: an HTTP POST.
#[derive(Debug, Clone, PartialEq)]
pub struct TokenRequest {
    /// The address of the token endpoint.
    pub url: String,
    /// The user name for HTTP Basic authentication, where it is used.
    pub username: Option<String>,
    /// The password for HTTP Basic authentication, where there is one.
    pub password: Option<String>,
    /// The header lines to send.
    pub headers: Vec<String>,
    /// The body: the parameters in `application/x-www-form-urlencoded`
    /// syntax.
    pub body: String,
}

/// The model of a `TokenRequest`.
pub struct TokenRequestView {
    /// The address of the token endpoint.
    pub url: Seq<char>,
    /// The user name for HTTP Basic authentication.
    pub username: Option<Seq<char>>,
    /// The password for HTTP Basic authentication.
    pub password: Option<Seq<char>>,
    /// The header lines.
    pub headers: Seq<Seq<char>>,
    /// The body.
    pub body: Seq<char>,
}

impl View for TokenRequest {
    type V = TokenRequestView;

    open spec fn view(&self) -> TokenRequestView {
        TokenRequestView {
            url: self.url@,
            username: opt_text(self.username),
            password: opt_text(self.password),
            headers: texts(self.headers@),
            body: self.body@,
        }
    }
}

/// What a token endpoint answered.
#[derive(Debug, Clone, PartialEq)]
pub struct RequestTokenResponse {
    /// The HTTP status.
    pub http_status: u32,
    /// The value of the `Content-Type` header, if the response has one.
    pub content_type: Option<String>,
    /// The body.
    pub response_body: Vec<u8>,
}

/// What a response turns out to be, before its body is decoded.
pub enum Reading {
    /// The response breaks the protocol; the text says how.
    Broken(Seq<char>),
    /// The server refused the request; the text of its error response.
    Refusal(Seq<char>),
    /// The server granted the request; the text of its token response.
    Grant(Seq<char>),
}

/// What a response turns out to be, before its body is decoded.
#[derive(Debug, Clone, PartialEq)]
pub enum ResponseKind {
    /// The response breaks the protocol; the text says how.
    Broken(String),
    /// The server refused the request; the text of its error response.
    Refusal(String),
    /// The server granted the request; the text of its token response.
    Grant(String),
}

impl View for ResponseKind {
    type V = Reading;

    open spec fn view(&self) -> Reading {
        match *self {
            ResponseKind::Broken(s) => Reading::Broken(s@),
            ResponseKind::Refusal(s) => Reading::Refusal(s@),
            ResponseKind::Grant(s) => Reading::Grant(s@),
        }
    }
}

/// The header line that asks for a JSON response.
pub open spec fn accept_header() -> Seq<char> {
    "Accept: "@ + CONTENT_TYPE_JSON@
}

/// Whether a `Content-Type` is acceptable for a token response: in lower
/// case it begins with `application/json`. None at all is acceptable too.
pub open spec fn json_content_type(content_type: Option<Seq<char>>) -> bool {
    match content_type {
        Some(t) => has_prefix(lowercase(t), CONTENT_TYPE_JSON@),
        None => true,
    }
}

/// The complaint about a `Content-Type` that is not acceptable.
pub open spec fn content_type_complaint(content_type: Seq<char>) -> Seq<char> {
    "Unexpected response Content-Type: `"@ + content_type + "`, should be `"@ + CONTENT_TYPE_JSON@
        + "`"@
}

/// Reads a response by its status, its `Content-Type` and its body.
///
/// Any status but 200 is a refusal, whose body must not be empty and is
/// taken as text whatever its bytes. A response with status 200 must have
/// an acceptable `Content-Type` and a body that is not empty and is UTF-8;
/// the first of these that it lacks is reported.
pub open spec fn reading(status: u32, content_type: Option<Seq<char>>, body: Seq<u8>) -> Reading {
    if status != 200 {
        if body.len() == 0 {
            Reading::Broken("Server returned empty error response"@)
        } else {
            Reading::Refusal(utf8_lossy(body))
        }
    } else if !json_content_type(content_type) {
        Reading::Broken(content_type_complaint(content_type.unwrap()))
    } else if body.len() == 0 {
        Reading::Broken("Server returned empty response body"@)
    } else if !valid_utf8(body) {
        Reading::Broken("Couldn't parse response as UTF-8: "@ + utf8_error_text(utf8_error(body)))
    } else {
        Reading::Grant(decode_utf8(body))
    }
}

/// A response with status 200 whose `Content-Type` is not acceptable
/// breaks the protocol, whatever its body: it is never taken for a grant.
pub proof fn lemma_grant_needs_json(content_type: Seq<char>, body: Seq<u8>)
    requires
        !json_content_type(Some(content_type)),
    ensures
        reading(200, Some(content_type), body) == Reading::Broken(
            content_type_complaint(content_type),
        ),
{
}

/// A response without a body breaks the protocol, whatever its status: it
/// is never decoded. With status 200 and an acceptable `Content-Type` the
/// complaint is that of an empty response body.
pub proof fn lemma_empty_body(status: u32, content_type: Option<Seq<char>>)
    ensures
        reading(status, content_type, Seq::empty()) is Broken,
        status == 200 && json_content_type(content_type) ==> reading(
            status,
            content_type,
            Seq::empty(),
        ) == Reading::Broken("Server returned empty response body"@),
        status != 200 ==> reading(status, content_type, Seq::empty()) == Reading::Broken(
            "Server returned empty error response"@,
        ),
{
}

/// Reads a response.
pub fn read_response(response: RequestTokenResponse) -> (kind: ResponseKind)
    ensures
        kind@ == reading(
            response.http_status,
            opt_text(response.content_type),
            response.response_body@,
        ),
{
    if response.http_status != 200 {
        if response.response_body.len() == 0 {
            return ResponseKind::Broken("Server returned empty error response".to_owned());
        } else {
            return ResponseKind::Refusal(
                string_from_utf8_lossy(response.response_body.as_slice()),
            );
        }
    }
    if let Some(content_type) = &response.content_type {
        let lower = to_lowercase(content_type.as_str());
        if !starts_with(lower.as_str(), CONTENT_TYPE_JSON) {
            let mut complaint = "Unexpected response Content-Type: `".to_owned();
            complaint.append(content_type.as_str());
            complaint.append("`, should be `");
            complaint.append(CONTENT_TYPE_JSON);
            complaint.append("`");
            return ResponseKind::Broken(complaint);
        }
    }
    if response.response_body.len() == 0 {
        return ResponseKind::Broken("Server returned empty response body".to_owned());
    }
    match string_from_utf8(response.response_body) {
        Ok(text) => ResponseKind::Grant(text),
        Err(error) => {
            let mut complaint = "Couldn't parse response as UTF-8: ".to_owned();
            let shown = display_utf8_error(&error);
            complaint.append(shown.as_str());
            ResponseKind::Broken(complaint)
        },
    }
}

} // verus!
