//! The ways in which a request for a token fails.

use vstd::prelude::*;
use vstd::string::StringExecFns;
use crate::json::{
    json_member, json_parse, optional_text, parse_json, read_member, read_optional_text,
    read_required_text, required_text, DecodeError, DecodeFailure, JsonField, Member,
};
use crate::text::opt_text;

verus! {

/// A vocabulary of error codes. Each member has one name, which is both
/// the text that stands for it in an error response and the text by which
/// it is shown.
pub trait ErrorResponseType: Sized {
    /// The member that `name` stands for, if it is the name of one.
    spec fn named(name: Seq<char>) -> Option<Self>;

    /// The name of this member.
    spec fn name(&self) -> Seq<char>;

    /// Looks up the member that `name` stands for.
    fn from_name(name: &str) -> (member: Option<Self>)
        ensures
            member == Self::named(name@),
    ;

    /// The name of this member.
    fn to_string(&self) -> (name: String)
        ensures
            name@ == self.name(),
    ;
}

/// The error that an authorization server reports when it refuses a
/// request for a token (RFC 6749, section 5.2).
#[derive(Debug, PartialEq)]
pub struct ErrorResponse<T: ErrorResponseType> {
    _error: T,
    _error_description: Option<String>,
    _error_uri: Option<String>,
}

/// The model of an `ErrorResponse`.
pub struct ErrorResponseView<T> {
    /// The error code.
    pub error: T,
    /// Text for the developer of the client, about the error.
    pub error_description: Option<Seq<char>>,
    /// The address of a page about the error.
    pub error_uri: Option<Seq<char>>,
}

impl<T: ErrorResponseType> View for ErrorResponse<T> {
    type V = ErrorResponseView<T>;

    closed spec fn view(&self) -> ErrorResponseView<T> {
        ErrorResponseView {
            error: self._error,
            error_description: opt_text(self._error_description),
            error_uri: opt_text(self._error_uri),
        }
    }
}

impl<T: ErrorResponseType> ErrorResponse<T> {
    /// The response that three members of a document make: `error`, which
    /// must name a member of `T`, and the optional `error_description` and
    /// `error_uri`. Where several members are at fault, the first of them
    /// in this order is reported.
    pub open spec fn from_members(error: Member, description: Member, uri: Member) -> Result<
        ErrorResponseView<T>,
        DecodeFailure,
    > {
        match required_text(error, "error"@) {
            Err(e) => Err(e),
            Ok(name) => match T::named(name) {
                None => Err(DecodeFailure::UnknownVariant("error"@, name)),
                Some(code) => match optional_text(description, "error_description"@) {
                    Err(e) => Err(e),
                    Ok(d) => match optional_text(uri, "error_uri"@) {
                        Err(e) => Err(e),
                        Ok(u) => Ok(
                            ErrorResponseView { error: code, error_description: d, error_uri: u },
                        ),
                    },
                },
            },
        }
    }

    /// The response that the JSON text `data` stands for.
    pub open spec fn decoded(data: Seq<char>) -> Result<ErrorResponseView<T>, DecodeFailure> {
        match json_parse(data) {
            Err(e) => Err(DecodeFailure::Syntax(e)),
            Ok(doc) => Self::from_members(
                json_member(doc, "error"@),
                json_member(doc, "error_description"@),
                json_member(doc, "error_uri"@),
            ),
        }
    }

    /// How a response is shown: the name of the error code, then the
    /// description behind `": "` and the address behind `" / See "`, each
    /// where there is one.
    pub open spec fn display(response: ErrorResponseView<T>) -> Seq<char> {
        response.error.name() + match response.error_description {
            Some(d) => ": "@ + d,
            None => Seq::empty(),
        } + match response.error_uri {
            Some(u) => " / See "@ + u,
            None => Seq::empty(),
        }
    }

    /// The error code.
    pub fn error(&self) -> (error: &T)
        ensures
            *error == self@.error,
    {
        &self._error
    }

    /// Text for the developer of the client, about the error.
    pub fn error_description(&self) -> (description: &Option<String>)
        ensures
            opt_text(*description) == self@.error_description,
    {
        &self._error_description
    }

    /// The address of a page about the error.
    pub fn error_uri(&self) -> (uri: &Option<String>)
        ensures
            opt_text(*uri) == self@.error_uri,
    {
        &self._error_uri
    }

    /// Makes a response of the members `error`, `error_description` and
    /// `error_uri` of a document.
    pub fn from_fields(error: JsonField, description: JsonField, uri: JsonField) -> (response:
        Result<Self, DecodeError>)
        ensures
            match response {
                Ok(r) => Self::from_members(error@, description@, uri@) == Ok::<
                    ErrorResponseView<T>,
                    DecodeFailure,
                >(r@),
                Err(e) => Self::from_members(error@, description@, uri@) == Err::<
                    ErrorResponseView<T>,
                    DecodeFailure,
                >(e@),
            },
    {
        let name = match read_required_text(error, "error") {
            Ok(name) => name,
            Err(e) => {
                return Err(e);
            },
        };
        let code = match T::from_name(name.as_str()) {
            Some(code) => code,
            None => {
                return Err(DecodeError::UnknownVariant("error", name));
            },
        };
        let description = match read_optional_text(description, "error_description") {
            Ok(d) => d,
            Err(e) => {
                return Err(e);
            },
        };
        let uri = match read_optional_text(uri, "error_uri") {
            Ok(u) => u,
            Err(e) => {
                return Err(e);
            },
        };
        Ok(ErrorResponse { _error: code, _error_description: description, _error_uri: uri })
    }

    /// Decodes the JSON text of an error response.
    pub fn from_json(data: &str) -> (response: Result<Self, DecodeError>)
        ensures
            match response {
                Ok(r) => Self::decoded(data@) == Ok::<ErrorResponseView<T>, DecodeFailure>(r@),
                Err(e) => Self::decoded(data@) == Err::<ErrorResponseView<T>, DecodeFailure>(e@),
            },
    {
        let doc = match parse_json(data) {
            Ok(doc) => doc,
            Err(e) => {
                return Err(DecodeError::Syntax(e));
            },
        };
        Self::from_fields(
            read_member(&doc, "error"),
            read_member(&doc, "error_description"),
            read_member(&doc, "error_uri"),
        )
    }

    /// The text by which the response is shown.
    pub fn to_string(&self) -> (shown: String)
        ensures
            shown@ == Self::display(self@),
    {
        let mut shown = self._error.to_string();
        if let Some(description) = &self._error_description {
            shown.append(": ");
            shown.append(description.as_str());
        }
        if let Some(uri) = &self._error_uri {
            shown.append(" / See ");
            shown.append(uri.as_str());
        }
        assert(shown@ == Self::display(self@));
        shown
    }
}

/// Why a request did not reach the server, or its response did not
/// arrive: what the transport reports of its failure.
#[derive(Debug, Clone, PartialEq)]
pub struct TransportError {
    /// The transport's number for the kind of failure.
    pub code: u32,
    /// The transport's text for that kind.
    pub description: String,
    /// What the transport adds about this failure, if anything.
    pub extra_description: Option<String>,
}

/// Why a request for a token failed.
#[derive(Debug)]
pub enum RequestTokenError<T: ErrorResponseType> {
    /// The authorization server refused the request; its error response.
    ServerResponse(ErrorResponse<T>),
    /// The request could not be sent or the response could not be received.
    Request(TransportError),
    /// The server's response could not be decoded.
    Parse(DecodeError),
    /// The server's response is not what the protocol allows; the text says
    /// how.
    Other(String),
}

} // verus!
