//! The plain profile of OAuth 2.0, without extensions: bearer and MAC
//! tokens, and the error codes of RFC 6749.

use vstd::prelude::*;
use crate::client::Client;
use crate::error::{ErrorResponse, ErrorResponseType, RequestTokenError};
use crate::helpers::{
    deserialize_space_delimited_vec, deserialize_untagged_enum_case_insensitive, split_spaces,
};
use crate::json::{
    json_member, json_parse, optional_number, optional_text, parse_json, read_member,
    read_optional_number, read_optional_text, read_required_text, required_text, DecodeError,
    DecodeFailure, JsonField, Member,
};
use crate::text::{lowercase, opt_text, same_text, texts};
use crate::token::{duration_from_secs, seconds, Token, TokenType};

verus! {

/// The client of the plain profile, which suits most applications.
pub type BasicClient = Client<BasicTokenType, BasicToken<BasicTokenType>, BasicErrorResponseType>;

/// The error response of the plain profile.
pub type BasicErrorResponse = ErrorResponse<BasicErrorResponseType>;

/// The failure of a token request in the plain profile.
pub type BasicRequestTokenError = RequestTokenError<BasicErrorResponseType>;

/// The token types of the plain profile.
#[derive(Clone, Copy, Debug, PartialEq, Eq)]
pub enum BasicTokenType {
    /// A bearer token (RFC 6750).
    Bearer,
    /// A MAC token.
    Mac,
}

impl TokenType for BasicTokenType {
    open spec fn named(name: Seq<char>) -> Option<Self> {
        if name == "bearer"@ {
            Some(BasicTokenType::Bearer)
        } else if name == "mac"@ {
            Some(BasicTokenType::Mac)
        } else {
            None
        }
    }

    fn from_name(name: &str) -> (member: Option<Self>) {
        if same_text(name, "bearer") {
            Some(BasicTokenType::Bearer)
        } else if same_text(name, "mac") {
            Some(BasicTokenType::Mac)
        } else {
            None
        }
    }
}

/// The access token of the plain profile.
#[derive(Debug, PartialEq)]
pub struct BasicToken<T: TokenType = BasicTokenType> {
    _access_token: String,
    _token_type: T,
    _expires_in: Option<u64>,
    _refresh_token: Option<String>,
    _scopes: Option<Vec<String>>,
}

/// The model of a `BasicToken`.
pub struct BasicTokenView<T> {
    /// The access token.
    pub access_token: Seq<char>,
    /// The type of the token.
    pub token_type: T,
    /// The lifetime of the token in seconds.
    pub expires_in: Option<u64>,
    /// The refresh token.
    pub refresh_token: Option<Seq<char>>,
    /// The scopes of the token, in the order of the response.
    pub scopes: Option<Seq<Seq<char>>>,
}

/// The views of an optional list of strings.
pub open spec fn opt_texts(items: Option<Vec<String>>) -> Option<Seq<Seq<char>>> {
    match items {
        Some(items) => Some(texts(items@)),
        None => None,
    }
}

impl<T: TokenType> View for BasicToken<T> {
    type V = BasicTokenView<T>;

    closed spec fn view(&self) -> BasicTokenView<T> {
        BasicTokenView {
            access_token: self._access_token@,
            token_type: self._token_type,
            expires_in: self._expires_in,
            refresh_token: opt_text(self._refresh_token),
            scopes: opt_texts(self._scopes),
        }
    }
}

impl<T: TokenType> BasicToken<T> {
    /// The token that five members of a document make: `access_token`;
    /// `token_type`, which names a member of `T` in any case; the optional
    /// `expires_in` and `refresh_token`; and the optional `scope`, a list in
    /// space-delimited form. Where several members are at fault, the first
    /// of them in this order is reported.
    pub open spec fn from_members(
        access_token: Member,
        token_type: Member,
        expires_in: Member,
        refresh_token: Member,
        scope: Member,
    ) -> Result<BasicTokenView<T>, DecodeFailure> {
        match required_text(access_token, "access_token"@) {
            Err(e) => Err(e),
            Ok(token) => match required_text(token_type, "token_type"@) {
                Err(e) => Err(e),
                Ok(name) => match T::named(lowercase(name)) {
                    None => Err(DecodeFailure::UnknownVariant("token_type"@, name)),
                    Some(kind) => match optional_number(expires_in, "expires_in"@) {
                        Err(e) => Err(e),
                        Ok(expires) => match optional_text(refresh_token, "refresh_token"@) {
                            Err(e) => Err(e),
                            Ok(refresh) => match optional_text(scope, "scope"@) {
                                Err(e) => Err(e),
                                Ok(scope) => Ok(
                                    BasicTokenView {
                                        access_token: token,
                                        token_type: kind,
                                        expires_in: expires,
                                        refresh_token: refresh,
                                        scopes: match scope {
                                            Some(s) => Some(split_spaces(s)),
                                            None => None,
                                        },
                                    },
                                ),
                            },
                        },
                    },
                },
            },
        }
    }

    /// Makes a token of the members `access_token`, `token_type`,
    /// `expires_in`, `refresh_token` and `scope` of a document.
    pub fn from_fields(
        access_token: JsonField,
        token_type: JsonField,
        expires_in: JsonField,
        refresh_token: JsonField,
        scope: JsonField,
    ) -> (token: Result<Self, DecodeError>)
        ensures
            match token {
                Ok(t) => Self::from_members(
                    access_token@,
                    token_type@,
                    expires_in@,
                    refresh_token@,
                    scope@,
                ) == Ok::<BasicTokenView<T>, DecodeFailure>(t@),
                Err(e) => Self::from_members(
                    access_token@,
                    token_type@,
                    expires_in@,
                    refresh_token@,
                    scope@,
                ) == Err::<BasicTokenView<T>, DecodeFailure>(e@),
            },
    {
        let token = match read_required_text(access_token, "access_token") {
            Ok(token) => token,
            Err(e) => {
                return Err(e);
            },
        };
        let name = match read_required_text(token_type, "token_type") {
            Ok(name) => name,
            Err(e) => {
                return Err(e);
            },
        };
        let kind = match deserialize_untagged_enum_case_insensitive::<T>(name.as_str()) {
            Some(kind) => kind,
            None => {
                return Err(DecodeError::UnknownVariant("token_type", name));
            },
        };
        let expires = match read_optional_number(expires_in, "expires_in") {
            Ok(expires) => expires,
            Err(e) => {
                return Err(e);
            },
        };
        let refresh = match read_optional_text(refresh_token, "refresh_token") {
            Ok(refresh) => refresh,
            Err(e) => {
                return Err(e);
            },
        };
        let scopes = match read_optional_text(scope, "scope") {
            Ok(Some(s)) => deserialize_space_delimited_vec(Some(s.as_str())),
            Ok(None) => deserialize_space_delimited_vec(None),
            Err(e) => {
                return Err(e);
            },
        };
        Ok(
            BasicToken {
                _access_token: token,
                _token_type: kind,
                _expires_in: expires,
                _refresh_token: refresh,
                _scopes: scopes,
            },
        )
    }
}

impl<T: TokenType> Token<T> for BasicToken<T> {
    open spec fn decoded(data: Seq<char>) -> Result<BasicTokenView<T>, DecodeFailure> {
        match json_parse(data) {
            Err(e) => Err(DecodeFailure::Syntax(e)),
            Ok(doc) => Self::from_members(
                json_member(doc, "access_token"@),
                json_member(doc, "token_type"@),
                json_member(doc, "expires_in"@),
                json_member(doc, "refresh_token"@),
                json_member(doc, "scope"@),
            ),
        }
    }

    fn access_token(&self) -> (token: &str)
        ensures
            token@ == self@.access_token,
    {
        self._access_token.as_str()
    }

    fn token_type(&self) -> (kind: &T)
        ensures
            *kind == self@.token_type,
    {
        &self._token_type
    }

    fn expires_in(&self) -> (span: Option<std::time::Duration>)
        ensures
            span == match self@.expires_in {
                Some(secs) => Some(duration_from_secs(secs)),
                None => None,
            },
    {
        match self._expires_in {
            Some(secs) => Some(seconds(secs)),
            None => None,
        }
    }

    fn refresh_token(&self) -> (refresh: &Option<String>)
        ensures
            opt_text(*refresh) == self@.refresh_token,
    {
        &self._refresh_token
    }

    fn scopes(&self) -> (scopes: &Option<Vec<String>>)
        ensures
            opt_texts(*scopes) == self@.scopes,
    {
        &self._scopes
    }

    fn from_json(data: &str) -> (token: Result<Self, DecodeError>) {
        let doc = match parse_json(data) {
            Ok(doc) => doc,
            Err(e) => {
                return Err(DecodeError::Syntax(e));
            },
        };
        Self::from_fields(
            read_member(&doc, "access_token"),
            read_member(&doc, "token_type"),
            read_member(&doc, "expires_in"),
            read_member(&doc, "refresh_token"),
            read_member(&doc, "scope"),
        )
    }
}

/// The error codes of the plain profile (RFC 6749, section 5.2).
#[derive(Clone, Copy, Debug, PartialEq, Eq)]
pub enum BasicErrorResponseType {
    /// The request lacks a parameter, holds one that is not supported or
    /// holds one twice, or is malformed in another way.
    InvalidRequest,
    /// The client could not be authenticated.
    InvalidClient,
    /// The grant or the refresh token is invalid, expired or revoked, was
    /// issued to another client, or does not match the redirection address.
    InvalidGrant,
    /// The client may not use this type of grant.
    UnauthorizedClient,
    /// The authorization server does not support this type of grant.
    UnsupportedGrantType,
    /// The scope asked for is invalid, unknown or malformed, or goes beyond
    /// what the resource owner granted.
    InvalidScope,
}

impl BasicErrorResponseType {
    /// The name of the error code, as RFC 6749 spells it.
    pub fn to_str(&self) -> (name: &'static str)
        ensures
            name@ == self.name(),
    {
        match *self {
            BasicErrorResponseType::InvalidRequest => "invalid_request",
            BasicErrorResponseType::InvalidClient => "invalid_client",
            BasicErrorResponseType::InvalidGrant => "invalid_grant",
            BasicErrorResponseType::UnauthorizedClient => "unauthorized_client",
            BasicErrorResponseType::UnsupportedGrantType => "unsupported_grant_type",
            BasicErrorResponseType::InvalidScope => "invalid_scope",
        }
    }
}

impl ErrorResponseType for BasicErrorResponseType {
    open spec fn named(name: Seq<char>) -> Option<Self> {
        if name == "invalid_request"@ {
            Some(BasicErrorResponseType::InvalidRequest)
        } else if name == "invalid_client"@ {
            Some(BasicErrorResponseType::InvalidClient)
        } else if name == "invalid_grant"@ {
            Some(BasicErrorResponseType::InvalidGrant)
        } else if name == "unauthorized_client"@ {
            Some(BasicErrorResponseType::UnauthorizedClient)
        } else if name == "unsupported_grant_type"@ {
            Some(BasicErrorResponseType::UnsupportedGrantType)
        } else if name == "invalid_scope"@ {
            Some(BasicErrorResponseType::InvalidScope)
        } else {
            None
        }
    }

    open spec fn name(&self) -> Seq<char> {
        match *self {
            BasicErrorResponseType::InvalidRequest => "invalid_request"@,
            BasicErrorResponseType::InvalidClient => "invalid_client"@,
            BasicErrorResponseType::InvalidGrant => "invalid_grant"@,
            BasicErrorResponseType::UnauthorizedClient => "unauthorized_client"@,
            BasicErrorResponseType::UnsupportedGrantType => "unsupported_grant_type"@,
            BasicErrorResponseType::InvalidScope => "invalid_scope"@,
        }
    }

    fn from_name(name: &str) -> (member: Option<Self>) {
        if same_text(name, "invalid_request") {
            Some(BasicErrorResponseType::InvalidRequest)
        } else if same_text(name, "invalid_client") {
            Some(BasicErrorResponseType::InvalidClient)
        } else if same_text(name, "invalid_grant") {
            Some(BasicErrorResponseType::InvalidGrant)
        } else if same_text(name, "unauthorized_client") {
            Some(BasicErrorResponseType::UnauthorizedClient)
        } else if same_text(name, "unsupported_grant_type") {
            Some(BasicErrorResponseType::UnsupportedGrantType)
        } else if same_text(name, "invalid_scope") {
            Some(BasicErrorResponseType::InvalidScope)
        } else {
            None
        }
    }

    fn to_string(&self) -> (name: String) {
        self.to_str().to_owned()
    }
}

/// Each error code is the one that its own name stands for: reading a
/// name back gives the code that wrote it.
pub proof fn lemma_error_name_read_back(code: BasicErrorResponseType)
    ensures
        BasicErrorResponseType::named(code.name()) == Some(code),
{
    reveal_strlit("invalid_request");
    reveal_strlit("invalid_client");
    reveal_strlit("invalid_grant");
    reveal_strlit("unauthorized_client");
    reveal_strlit("unsupported_grant_type");
    reveal_strlit("invalid_scope");
    assert("invalid_request"@.len() == 15);
    assert("invalid_client"@.len() == 14);
    assert("invalid_grant"@.len() == 13);
    assert("unauthorized_client"@.len() == 19);
    assert("unsupported_grant_type"@.len() == 22);
    assert("invalid_scope"@.len() == 13);
    assert("invalid_grant"@[8] == 'g');
    assert("invalid_scope"@[8] == 's');
}

} // verus!
