//! What the library asks of an access token and of the vocabulary of token
//! types.

use vstd::prelude::*;
use crate::json::{DecodeError, DecodeFailure};

verus! {

/// The span of time that `Duration::from_secs` makes of a number of whole
/// seconds.
pub uninterp spec fn duration_from_secs(secs: u64) -> std::time::Duration;

/// Calls `Duration::from_secs` of the standard library. Nothing is proved
/// of it: the result is known only as `duration_from_secs` of the argument.
#[verifier::external_body]
pub(crate) fn seconds(secs: u64) -> (span: std::time::Duration)
    ensures
        span == duration_from_secs(secs),
{
    std::time::Duration::from_secs(secs)
}

/// A vocabulary of token types. Its members have lower-case names, by
/// which a token response refers to them.
pub trait TokenType: Sized {
    /// The member that `name` stands for, if it is the name of one.
    spec fn named(name: Seq<char>) -> Option<Self>;

    /// Looks up the member that `name` stands for.
    fn from_name(name: &str) -> (member: Option<Self>)
        ensures
            member == Self::named(name@),
    ;
}

/// An access token, as a token response describes it (RFC 6749, section
/// 5.1). The type parameter is the vocabulary of token types.
pub trait Token<T: TokenType>: Sized + View {
    /// The access token that the authorization server issued.
    fn access_token(&self) -> &str;

    /// The type of the token, which says how to present it.
    fn token_type(&self) -> &T;

    /// How long the token is good for, counted from the time of the
    /// response, where the server says so.
    fn expires_in(&self) -> Option<std::time::Duration>;

    /// The refresh token, with which a new access token can be had, where
    /// the server issued one.
    fn refresh_token(&self) -> &Option<String>;

    /// The scopes of the token, where the server names them.
    fn scopes(&self) -> &Option<Vec<String>>;

    /// The token that the JSON text `data` stands for, or the reason why it
    /// stands for none.
    spec fn decoded(data: Seq<char>) -> Result<Self::V, DecodeFailure>;

    /// Decodes the JSON text of a token response.
    fn from_json(data: &str) -> (token: Result<Self, DecodeError>)
        ensures
            match token {
                Ok(t) => Self::decoded(data@) == Ok::<Self::V, DecodeFailure>(t@),
                Err(e) => Self::decoded(data@) == Err::<Self::V, DecodeFailure>(e@),
            },
    ;
}

} // verus!
