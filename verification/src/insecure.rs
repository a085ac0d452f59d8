//! Authorization URLs without a state: not for most applications.
//!
//! A URL made here carries nothing by which the client could tell its own
//! request from a forged one when the user comes back. Use
//! `Client::authorize_url` and `Client::authorize_url_implicit` instead,
//! unless the application guards against forged requests in another way.

use vstd::prelude::*;
use crate::client::Client;
use crate::error::ErrorResponseType;
use crate::query::str_pairs;
use crate::token::{Token, TokenType};

verus! {

/// The URL to which the client sends its user for the grant by
/// authorization code, without a state.
pub fn authorize_url<TT, T, TE>(client: &Client<TT, T, TE>) -> (url: url::Url) where
    TT: TokenType,
    T: Token<TT>,
    TE: ErrorResponseType,

    requires
        client@.can_authorize("code"@, None, Seq::empty()),
    ensures
        url == client@.authorize_url("code"@, None, Seq::empty()),
{
    let none: [(&str, &str); 0] = [];
    assert(str_pairs(none@) =~= Seq::empty());
    client.authorize_url_impl("code", None, none.as_slice())
}

/// The URL to which the client sends its user for the implicit grant,
/// without a state.
pub fn authorize_url_implicit<TT, T, TE>(client: &Client<TT, T, TE>) -> (url: url::Url) where
    TT: TokenType,
    T: Token<TT>,
    TE: ErrorResponseType,

    requires
        client@.can_authorize("token"@, None, Seq::empty()),
    ensures
        url == client@.authorize_url("token"@, None, Seq::empty()),
{
    let none: [(&str, &str); 0] = [];
    assert(str_pairs(none@) =~= Seq::empty());
    client.authorize_url_impl("token", None, none.as_slice())
}

} // verus!
