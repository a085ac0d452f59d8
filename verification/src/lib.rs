//! A client for the OAuth 2.0 authorization framework (RFC 6749).
//!
//! A `Client` holds what an application knows of an authorization server:
//! its endpoints, the application's credentials, the scopes it asks for.
//! From it come the URLs to which the application sends its users, and the
//! requests by which it trades a grant for an access token.
//!
//! The library sends nothing itself. An exchange has three steps: one of
//! the `exchange_` methods says what to send, as a `TokenRequest`; the
//! application sends it and takes the response; `Client::request_token`
//! reads the response and returns the token, or the reason why there is
//! none.

pub mod basic;
pub mod client;
pub mod error;
pub mod exchange;
pub mod helpers;
pub mod insecure;
pub mod json;
pub mod query;
pub mod text;
pub mod token;

pub use client::{AuthType, Client, ClientView};
pub use error::{ErrorResponse, ErrorResponseType, ErrorResponseView, RequestTokenError, TransportError};
pub use exchange::{RequestTokenResponse, TokenRequest};
pub use json::DecodeError;
pub use token::{Token, TokenType};
