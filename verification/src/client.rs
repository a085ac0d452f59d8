//! The configuration of a client, the authorization URLs it sends its users
//! to, and its requests for tokens.

use std::marker::PhantomData;
use vstd::prelude::*;
use vstd::string::StringExecFns;
use crate::error::{ErrorResponse, ErrorResponseType, RequestTokenError, TransportError};
use crate::exchange::{
    accept_header, read_response, reading, Reading, RequestTokenResponse, ResponseKind,
    TokenRequest, TokenRequestView, CONTENT_TYPE_JSON,
};
use crate::helpers::{join_space_delimited, join_spaces};
use crate::query::{
    append_params, extend_query, form_urlencode, form_urlencoded, hit, lemma_values_of_concat,
    lemma_values_of_opt_param, lemma_values_of_param, opt_param, opt_value, param, parse_url,
    push_param, query_fits, str_pairs, url_as_str, url_parse, url_text, url_with_params,
    values_of,
};
use crate::text::{opt_text, pairs, texts};
use crate::token::{Token, TokenType};

verus! {

/// How a client proves to the token endpoint who it is.
#[derive(Clone, Copy, Debug, PartialEq, Eq)]
pub enum AuthType {
    /// The client's id and secret are parameters in the body of the request.
    RequestBody,
    /// The client's id and secret are sent by HTTP Basic authentication.
    BasicAuth,
}

/// The configuration of an OAuth 2.0 client. The type parameters are the
/// vocabulary of token types, the shape of a token and the vocabulary of
/// error codes that the authorization server uses.
#[derive(Debug)]
pub struct Client<TT: TokenType, T: Token<TT>, TE: ErrorResponseType> {
    client_id: String,
    client_secret: Option<String>,
    auth_url: url::Url,
    auth_type: AuthType,
    token_url: url::Url,
    scopes: Vec<String>,
    redirect_url: Option<String>,
    phantom_tt: PhantomData<TT>,
    phantom_t: PhantomData<T>,
    phantom_te: PhantomData<TE>,
}

/// The model of a `Client`.
pub struct ClientView {
    /// The id of the client.
    pub client_id: Seq<char>,
    /// The secret of the client, if it has one.
    pub client_secret: Option<Seq<char>>,
    /// The authorization endpoint.
    pub auth_url: url::Url,
    /// How the client proves to the token endpoint who it is.
    pub auth_type: AuthType,
    /// The token endpoint.
    pub token_url: url::Url,
    /// The scopes that the client asks for, in the order in which they were
    /// added.
    pub scopes: Seq<Seq<char>>,
    /// The address to which the authorization server sends the user back,
    /// if one is set.
    pub redirect_url: Option<Seq<char>>,
}

/// The parameters of the grant by authorization code.
pub open spec fn code_grant(code: Seq<char>) -> Seq<(Seq<char>, Seq<char>)> {
    param("grant_type"@, "authorization_code"@) + param("code"@, code)
}

/// The parameters of the grant by the resource owner's password.
pub open spec fn password_grant(username: Seq<char>, password: Seq<char>) -> Seq<
    (Seq<char>, Seq<char>),
> {
    param("grant_type"@, "password"@) + param("username"@, username) + param(
        "password"@,
        password,
    )
}

/// The parameters of the grant by a refresh token.
pub open spec fn refresh_grant(refresh_token: Seq<char>) -> Seq<(Seq<char>, Seq<char>)> {
    param("grant_type"@, "refresh_token"@) + param("refresh_token"@, refresh_token)
}

impl ClientView {
    /// The scopes as one parameter, where there are any.
    pub open spec fn scope_param(self) -> Seq<(Seq<char>, Seq<char>)> {
        if self.scopes.len() > 0 {
            param("scope"@, join_spaces(self.scopes))
        } else {
            Seq::empty()
        }
    }

    /// The parameters of an authorization URL: the response type and the
    /// client's id; the redirection address, the scopes and the state, each
    /// where there is one; then the caller's own parameters.
    pub open spec fn authorize_params(
        self,
        response_type: Seq<char>,
        state: Option<Seq<char>>,
        extra_params: Seq<(Seq<char>, Seq<char>)>,
    ) -> Seq<(Seq<char>, Seq<char>)> {
        param("response_type"@, response_type) + param("client_id"@, self.client_id) + opt_param(
            "redirect_uri"@,
            self.redirect_url,
        ) + self.scope_param() + opt_param("state"@, state) + extra_params
    }

    /// Whether the authorization URL for these parameters stays within the
    /// limit of a URL's length.
    pub open spec fn can_authorize(
        self,
        response_type: Seq<char>,
        state: Option<Seq<char>>,
        extra_params: Seq<(Seq<char>, Seq<char>)>,
    ) -> bool {
        query_fits(self.auth_url, self.authorize_params(response_type, state, extra_params))
    }

    /// The authorization URL for these parameters.
    pub open spec fn authorize_url(
        self,
        response_type: Seq<char>,
        state: Option<Seq<char>>,
        extra_params: Seq<(Seq<char>, Seq<char>)>,
    ) -> url::Url {
        url_with_params(self.auth_url, self.authorize_params(response_type, state, extra_params))
    }

    /// The parameters of the grant by the client's own credentials.
    pub open spec fn client_credentials_grant(self) -> Seq<(Seq<char>, Seq<char>)> {
        param("grant_type"@, "client_credentials"@) + self.scope_param()
    }

    /// The parameters by which the client names itself in the body of a
    /// request, where that is how it proves who it is.
    pub open spec fn credential_params(self) -> Seq<(Seq<char>, Seq<char>)> {
        match self.auth_type {
            AuthType::RequestBody => param("client_id"@, self.client_id) + opt_param(
                "client_secret"@,
                self.client_secret,
            ),
            AuthType::BasicAuth => Seq::empty(),
        }
    }

    /// The parameters in the body of a request for a token: those of the
    /// grant, then the client's credentials, then the redirection address.
    pub open spec fn token_params(self, grant: Seq<(Seq<char>, Seq<char>)>) -> Seq<
        (Seq<char>, Seq<char>),
    > {
        grant + self.credential_params() + opt_param("redirect_uri"@, self.redirect_url)
    }

    /// The request for a token by `grant`.
    pub open spec fn token_request(self, grant: Seq<(Seq<char>, Seq<char>)>) -> TokenRequestView {
        TokenRequestView {
            url: url_text(self.token_url),
            username: match self.auth_type {
                AuthType::BasicAuth => Some(self.client_id),
                AuthType::RequestBody => None,
            },
            password: match self.auth_type {
                AuthType::BasicAuth => self.client_secret,
                AuthType::RequestBody => None,
            },
            headers: seq![accept_header()],
            body: form_urlencoded(self.token_params(grant)),
        }
    }
}

/// The view of an optional string slice.
pub open spec fn opt_str<'a>(s: Option<&'a str>) -> Option<Seq<char>> {
    match s {
        Some(s) => Some(s@),
        None => None,
    }
}

impl<TT: TokenType, T: Token<TT>, TE: ErrorResponseType> View for Client<TT, T, TE> {
    type V = ClientView;

    closed spec fn view(&self) -> ClientView {
        ClientView {
            client_id: self.client_id@,
            client_secret: opt_text(self.client_secret),
            auth_url: self.auth_url,
            auth_type: self.auth_type,
            token_url: self.token_url,
            scopes: texts(self.scopes@),
            redirect_url: opt_text(self.redirect_url),
        }
    }
}

impl<TT: TokenType, T: Token<TT>, TE: ErrorResponseType> Clone for Client<TT, T, TE> {
    fn clone(&self) -> (copy: Self)
        ensures
            copy@ == self@,
    {
        let mut scopes: Vec<String> = Vec::new();
        let mut i: usize = 0;
        while i < self.scopes.len()
            invariant
                0 <= i <= self.scopes.len(),
                texts(scopes@) == texts(self.scopes@).take(i as int),
            decreases self.scopes.len() - i,
        {
            let scope = self.scopes[i].clone();
            let ghost copied = texts(scopes@);
            scopes.push(scope);
            assert(texts(scopes@) =~= copied.push(scope@));
            assert(texts(self.scopes@).take(i + 1) =~= copied.push(scope@));
            i = i + 1;
        }
        assert(texts(self.scopes@).take(self.scopes.len() as int) =~= texts(self.scopes@));
        Client {
            client_id: self.client_id.clone(),
            client_secret: self.client_secret.clone(),
            auth_url: self.auth_url.clone(),
            auth_type: self.auth_type,
            token_url: self.token_url.clone(),
            scopes,
            redirect_url: self.redirect_url.clone(),
            phantom_tt: PhantomData,
            phantom_t: PhantomData,
            phantom_te: PhantomData,
        }
    }
}

impl<TT: TokenType, T: Token<TT>, TE: ErrorResponseType> Client<TT, T, TE> {
    /// A client with the given id and secret for the given endpoints. It
    /// authenticates by HTTP Basic authentication, asks for no scopes and
    /// has no redirection address.
    ///
    /// Both addresses must be absolute URLs. Where one is not, the reason
    /// is returned: that for `auth_url` if both are at fault.
    pub fn new(
        client_id: &str,
        client_secret: Option<&str>,
        auth_url: &str,
        token_url: &str,
    ) -> (client: Result<Self, url::ParseError>)
        ensures
            match client {
                Ok(c) => url_parse(auth_url@) == Ok::<url::Url, url::ParseError>(c@.auth_url)
                    && url_parse(token_url@) == Ok::<url::Url, url::ParseError>(c@.token_url)
                    && c@.client_id == client_id@ && c@.client_secret == opt_str(client_secret)
                    && c@.auth_type == AuthType::BasicAuth && c@.scopes == Seq::<
                    Seq<char>,
                >::empty() && c@.redirect_url is None,
                Err(e) => url_parse(auth_url@) == Err::<url::Url, url::ParseError>(e) || (
                url_parse(auth_url@) is Ok && url_parse(token_url@) == Err::<
                    url::Url,
                    url::ParseError,
                >(e)),
            },
    {
        let auth = match parse_url(auth_url) {
            Ok(url) => url,
            Err(e) => {
                return Err(e);
            },
        };
        let token = match parse_url(token_url) {
            Ok(url) => url,
            Err(e) => {
                return Err(e);
            },
        };
        let secret = match client_secret {
            Some(s) => Some(s.to_owned()),
            None => None,
        };
        let client = Client {
            client_id: client_id.to_owned(),
            client_secret: secret,
            auth_url: auth,
            auth_type: AuthType::BasicAuth,
            token_url: token,
            scopes: Vec::new(),
            redirect_url: None,
            phantom_tt: PhantomData,
            phantom_t: PhantomData,
            phantom_te: PhantomData,
        };
        assert(client@.scopes =~= Seq::<Seq<char>>::empty());
        Ok(client)
    }

    /// Adds a scope behind those that the client asks for already.
    pub fn add_scope(self, scope: &str) -> (client: Self)
        ensures
            client@ == (ClientView { scopes: self@.scopes.push(scope@), ..self@ }),
    {
        let mut client = self;
        client.scopes.push(scope.to_owned());
        assert(client@.scopes =~= self@.scopes.push(scope@));
        client
    }

    /// Sets how the client proves to the token endpoint who it is.
    pub fn set_auth_type(self, auth_type: AuthType) -> (client: Self)
        ensures
            client@ == (ClientView { auth_type: auth_type, ..self@ }),
    {
        let mut client = self;
        client.auth_type = auth_type;
        client
    }

    /// Sets the address to which the authorization server sends the user
    /// back.
    pub fn set_redirect_url(self, redirect_url: &str) -> (client: Self)
        ensures
            client@ == (ClientView { redirect_url: Some(redirect_url@), ..self@ }),
    {
        let mut client = self;
        client.redirect_url = Some(redirect_url.to_owned());
        client
    }

    /// The parameters of an authorization URL.
    pub fn authorize_params(
        &self,
        response_type: &str,
        state: Option<&str>,
        extra_params: &[(&str, &str)],
    ) -> (params: Vec<(String, String)>)
        ensures
            pairs(params@) == self@.authorize_params(
                response_type@,
                opt_str(state),
                str_pairs(extra_params@),
            ),
    {
        let mut params: Vec<(String, String)> = Vec::new();
        assert(pairs(params@) =~= Seq::empty());
        push_param(&mut params, "response_type", response_type);
        push_param(&mut params, "client_id", self.client_id.as_str());
        if let Some(redirect_url) = &self.redirect_url {
            push_param(&mut params, "redirect_uri", redirect_url.as_str());
        }
        if self.scopes.len() > 0 {
            let scopes = join_space_delimited(&self.scopes);
            push_param(&mut params, "scope", scopes.as_str());
        }
        if let Some(state) = state {
            push_param(&mut params, "state", state);
        }
        let ghost standard = pairs(params@);
        assert(standard =~= self@.authorize_params(response_type@, opt_str(state), Seq::empty()));
        let mut i: usize = 0;
        while i < extra_params.len()
            invariant
                0 <= i <= extra_params.len(),
                pairs(params@) == standard + str_pairs(extra_params@).take(i as int),
            decreases extra_params.len() - i,
        {
            push_param(&mut params, extra_params[i].0, extra_params[i].1);
            assert(str_pairs(extra_params@).take(i + 1) =~= str_pairs(extra_params@).take(
                i as int,
            ).push((extra_params@[i as int].0@, extra_params@[i as int].1@)));
            assert(pairs(params@) =~= standard + str_pairs(extra_params@).take(i + 1));
            i = i + 1;
        }
        assert(str_pairs(extra_params@).take(extra_params.len() as int) =~= str_pairs(
            extra_params@,
        ));
        assert(pairs(params@) =~= self@.authorize_params(
            response_type@,
            opt_str(state),
            str_pairs(extra_params@),
        ));
        params
    }

    /// The authorization URL for these parameters, where it stays within
    /// the limit of a URL's length, and nothing otherwise.
    pub fn try_authorize_url(
        &self,
        response_type: &str,
        state: Option<&str>,
        extra_params: &[(&str, &str)],
    ) -> (url: Option<url::Url>)
        ensures
            url == if self@.can_authorize(
                response_type@,
                opt_str(state),
                str_pairs(extra_params@),
            ) {
                Some(
                    self@.authorize_url(response_type@, opt_str(state), str_pairs(extra_params@)),
                )
            } else {
                None
            },
    {
        let params = self.authorize_params(response_type, state, extra_params);
        extend_query(&self.auth_url, &params)
    }

    /// The authorization URL for these parameters.
    pub(crate) fn authorize_url_impl(
        &self,
        response_type: &str,
        state: Option<&str>,
        extra_params: &[(&str, &str)],
    ) -> (url: url::Url)
        requires
            self@.can_authorize(response_type@, opt_str(state), str_pairs(extra_params@)),
        ensures
            url == self@.authorize_url(response_type@, opt_str(state), str_pairs(extra_params@)),
    {
        let params = self.authorize_params(response_type, state, extra_params);
        append_params(&self.auth_url, &params)
    }

    /// The URL to which the client sends its user for the grant by
    /// authorization code.
    ///
    /// `state` is a value that the authorization server hands back with the
    /// user. It should be new for each request and hard to guess, and the
    /// client should check that the value that comes back is the one it
    /// sent: this guards against forged requests.
    pub fn authorize_url(&self, state: String) -> (url: url::Url)
        requires
            self@.can_authorize("code"@, Some(state@), Seq::empty()),
        ensures
            url == self@.authorize_url("code"@, Some(state@), Seq::empty()),
    {
        let none: [(&str, &str); 0] = [];
        assert(str_pairs(none@) =~= Seq::empty());
        self.authorize_url_impl("code", Some(state.as_str()), none.as_slice())
    }

    /// The URL to which the client sends its user for the implicit grant.
    ///
    /// `state` is a value that the authorization server hands back with the
    /// user. It should be new for each request and hard to guess, and the
    /// client should check that the value that comes back is the one it
    /// sent: this guards against forged requests.
    pub fn authorize_url_implicit(&self, state: String) -> (url: url::Url)
        requires
            self@.can_authorize("token"@, Some(state@), Seq::empty()),
        ensures
            url == self@.authorize_url("token"@, Some(state@), Seq::empty()),
    {
        let none: [(&str, &str); 0] = [];
        assert(str_pairs(none@) =~= Seq::empty());
        self.authorize_url_impl("token", Some(state.as_str()), none.as_slice())
    }

    /// The URL to which the client sends its user for a grant that an
    /// extension of OAuth 2.0 defines.
    ///
    /// `extra_params` are the parameters that the extension asks for. They
    /// should not hold the keys `response_type`, `client_id`, `redirect_uri`
    /// or `scope`: such a key would then stand twice in the URL.
    pub fn authorize_url_extension(&self, response_type: &str, extra_params: &[(&str, &str)]) -> (url:
        url::Url)
        requires
            self@.can_authorize(response_type@, None, str_pairs(extra_params@)),
        ensures
            url == self@.authorize_url(response_type@, None, str_pairs(extra_params@)),
    {
        self.authorize_url_impl(response_type, None, extra_params)
    }

    /// The request that trades an authorization code for a token (RFC 6749,
    /// section 4.1.3).
    pub fn exchange_code(&self, code: String) -> (request: TokenRequest)
        ensures
            request@ == self@.token_request(code_grant(code@)),
    {
        let mut params: Vec<(String, String)> = Vec::new();
        assert(pairs(params@) =~= Seq::empty());
        push_param(&mut params, "grant_type", "authorization_code");
        push_param(&mut params, "code", code.as_str());
        assert(pairs(params@) =~= code_grant(code@));
        self.token_request(params)
    }

    /// The request that trades the resource owner's name and password for
    /// a token (RFC 6749, section 4.3.2).
    pub fn exchange_password(&self, username: &str, password: &str) -> (request: TokenRequest)
        ensures
            request@ == self@.token_request(password_grant(username@, password@)),
    {
        let mut params: Vec<(String, String)> = Vec::new();
        assert(pairs(params@) =~= Seq::empty());
        push_param(&mut params, "grant_type", "password");
        push_param(&mut params, "username", username);
        push_param(&mut params, "password", password);
        assert(pairs(params@) =~= password_grant(username@, password@));
        self.token_request(params)
    }

    /// The request for a token on the client's own credentials (RFC 6749,
    /// section 4.4.2). It names the client's scopes where it has any.
    pub fn exchange_client_credentials(&self) -> (request: TokenRequest)
        ensures
            request@ == self@.token_request(self@.client_credentials_grant()),
    {
        let mut params: Vec<(String, String)> = Vec::new();
        assert(pairs(params@) =~= Seq::empty());
        push_param(&mut params, "grant_type", "client_credentials");
        if self.scopes.len() > 0 {
            let scopes = join_space_delimited(&self.scopes);
            push_param(&mut params, "scope", scopes.as_str());
        }
        assert(pairs(params@) =~= self@.client_credentials_grant());
        self.token_request(params)
    }

    /// The request that trades a refresh token for a token (RFC 6749,
    /// section 6).
    pub fn exchange_refresh_token(&self, refresh_token: &str) -> (request: TokenRequest)
        ensures
            request@ == self@.token_request(refresh_grant(refresh_token@)),
    {
        let mut params: Vec<(String, String)> = Vec::new();
        assert(pairs(params@) =~= Seq::empty());
        push_param(&mut params, "grant_type", "refresh_token");
        push_param(&mut params, "refresh_token", refresh_token);
        assert(pairs(params@) =~= refresh_grant(refresh_token@));
        self.token_request(params)
    }

    /// The request for a token by the grant whose parameters are `params`.
    ///
    /// The client's credentials go into the body or into HTTP Basic
    /// authentication, as the client is set up. The redirection address is
    /// sent with every grant, since some servers check it on each request.
    /// The request asks for a JSON response, which some servers send only
    /// when asked.
    pub fn token_request(&self, params: Vec<(String, String)>) -> (request: TokenRequest)
        ensures
            request@ == self@.token_request(pairs(params@)),
    {
        let mut params = params;
        let ghost grant = pairs(params@);
        let mut username: Option<String> = None;
        let mut password: Option<String> = None;
        match self.auth_type {
            AuthType::RequestBody => {
                push_param(&mut params, "client_id", self.client_id.as_str());
                if let Some(client_secret) = &self.client_secret {
                    push_param(&mut params, "client_secret", client_secret.as_str());
                }
            },
            AuthType::BasicAuth => {
                username = Some(self.client_id.clone());
                password = self.client_secret.clone();
            },
        }
        assert(pairs(params@) =~= grant + self@.credential_params());
        if let Some(redirect_url) = &self.redirect_url {
            push_param(&mut params, "redirect_uri", redirect_url.as_str());
        }
        assert(pairs(params@) =~= self@.token_params(grant));
        let body = form_urlencode(&params);
        let mut accept = "Accept: ".to_owned();
        accept.append(CONTENT_TYPE_JSON);
        let mut headers: Vec<String> = Vec::new();
        headers.push(accept);
        assert(texts(headers@) =~= seq![accept_header()]);
        TokenRequest {
            url: url_as_str(&self.token_url).to_owned(),
            username,
            password,
            headers,
            body,
        }
    }

    /// What comes of a request for a token: the token, or the reason why
    /// there is none.
    ///
    /// `sent` is what the transport reports: the response of the token
    /// endpoint, or the failure to get one. A failure of the transport is
    /// passed on. A response is read as `reading` says, and its body is
    /// decoded as an error response where the server refused and as a token
    /// where it granted.
    pub fn request_token(&self, sent: Result<RequestTokenResponse, TransportError>) -> (token:
        Result<T, RequestTokenError<TE>>)
        ensures
            match sent {
                Err(failure) => token matches Err(RequestTokenError::Request(f)) && f == failure,
                Ok(response) => match reading(
                    response.http_status,
                    opt_text(response.content_type),
                    response.response_body@,
                ) {
                    Reading::Broken(how) => token matches Err(RequestTokenError::Other(text))
                        && text@ == how,
                    Reading::Refusal(body) => match ErrorResponse::<TE>::decoded(body) {
                        Ok(refusal) => token matches Err(RequestTokenError::ServerResponse(r))
                            && r@ == refusal,
                        Err(failure) => token matches Err(RequestTokenError::Parse(e)) && e@
                            == failure,
                    },
                    Reading::Grant(body) => match T::decoded(body) {
                        Ok(granted) => token matches Ok(t) && t@ == granted,
                        Err(failure) => token matches Err(RequestTokenError::Parse(e)) && e@
                            == failure,
                    },
                },
            },
    {
        let response = match sent {
            Ok(response) => response,
            Err(failure) => {
                return Err(RequestTokenError::Request(failure));
            },
        };
        match read_response(response) {
            ResponseKind::Broken(how) => Err(RequestTokenError::Other(how)),
            ResponseKind::Refusal(body) => match ErrorResponse::<TE>::from_json(body.as_str()) {
                Ok(refusal) => Err(RequestTokenError::ServerResponse(refusal)),
                Err(failure) => Err(RequestTokenError::Parse(failure)),
            },
            ResponseKind::Grant(body) => match T::from_json(body.as_str()) {
                Ok(granted) => Ok(granted),
                Err(failure) => Err(RequestTokenError::Parse(failure)),
            },
        }
    }
}

/// The values that the scopes of a client give the parameter `scope`: the
/// scopes joined by single spaces, in their order, where there are any.
pub open spec fn scope_values(scopes: Seq<Seq<char>>) -> Seq<Seq<char>> {
    if scopes.len() > 0 {
        seq![join_spaces(scopes)]
    } else {
        Seq::empty()
    }
}

/// The keys of the standard parameters differ from each other.
proof fn lemma_keys_differ()
    ensures
        "response_type"@.len() == 13,
        "client_id"@.len() == 9,
        "redirect_uri"@.len() == 12,
        "scope"@.len() == 5,
        "state"@.len() == 5,
        "auth_type"@.len() == 9,
        "grant_type"@.len() == 10,
        "code"@.len() == 4,
        "username"@.len() == 8,
        "password"@.len() == 8,
        "refresh_token"@.len() == 13,
        "client_secret"@.len() == 13,
        "scope"@ != "state"@,
        "client_id"@ != "auth_type"@,
{
    reveal_strlit("response_type");
    reveal_strlit("client_id");
    reveal_strlit("redirect_uri");
    reveal_strlit("scope");
    reveal_strlit("state");
    reveal_strlit("auth_type");
    reveal_strlit("grant_type");
    reveal_strlit("code");
    reveal_strlit("username");
    reveal_strlit("password");
    reveal_strlit("refresh_token");
    reveal_strlit("client_secret");
    assert("scope"@[1] == 'c');
    assert("state"@[1] == 't');
    assert("client_id"@[0] == 'c');
    assert("auth_type"@[0] == 'a');
}

/// The values that a client's scopes give `key`.
proof fn lemma_scope_values(client: ClientView, key: Seq<char>)
    ensures
        values_of(client.scope_param(), key) == hit("scope"@, key, scope_values(client.scopes)),
{
    if client.scopes.len() > 0 {
        lemma_values_of_param("scope"@, join_spaces(client.scopes), key);
    }
}

/// The values that an authorization URL has for `key`, part by part.
proof fn lemma_authorize_values(
    client: ClientView,
    response_type: Seq<char>,
    state: Option<Seq<char>>,
    extra_params: Seq<(Seq<char>, Seq<char>)>,
    key: Seq<char>,
)
    ensures
        values_of(client.authorize_params(response_type, state, extra_params), key) == hit(
            "response_type"@,
            key,
            seq![response_type],
        ) + hit("client_id"@, key, seq![client.client_id]) + hit(
            "redirect_uri"@,
            key,
            opt_value(client.redirect_url),
        ) + hit("scope"@, key, scope_values(client.scopes)) + hit("state"@, key, opt_value(state))
            + values_of(extra_params, key),
{
    let a = param("response_type"@, response_type);
    let b = param("client_id"@, client.client_id);
    let c = opt_param("redirect_uri"@, client.redirect_url);
    let d = client.scope_param();
    let e = opt_param("state"@, state);
    lemma_values_of_concat(a, b, key);
    lemma_values_of_concat(a + b, c, key);
    lemma_values_of_concat(a + b + c, d, key);
    lemma_values_of_concat(a + b + c + d, e, key);
    lemma_values_of_concat(a + b + c + d + e, extra_params, key);
    lemma_values_of_param("response_type"@, response_type, key);
    lemma_values_of_param("client_id"@, client.client_id, key);
    lemma_values_of_opt_param("redirect_uri"@, client.redirect_url, key);
    lemma_scope_values(client, key);
    lemma_values_of_opt_param("state"@, state, key);
}

/// The values that the body of a token request has for `key`, part by
/// part.
proof fn lemma_token_values(client: ClientView, grant: Seq<(Seq<char>, Seq<char>)>, key: Seq<char>)
    ensures
        values_of(client.token_params(grant), key) == values_of(grant, key) + match client.auth_type {
            AuthType::RequestBody => hit("client_id"@, key, seq![client.client_id]) + hit(
                "client_secret"@,
                key,
                opt_value(client.client_secret),
            ),
            AuthType::BasicAuth => Seq::empty(),
        } + hit("redirect_uri"@, key, opt_value(client.redirect_url)),
{
    lemma_values_of_concat(grant, client.credential_params(), key);
    lemma_values_of_concat(
        grant + client.credential_params(),
        opt_param("redirect_uri"@, client.redirect_url),
        key,
    );
    lemma_values_of_concat(
        param("client_id"@, client.client_id),
        opt_param("client_secret"@, client.client_secret),
        key,
    );
    lemma_values_of_param("client_id"@, client.client_id, key);
    lemma_values_of_opt_param("client_secret"@, client.client_secret, key);
    lemma_values_of_opt_param("redirect_uri"@, client.redirect_url, key);
}

/// The values that the grants of the library have for `key`.
proof fn lemma_grant_values(
    client: ClientView,
    code: Seq<char>,
    username: Seq<char>,
    password: Seq<char>,
    refresh_token: Seq<char>,
    key: Seq<char>,
)
    ensures
        values_of(code_grant(code), key) == hit("grant_type"@, key, seq!["authorization_code"@])
            + hit("code"@, key, seq![code]),
        values_of(password_grant(username, password), key) == hit(
            "grant_type"@,
            key,
            seq!["password"@],
        ) + hit("username"@, key, seq![username]) + hit("password"@, key, seq![password]),
        values_of(client.client_credentials_grant(), key) == hit(
            "grant_type"@,
            key,
            seq!["client_credentials"@],
        ) + hit("scope"@, key, scope_values(client.scopes)),
        values_of(refresh_grant(refresh_token), key) == hit(
            "grant_type"@,
            key,
            seq!["refresh_token"@],
        ) + hit("refresh_token"@, key, seq![refresh_token]),
{
    lemma_values_of_concat(param("grant_type"@, "authorization_code"@), param("code"@, code), key);
    lemma_values_of_concat(
        param("grant_type"@, "password"@),
        param("username"@, username),
        key,
    );
    lemma_values_of_concat(
        param("grant_type"@, "password"@) + param("username"@, username),
        param("password"@, password),
        key,
    );
    lemma_values_of_concat(
        param("grant_type"@, "client_credentials"@),
        client.scope_param(),
        key,
    );
    lemma_values_of_concat(
        param("grant_type"@, "refresh_token"@),
        param("refresh_token"@, refresh_token),
        key,
    );
    lemma_values_of_param("grant_type"@, "authorization_code"@, key);
    lemma_values_of_param("grant_type"@, "password"@, key);
    lemma_values_of_param("grant_type"@, "client_credentials"@, key);
    lemma_values_of_param("grant_type"@, "refresh_token"@, key);
    lemma_values_of_param("code"@, code, key);
    lemma_values_of_param("username"@, username, key);
    lemma_values_of_param("password"@, password, key);
    lemma_values_of_param("refresh_token"@, refresh_token, key);
    lemma_scope_values(client, key);
}

/// An authorization URL names the scopes of the client exactly where it
/// has any: then once, joined by single spaces in the order in which they
/// were added. This holds where the caller's own parameters hold no
/// `scope`.
pub proof fn lemma_authorize_scope(
    client: ClientView,
    response_type: Seq<char>,
    state: Option<Seq<char>>,
    extra_params: Seq<(Seq<char>, Seq<char>)>,
)
    requires
        values_of(extra_params, "scope"@).len() == 0,
    ensures
        values_of(client.authorize_params(response_type, state, extra_params), "scope"@)
            == scope_values(client.scopes),
{
    lemma_keys_differ();
    lemma_authorize_values(client, response_type, state, extra_params, "scope"@);
    assert(values_of(extra_params, "scope"@) =~= Seq::empty());
    assert(values_of(client.authorize_params(response_type, state, extra_params), "scope"@)
        =~= scope_values(client.scopes));
}

/// The request for a token on the client's own credentials names the
/// scopes of the client exactly where it has any: then once, joined by
/// single spaces in the order in which they were added.
pub proof fn lemma_client_credentials_scope(client: ClientView)
    ensures
        values_of(client.token_params(client.client_credentials_grant()), "scope"@)
            == scope_values(client.scopes),
{
    lemma_keys_differ();
    let grant = client.client_credentials_grant();
    lemma_token_values(client, grant, "scope"@);
    lemma_grant_values(client, Seq::empty(), Seq::empty(), Seq::empty(), Seq::empty(), "scope"@);
    assert(values_of(client.token_params(grant), "scope"@) =~= scope_values(client.scopes));
}

/// An authorization URL names the redirection address exactly where the
/// client has one, and then once. This holds where the caller's own
/// parameters hold no `redirect_uri`.
pub proof fn lemma_authorize_redirect(
    client: ClientView,
    response_type: Seq<char>,
    state: Option<Seq<char>>,
    extra_params: Seq<(Seq<char>, Seq<char>)>,
)
    requires
        values_of(extra_params, "redirect_uri"@).len() == 0,
    ensures
        values_of(client.authorize_params(response_type, state, extra_params), "redirect_uri"@)
            == opt_value(client.redirect_url),
{
    lemma_keys_differ();
    lemma_authorize_values(client, response_type, state, extra_params, "redirect_uri"@);
    assert(values_of(extra_params, "redirect_uri"@) =~= Seq::empty());
    assert(values_of(
        client.authorize_params(response_type, state, extra_params),
        "redirect_uri"@,
    ) =~= opt_value(client.redirect_url));
}

/// The body of a token request names the redirection address exactly
/// where the client has one, and then once, whatever the grant that the
/// library offers.
pub proof fn lemma_token_redirect(
    client: ClientView,
    code: Seq<char>,
    username: Seq<char>,
    password: Seq<char>,
    refresh_token: Seq<char>,
)
    ensures
        values_of(client.token_params(code_grant(code)), "redirect_uri"@) == opt_value(
            client.redirect_url,
        ),
        values_of(client.token_params(password_grant(username, password)), "redirect_uri"@)
            == opt_value(client.redirect_url),
        values_of(client.token_params(client.client_credentials_grant()), "redirect_uri"@)
            == opt_value(client.redirect_url),
        values_of(client.token_params(refresh_grant(refresh_token)), "redirect_uri"@)
            == opt_value(client.redirect_url),
{
    lemma_keys_differ();
    let key = "redirect_uri"@;
    lemma_token_values(client, code_grant(code), key);
    lemma_token_values(client, password_grant(username, password), key);
    lemma_token_values(client, client.client_credentials_grant(), key);
    lemma_token_values(client, refresh_grant(refresh_token), key);
    lemma_grant_values(client, code, username, password, refresh_token, key);
    assert(values_of(client.token_params(code_grant(code)), key) =~= opt_value(
        client.redirect_url,
    ));
    assert(values_of(client.token_params(password_grant(username, password)), key) =~= opt_value(
        client.redirect_url,
    ));
    assert(values_of(client.token_params(client.client_credentials_grant()), key) =~= opt_value(
        client.redirect_url,
    ));
    assert(values_of(client.token_params(refresh_grant(refresh_token)), key) =~= opt_value(
        client.redirect_url,
    ));
}

/// How the client proves who it is has no part in its authorization URLs:
/// a change of it changes none of them, and none holds a parameter
/// `auth_type` but by the caller's own parameters.
pub proof fn lemma_authorize_ignores_auth_type(
    client: ClientView,
    auth_type: AuthType,
    response_type: Seq<char>,
    state: Option<Seq<char>>,
    extra_params: Seq<(Seq<char>, Seq<char>)>,
)
    ensures
        (ClientView { auth_type: auth_type, ..client }).authorize_params(
            response_type,
            state,
            extra_params,
        ) == client.authorize_params(response_type, state, extra_params),
        (ClientView { auth_type: auth_type, ..client }).authorize_url(
            response_type,
            state,
            extra_params,
        ) == client.authorize_url(response_type, state, extra_params),
        values_of(client.authorize_params(response_type, state, extra_params), "auth_type"@)
            == values_of(extra_params, "auth_type"@),
{
    lemma_keys_differ();
    lemma_authorize_values(client, response_type, state, extra_params, "auth_type"@);
    assert(values_of(client.authorize_params(response_type, state, extra_params), "auth_type"@)
        =~= values_of(extra_params, "auth_type"@));
}

} // verus!
