//! Credentials, tokens, and the decisions of the token exchange.
//!
//! The exchange itself is a network round trip made by the caller: it sends
//! the [`TokenRequest`] an authenticator describes, decodes the answer into an
//! [`ExchangeResponse`] and hands it back through [`Authenticator::accept_login`].
use vstd::prelude::*;

use crate::error::{decimal, decimal_string, Error, ErrorView};

verus! {

/// An access token.
#[derive(Debug)]
pub struct Token {
    pub access_token: String,
    pub expires_in: i32,
    pub scope: String,
    pub token_type: String,
}

/// The mathematical view of a [`Token`].
pub struct TokenView {
    pub access_token: Seq<char>,
    pub expires_in: i32,
    pub scope: Seq<char>,
    pub token_type: Seq<char>,
}

impl View for Token {
    type V = TokenView;

    open spec fn view(&self) -> TokenView {
        TokenView {
            access_token: self.access_token@,
            expires_in: self.expires_in,
            scope: self.scope@,
            token_type: self.token_type@,
        }
    }
}

impl Clone for Token {
    fn clone(&self) -> (r: Token)
        ensures
            r@ == self@,
    {
        Token {
            access_token: self.access_token.clone(),
            expires_in: self.expires_in,
            scope: self.scope.clone(),
            token_type: self.token_type.clone(),
        }
    }
}

impl Token {
    /// A token as the token endpoint returned it.
    pub fn new(access_token: String, expires_in: i32, scope: String, token_type: String) -> (r:
        Token)
        ensures
            r@ == (TokenView {
                access_token: access_token@,
                expires_in,
                scope: scope@,
                token_type: token_type@,
            }),
    {
        Token { access_token, expires_in, scope, token_type }
    }

    /// The scope the token grants.
    pub fn scope(&self) -> (r: &str)
        ensures
            r@ == self@.scope,
    {
        self.scope.as_str()
    }

    /// The kind of the token, such as `bearer`.
    pub fn token_type(&self) -> (r: &str)
        ensures
            r@ == self@.token_type,
    {
        self.token_type.as_str()
    }
}

/// The view of an optional token.
pub open spec fn opt_token_view(t: Option<Token>) -> Option<TokenView> {
    match t {
        Some(t) => Some(t@),
        None => None,
    }
}

fn clone_opt_token(t: &Option<Token>) -> (r: Option<Token>)
    ensures
        opt_token_view(r) == opt_token_view(*t),
{
    match t {
        Some(t) => Some(t.clone()),
        None => None,
    }
}

/// Client ID and secret of the application.
#[derive(Debug, Clone)]
pub struct ClientInfo {
    pub client_id: String,
    pub client_secret: String,
}

/// Login credentials of an end user, with the application's.
#[derive(Debug, Clone)]
pub struct Credentials {
    client_info: ClientInfo,
    pub username: String,
    pub password: String,
}

impl Credentials {
    pub fn new(client_id: &str, client_secret: &str, username: &str, password: &str) -> (r:
        Self)
        ensures
            r.client_id() == client_id@,
            r.client_secret() == client_secret@,
            r.user() == username@,
            r.pass() == password@,
    {
        Credentials {
            client_info: ClientInfo {
                client_id: String::from_str(client_id),
                client_secret: String::from_str(client_secret),
            },
            username: String::from_str(username),
            password: String::from_str(password),
        }
    }

    /// The application's ID.
    pub closed spec fn client_id(&self) -> Seq<char> {
        self.client_info.client_id@
    }

    /// The application's secret.
    pub closed spec fn client_secret(&self) -> Seq<char> {
        self.client_info.client_secret@
    }

    /// The user's name.
    pub closed spec fn user(&self) -> Seq<char> {
        self.username@
    }

    /// The user's password.
    pub closed spec fn pass(&self) -> Seq<char> {
        self.password@
    }
}

/// What the token endpoint answered, decoded by the caller.
///
/// `token` is the body read as a token, `error` the body read as an object
/// with one `error` string; each is `None` where the body has no such shape.
pub struct ExchangeResponse {
    pub status: u16,
    pub token: Option<Token>,
    pub error: Option<String>,
    pub text: String,
}

/// Message when the endpoint answered with an embedded error.
pub open spec fn wrong_user_message(reported: Seq<char>) -> Seq<char> {
    "Username or password are most likely wrong, Reddit returned: "@ + reported
}

/// Message when the endpoint rejected the application's ID or secret.
pub open spec fn wrong_client_message() -> Seq<char> {
    "Client ID or Secret are wrong. Reddit returned 401 Unauthorized"@
}

/// Message for any other answer of the endpoint.
pub open spec fn unexpected_exchange_message(text: Seq<char>, status: u16) -> Seq<char> {
    "Unexpected error occured, text: "@ + text + ", code: "@ + decimal(status as nat)
}

/// The meaning of a token exchange answer: a token, else the embedded error,
/// else a rejection of the application (401), else an unexpected answer.
pub open spec fn exchange_outcome(r: ExchangeResponse) -> Result<TokenView, ErrorView> {
    match r.token {
        Some(t) => Ok(t@),
        None => match r.error {
            Some(e) => Err(ErrorView::Authentication(wrong_user_message(e@))),
            None => if r.status == 401 {
                Err(ErrorView::Authentication(wrong_client_message()))
            } else {
                Err(ErrorView::Authentication(unexpected_exchange_message(r.text@, r.status)))
            },
        },
    }
}

/// The view of a result that carries a token.
pub open spec fn token_result_view(r: Result<Token, Error>) -> Result<TokenView, ErrorView> {
    match r {
        Ok(t) => Ok(t@),
        Err(e) => Err(e@),
    }
}

/// Decides what a token exchange answer means. The status code alone is not
/// trusted: a body with an embedded error fails even with status 200.
pub fn exchange_result(response: ExchangeResponse) -> (r: Result<Token, Error>)
    ensures
        token_result_view(r) == exchange_outcome(response),
{
    let ExchangeResponse { status, token, error, text } = response;
    match token {
        Some(t) => Ok(t),
        None => match error {
            Some(e) => {
                let m = String::from_str(
                    "Username or password are most likely wrong, Reddit returned: ",
                );
                Err(Error::AuthenticationError(m.concat(e.as_str())))
            },
            None => if status == 401 {
                Err(
                    Error::AuthenticationError(
                        String::from_str(
                            "Client ID or Secret are wrong. Reddit returned 401 Unauthorized",
                        ),
                    ),
                )
            } else {
                let m = String::from_str("Unexpected error occured, text: ");
                let m = m.concat(text.as_str());
                let m = m.concat(", code: ");
                let code = decimal_string(status);
                Err(Error::AuthenticationError(m.concat(code.as_str())))
            },
        },
    }
}

/// The form of a token exchange request: the query pairs to send, and the
/// application ID and secret for basic authentication.
pub struct TokenRequest {
    pub query: Vec<(String, String)>,
    pub client_id: String,
    pub client_secret: String,
}

/// The user agent the token exchange is made with.
pub fn default_agent() -> (r: String)
    ensures
        r@ == "desktop:snew:0.1.0:(by snewAuthenticator)"@,
{
    String::from_str("desktop:snew:0.1.0:(by snewAuthenticator)")
}

/// Something that can obtain access to the API.
pub trait Authenticator {
    /// The token currently held.
    spec fn current(&self) -> Option<TokenView>;

    /// Whether requests made through it act as an end user (vote, comment).
    spec fn acts_as_user(&self) -> bool;

    /// The token exchange request to send.
    fn token_request(&self) -> TokenRequest;

    /// Takes in the answer of the token exchange: stores the token it
    /// carries, or fails with the reason, keeping the token held before.
    fn accept_login(&mut self, response: ExchangeResponse) -> (r: Result<(), Error>)
        ensures
            match exchange_outcome(response) {
                Ok(t) => r is Ok && final(self).current() == Some(t),
                Err(e) => r matches Err(x) && x@ == e && final(self).current() == old(
                    self,
                ).current(),
            },
            final(self).acts_as_user() == old(self).acts_as_user(),
    ;

    /// The token to authenticate with, if a login succeeded.
    fn token(&self) -> (r: Option<Token>)
        ensures
            opt_token_view(r) == self.current(),
    ;

    /// Whether this authenticator can make requests that pertain to a user.
    fn is_user(&self) -> (r: bool)
        ensures
            r == self.acts_as_user(),
    ;
}

/// Authenticator for script applications: logged in as a user, who can
/// perform actions such as voting.
#[derive(Debug, Clone)]
pub struct ScriptAuthenticator {
    creds: Credentials,
    token: Option<Token>,
}

impl ScriptAuthenticator {
    /// The credentials it logs in with.
    pub closed spec fn credentials(&self) -> Credentials {
        self.creds
    }

    pub fn new(creds: Credentials) -> (r: Self)
        ensures
            r.current() == None::<TokenView>,
            r.credentials() == creds,
    {
        ScriptAuthenticator { creds, token: None }
    }
}

impl Authenticator for ScriptAuthenticator {
    closed spec fn current(&self) -> Option<TokenView> {
        opt_token_view(self.token)
    }

    open spec fn acts_as_user(&self) -> bool {
        true
    }

    /// Password grant with the user's name and password.
    fn token_request(&self) -> (r: TokenRequest)
        ensures
            r.query@.len() == 3,
            r.query@[0].0@ == "grant_type"@ && r.query@[0].1@ == "password"@,
            r.query@[1].0@ == "username"@ && r.query@[1].1@ == self.credentials().user(),
            r.query@[2].0@ == "password"@ && r.query@[2].1@ == self.credentials().pass(),
            r.client_id@ == self.credentials().client_id(),
            r.client_secret@ == self.credentials().client_secret(),
    {
        let mut query: Vec<(String, String)> = Vec::new();
        query.push((String::from_str("grant_type"), String::from_str("password")));
        query.push((String::from_str("username"), self.creds.username.clone()));
        query.push((String::from_str("password"), self.creds.password.clone()));
        TokenRequest {
            query,
            client_id: self.creds.client_info.client_id.clone(),
            client_secret: self.creds.client_info.client_secret.clone(),
        }
    }

    fn accept_login(&mut self, response: ExchangeResponse) -> (r: Result<(), Error>) {
        match exchange_result(response) {
            Ok(t) => {
                self.token = Some(t);
                Ok(())
            },
            Err(e) => Err(e),
        }
    }

    fn token(&self) -> (r: Option<Token>) {
        clone_opt_token(&self.token)
    }

    fn is_user(&self) -> (r: bool) {
        true
    }
}

/// Anonymous authentication: the application browses without a user and
/// cannot, for example, vote.
#[derive(Debug, Clone)]
pub struct ApplicationAuthenticator {
    client_info: ClientInfo,
    token: Option<Token>,
}

impl ApplicationAuthenticator {
    /// The application's ID.
    pub closed spec fn client_id(&self) -> Seq<char> {
        self.client_info.client_id@
    }

    /// The application's secret.
    pub closed spec fn client_secret(&self) -> Seq<char> {
        self.client_info.client_secret@
    }

    pub fn new(client_id: &str, client_secret: &str) -> (r: Self)
        ensures
            r.current() == None::<TokenView>,
            r.client_id() == client_id@,
            r.client_secret() == client_secret@,
    {
        ApplicationAuthenticator {
            client_info: ClientInfo {
                client_id: String::from_str(client_id),
                client_secret: String::from_str(client_secret),
            },
            token: None,
        }
    }
}

impl Authenticator for ApplicationAuthenticator {
    closed spec fn current(&self) -> Option<TokenView> {
        opt_token_view(self.token)
    }

    open spec fn acts_as_user(&self) -> bool {
        false
    }

    /// Client credentials grant.
    fn token_request(&self) -> (r: TokenRequest)
        ensures
            r.query@.len() == 1,
            r.query@[0].0@ == "grant_type"@ && r.query@[0].1@ == "client_credentials"@,
            r.client_id@ == self.client_id(),
            r.client_secret@ == self.client_secret(),
    {
        let mut query: Vec<(String, String)> = Vec::new();
        query.push((String::from_str("grant_type"), String::from_str("client_credentials")));
        TokenRequest {
            query,
            client_id: self.client_info.client_id.clone(),
            client_secret: self.client_info.client_secret.clone(),
        }
    }

    fn accept_login(&mut self, response: ExchangeResponse) -> (r: Result<(), Error>) {
        match exchange_result(response) {
            Ok(t) => {
                self.token = Some(t);
                Ok(())
            },
            Err(e) => Err(e),
        }
    }

    fn token(&self) -> (r: Option<Token>) {
        clone_opt_token(&self.token)
    }

    fn is_user(&self) -> (r: bool) {
        false
    }
}

} // verus!
