//! The decisions of an authenticated GET request.
//!
//! A request is sent with the shared transport; on an authentication
//! challenge the authenticator logs in again, the transport is rebuilt from
//! the fresh token and the request is sent once more. [`GetCall`] is that
//! protocol as a state machine: the caller performs each [`GetAction`] and
//! reports its outcome as a [`GetEvent`].
use vstd::prelude::*;

use crate::auth::{opt_token_view, Token, TokenView};
use crate::error::{decimal, decimal_string, Error, ErrorView};

verus! {

/// What a transport is built with: the user agent and the value of its
/// (sensitive) authorization header.
#[derive(Debug, Clone)]
pub struct Session {
    pub user_agent: String,
    pub authorization: String,
}

/// The mathematical view of a [`Session`].
pub struct SessionView {
    pub user_agent: Seq<char>,
    pub authorization: Seq<char>,
}

impl View for Session {
    type V = SessionView;

    open spec fn view(&self) -> SessionView {
        SessionView { user_agent: self.user_agent@, authorization: self.authorization@ }
    }
}

/// The authorization header value derived from an access token.
pub open spec fn bearer(access_token: Seq<char>) -> Seq<char> {
    "bearer "@ + access_token
}

/// Whether a character may stand in a header value: a tab, or any character
/// from the space on but DEL. (A character outside ASCII is encoded in bytes
/// of 128 and above, which are all allowed.)
pub open spec fn header_char_ok(c: char) -> bool {
    c == '\t' || (c as u32 >= 32 && c as u32 != 127)
}

/// Whether a string is a well-formed header value.
pub open spec fn header_value_ok(s: Seq<char>) -> bool {
    forall|i: int| 0 <= i < s.len() ==> header_char_ok(#[trigger] s[i])
}

/// Relies on `reqwest::header::HeaderValue::from_str` (from the `http`
/// crate): it accepts a string exactly when each of its UTF-8 bytes is a tab,
/// or at least 32 and not 127.
#[verifier::external_body]
fn header_value_accepted(s: &str) -> (r: bool)
    ensures
        r == header_value_ok(s@),
{
    reqwest::header::HeaderValue::from_str(s).is_ok()
}

/// Message when a token cannot stand in the authorization header.
pub open spec fn invalid_header_message() -> Seq<char> {
    "failed to parse header value"@
}

/// The session a transport authenticating with `token` is built from, or a
/// transport error when the token cannot stand in a header.
pub open spec fn session_for(user_agent: Seq<char>, token: TokenView) -> Result<
    SessionView,
    ErrorView,
> {
    if header_value_ok(bearer(token.access_token)) {
        Ok(SessionView { user_agent, authorization: bearer(token.access_token) })
    } else {
        Err(ErrorView::Request(invalid_header_message()))
    }
}

impl Session {
    /// The session for a transport that authenticates with `token`.
    pub fn new(user_agent: &str, token: &Token) -> (r: Result<Session, Error>)
        ensures
            match r {
                Ok(s) => session_for(user_agent@, token@) == Ok::<SessionView, ErrorView>(s@),
                Err(e) => session_for(user_agent@, token@) == Err::<SessionView, ErrorView>(e@),
            },
    {
        let auth = String::from_str("bearer ");
        let auth = auth.concat(token.access_token.as_str());
        if header_value_accepted(auth.as_str()) {
            Ok(Session { user_agent: String::from_str(user_agent), authorization: auth })
        } else {
            Err(Error::RequestError(String::from_str("failed to parse header value")))
        }
    }
}

/// Message when a login reported success but left no token.
pub open spec fn missing_token_message() -> Seq<char> {
    "Token was not set after logging in, but no error was returned."@
}

/// Message when the request still failed after logging in again.
pub open spec fn still_rejected_message() -> Seq<char> {
    "Failed to authenticate, even after requesting new token. Check credentials."@
}

/// Message for a status that is neither success nor an authentication challenge.
pub open spec fn unexpected_status_message(status: u16) -> Seq<char> {
    "Reddit returned an unexpected code: "@ + decimal(status as nat)
}

/// Whether a status is an authentication challenge (401 or 403).
pub open spec fn is_challenge(status: u16) -> bool {
    status == 401 || status == 403
}

/// Classifies the status of a first attempt: `Ok(true)` on success,
/// `Ok(false)` on an authentication challenge, an error otherwise.
pub fn check_auth(status: u16) -> (r: Result<bool, Error>)
    ensures
        status == 200 ==> r == Ok::<bool, Error>(true),
        is_challenge(status) ==> r == Ok::<bool, Error>(false),
        status != 200 && !is_challenge(status) ==> (r matches Err(e) && e@
            == ErrorView::Authentication(unexpected_status_message(status))),
{
    if status == 200 {
        Ok(true)
    } else if status == 403 || status == 401 {
        Ok(false)
    } else {
        let m = String::from_str("Reddit returned an unexpected code: ");
        let code = decimal_string(status);
        Err(Error::AuthenticationError(m.concat(code.as_str())))
    }
}

/// Where a GET request stands.
#[derive(Debug, Clone, Copy, PartialEq, Eq, Structural)]
pub enum GetPhase {
    /// The first attempt is in flight.
    Sent,
    /// The first attempt was challenged; a login is in progress.
    LoggingIn,
    /// The request was sent again with a fresh token.
    Resent,
    /// The call has its outcome.
    Finished,
}

/// The outcome of the last action.
pub enum GetEvent {
    /// A response arrived with this status.
    Status(u16),
    /// The login finished: the token it left, or its error.
    Login(Result<Option<Token>, Error>),
}

/// What the caller does next.
#[derive(Debug)]
pub enum GetAction {
    /// Hand the response to the caller: the call succeeded.
    Deliver,
    /// Log in again with the shared authenticator.
    Login,
    /// Rebuild the shared transport from the session, then send the request again.
    Rebuild,
    /// The call fails with this error.
    Fail(Error),
}

/// The view of a [`GetEvent`].
pub enum GetEventView {
    Status(u16),
    Login(Result<Option<TokenView>, ErrorView>),
}

/// The view of a [`GetAction`].
pub enum GetActionView {
    Deliver,
    Login,
    Rebuild,
    Fail(ErrorView),
}

impl View for GetEvent {
    type V = GetEventView;

    open spec fn view(&self) -> GetEventView {
        match self {
            GetEvent::Status(s) => GetEventView::Status(*s),
            GetEvent::Login(Ok(t)) => GetEventView::Login(Ok(opt_token_view(*t))),
            GetEvent::Login(Err(e)) => GetEventView::Login(Err(e@)),
        }
    }
}

impl View for GetAction {
    type V = GetActionView;

    open spec fn view(&self) -> GetActionView {
        match self {
            GetAction::Deliver => GetActionView::Deliver,
            GetAction::Login => GetActionView::Login,
            GetAction::Rebuild => GetActionView::Rebuild,
            GetAction::Fail(e) => GetActionView::Fail(e@),
        }
    }
}

/// A GET request in progress, with the session the shared transport holds.
#[derive(Debug)]
pub struct GetCall {
    pub phase: GetPhase,
    pub session: Session,
}

/// The view of a [`GetCall`].
pub struct GetCallView {
    pub phase: GetPhase,
    pub session: SessionView,
}

impl View for GetCall {
    type V = GetCallView;

    open spec fn view(&self) -> GetCallView {
        GetCallView { phase: self.phase, session: self.session@ }
    }
}

/// Whether an event is one the phase waits for.
pub open spec fn expects(phase: GetPhase, event: GetEventView) -> bool {
    match phase {
        GetPhase::Sent | GetPhase::Resent => event is Status,
        GetPhase::LoggingIn => event is Login,
        GetPhase::Finished => false,
    }
}

/// The protocol: the next state and action after an event.
pub open spec fn get_step(s: GetCallView, event: GetEventView) -> (GetCallView, GetActionView) {
    let done = GetCallView { phase: GetPhase::Finished, session: s.session };
    match event {
        GetEventView::Status(status) => if s.phase == GetPhase::Sent {
            if status == 200 {
                (done, GetActionView::Deliver)
            } else if is_challenge(status) {
                (GetCallView { phase: GetPhase::LoggingIn, session: s.session }, GetActionView::Login)
            } else {
                (
                    done,
                    GetActionView::Fail(
                        ErrorView::Authentication(unexpected_status_message(status)),
                    ),
                )
            }
        } else {
            if status == 200 {
                (done, GetActionView::Deliver)
            } else {
                (done, GetActionView::Fail(ErrorView::Authentication(still_rejected_message())))
            }
        },
        GetEventView::Login(Ok(Some(t))) => match session_for(s.session.user_agent, t) {
            Ok(session) => (GetCallView { phase: GetPhase::Resent, session }, GetActionView::Rebuild),
            Err(e) => (done, GetActionView::Fail(e)),
        },
        GetEventView::Login(Ok(None)) => (
            done,
            GetActionView::Fail(ErrorView::Authentication(missing_token_message())),
        ),
        GetEventView::Login(Err(e)) => (done, GetActionView::Fail(e)),
    }
}

/// Re-authentication: after a challenge on the first attempt and a login
/// that brings a token that can stand in a header, the transport is rebuilt
/// with that token and the request is sent once more. Whatever the second
/// answer is, the session then holds the fresh token; a success is
/// delivered, anything else fails with an authentication error, and there
/// is no third attempt.
pub proof fn lemma_reauthentication(session: SessionView, first: u16, token: TokenView, second: u16)
    requires
        is_challenge(first),
        header_value_ok(bearer(token.access_token)),
    ensures
        ({
            let s0 = GetCallView { phase: GetPhase::Sent, session };
            let (s1, a1) = get_step(s0, GetEventView::Status(first));
            let (s2, a2) = get_step(s1, GetEventView::Login(Ok(Some(token))));
            let (s3, a3) = get_step(s2, GetEventView::Status(second));
            &&& a1 == GetActionView::Login
            &&& expects(s1.phase, GetEventView::Login(Ok(Some(token))))
            &&& a2 == GetActionView::Rebuild
            &&& s2.session.authorization == bearer(token.access_token)
            &&& expects(s2.phase, GetEventView::Status(second))
            &&& s3.phase == GetPhase::Finished
            &&& s3.session.authorization == bearer(token.access_token)
            &&& s3.session.user_agent == session.user_agent
            &&& second == 200 ==> a3 == GetActionView::Deliver
            &&& second != 200 ==> a3 == GetActionView::Fail(
                ErrorView::Authentication(still_rejected_message()),
            )
        }),
{
}

impl GetCall {
    /// A request just sent with a transport built from `session`.
    pub fn start(session: Session) -> (r: GetCall)
        ensures
            r@ == (GetCallView { phase: GetPhase::Sent, session: session@ }),
    {
        GetCall { phase: GetPhase::Sent, session }
    }

    /// Whether `event` is one the call waits for now.
    pub fn accepts(&self, event: &GetEvent) -> (r: bool)
        ensures
            r == expects(self.phase, event@),
    {
        match self.phase {
            GetPhase::Sent | GetPhase::Resent => match event {
                GetEvent::Status(_) => true,
                GetEvent::Login(_) => false,
            },
            GetPhase::LoggingIn => match event {
                GetEvent::Status(_) => false,
                GetEvent::Login(_) => true,
            },
            GetPhase::Finished => false,
        }
    }

    /// Takes in the outcome of the last action and says what to do next.
    pub fn step(&mut self, event: GetEvent) -> (r: GetAction)
        requires
            expects(old(self).phase, event@),
        ensures
            (final(self)@, r@) == get_step(old(self)@, event@),
    {
        match event {
            GetEvent::Status(status) => {
                if self.phase == GetPhase::Sent {
                    match check_auth(status) {
                        Ok(true) => {
                            self.phase = GetPhase::Finished;
                            GetAction::Deliver
                        },
                        Ok(false) => {
                            self.phase = GetPhase::LoggingIn;
                            GetAction::Login
                        },
                        Err(e) => {
                            self.phase = GetPhase::Finished;
                            GetAction::Fail(e)
                        },
                    }
                } else {
                    self.phase = GetPhase::Finished;
                    if status == 200 {
                        GetAction::Deliver
                    } else {
                        GetAction::Fail(
                            Error::AuthenticationError(
                                String::from_str(
                                    "Failed to authenticate, even after requesting new token. Check credentials.",
                                ),
                            ),
                        )
                    }
                }
            },
            GetEvent::Login(Ok(Some(t))) => {
                match Session::new(self.session.user_agent.as_str(), &t) {
                    Ok(session) => {
                        self.session = session;
                        self.phase = GetPhase::Resent;
                        GetAction::Rebuild
                    },
                    Err(e) => {
                        self.phase = GetPhase::Finished;
                        GetAction::Fail(e)
                    },
                }
            },
            GetEvent::Login(Ok(None)) => {
                self.phase = GetPhase::Finished;
                GetAction::Fail(
                    Error::AuthenticationError(
                        String::from_str(
                            "Token was not set after logging in, but no error was returned.",
                        ),
                    ),
                )
            },
            GetEvent::Login(Err(e)) => {
                self.phase = GetPhase::Finished;
                GetAction::Fail(e)
            },
        }
    }
}

/// A client is only made once a login produced a token: the session for
/// the token the first login left, or the error when it left none.
pub fn initial_session(user_agent: &str, token: Option<Token>) -> (r: Result<Session, Error>)
    ensures
        match token {
            Some(t) => match r {
                Ok(s) => session_for(user_agent@, t@) == Ok::<SessionView, ErrorView>(s@),
                Err(e) => session_for(user_agent@, t@) == Err::<SessionView, ErrorView>(e@),
            },
            None => r matches Err(e) && e@ == ErrorView::Authentication(missing_token_message()),
        },
{
    match token {
        Some(t) => Session::new(user_agent, &t),
        None => Err(
            Error::AuthenticationError(
                String::from_str("Token was not set after logging in, but no error was returned."),
            ),
        ),
    }
}

} // verus!
