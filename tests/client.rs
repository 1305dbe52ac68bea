use snew::{
    check_auth, decimal_string, initial_session, Error, GetAction, GetCall, GetEvent, GetPhase,
    Session, Token,
};

fn token(access: &str) -> Token {
    Token::new(access.to_string(), 3600, "*".to_string(), "bearer".to_string())
}

#[test]
fn decimal_rendering() {
    assert_eq!(decimal_string(0), "0");
    assert_eq!(decimal_string(7), "7");
    assert_eq!(decimal_string(404), "404");
    assert_eq!(decimal_string(65535), "65535");
}

#[test]
fn status_classification() {
    assert!(matches!(check_auth(200), Ok(true)));
    assert!(matches!(check_auth(401), Ok(false)));
    assert!(matches!(check_auth(403), Ok(false)));
    match check_auth(500) {
        Err(Error::AuthenticationError(m)) => assert_eq!(m, "Reddit returned an unexpected code: 500"),
        other => panic!("unexpected {:?}", other),
    }
}

#[test]
fn session_carries_bearer_header() {
    let s = Session::new("agent", &token("abc")).unwrap();
    assert_eq!(s.user_agent, "agent");
    assert_eq!(s.authorization, "bearer abc");
}

#[test]
fn initial_session_needs_a_token() {
    assert_eq!(initial_session("ua", Some(token("x"))).unwrap().authorization, "bearer x");
    let e = initial_session("ua", None).unwrap_err();
    assert!(e.is_authentication());
}

#[test]
fn first_attempt_success_is_delivered() {
    let mut call = GetCall::start(Session::new("ua", &token("old")).unwrap());
    assert!(matches!(call.step(GetEvent::Status(200)), GetAction::Deliver));
    assert_eq!(call.phase, GetPhase::Finished);
    assert_eq!(call.session.authorization, "bearer old");
}

#[test]
fn reauthentication_then_success() {
    let mut call = GetCall::start(Session::new("ua", &token("old")).unwrap());
    assert!(matches!(call.step(GetEvent::Status(401)), GetAction::Login));
    let ev = GetEvent::Login(Ok(Some(token("fresh"))));
    assert!(call.accepts(&ev));
    assert!(!call.accepts(&GetEvent::Status(200)));
    assert!(matches!(call.step(ev), GetAction::Rebuild));
    assert_eq!(call.session.authorization, "bearer fresh");
    assert!(matches!(call.step(GetEvent::Status(200)), GetAction::Deliver));
    assert_eq!(call.session.authorization, "bearer fresh");
    assert_eq!(call.session.user_agent, "ua");
}

#[test]
fn reauthentication_then_rejection() {
    let mut call = GetCall::start(Session::new("ua", &token("old")).unwrap());
    assert!(matches!(call.step(GetEvent::Status(403)), GetAction::Login));
    assert!(matches!(call.step(GetEvent::Login(Ok(Some(token("fresh"))))), GetAction::Rebuild));
    match call.step(GetEvent::Status(401)) {
        GetAction::Fail(Error::AuthenticationError(m)) => assert_eq!(
            m,
            "Failed to authenticate, even after requesting new token. Check credentials."
        ),
        other => panic!("unexpected {:?}", other),
    }
    assert_eq!(call.phase, GetPhase::Finished);
    assert_eq!(call.session.authorization, "bearer fresh");
    assert!(!call.accepts(&GetEvent::Status(200)));
}

#[test]
fn unexpected_status_is_not_retried() {
    let mut call = GetCall::start(Session::new("ua", &token("old")).unwrap());
    match call.step(GetEvent::Status(404)) {
        GetAction::Fail(e) => assert_eq!(e.message(), "Reddit returned an unexpected code: 404"),
        other => panic!("unexpected {:?}", other),
    }
    assert_eq!(call.phase, GetPhase::Finished);
}

#[test]
fn failed_relogin_fails_the_call() {
    let mut call = GetCall::start(Session::new("ua", &token("old")).unwrap());
    call.step(GetEvent::Status(401));
    let e = Error::AuthenticationError("bad".to_string());
    match call.step(GetEvent::Login(Err(e))) {
        GetAction::Fail(e) => assert_eq!(e.message(), "bad"),
        other => panic!("unexpected {:?}", other),
    }
    assert_eq!(call.session.authorization, "bearer old");
}

#[test]
fn relogin_without_token_fails() {
    let mut call = GetCall::start(Session::new("ua", &token("old")).unwrap());
    call.step(GetEvent::Status(401));
    match call.step(GetEvent::Login(Ok(None))) {
        GetAction::Fail(e) => assert!(e.message().starts_with("Token was not set")),
        other => panic!("unexpected {:?}", other),
    }
}

#[test]
fn malformed_token_is_a_transport_error() {
    match Session::new("ua", &token("abc\ndef")) {
        Err(Error::RequestError(m)) => assert_eq!(m, "failed to parse header value"),
        other => panic!("unexpected {:?}", other),
    }
    assert!(Session::new("ua", &token("tab\tand ünïcode")).is_ok());
    assert!(Session::new("ua", &token("del\u{7f}")).is_err());
    assert!(matches!(initial_session("ua", Some(token("a\rb"))), Err(Error::RequestError(_))));
}

#[test]
fn relogin_with_malformed_token_fails() {
    let mut call = GetCall::start(Session::new("ua", &token("old")).unwrap());
    call.step(GetEvent::Status(401));
    match call.step(GetEvent::Login(Ok(Some(token("bad\u{0}"))))) {
        GetAction::Fail(Error::RequestError(m)) => assert_eq!(m, "failed to parse header value"),
        other => panic!("unexpected {:?}", other),
    }
    assert_eq!(call.phase, GetPhase::Finished);
    assert_eq!(call.session.authorization, "bearer old");
}
