use snew::{
    exchange_result, ApplicationAuthenticator, Authenticator, Credentials, Error,
    ExchangeResponse, ScriptAuthenticator, Token,
};

fn token(access: &str) -> Token {
    Token::new(access.to_string(), 3600, "*".to_string(), "bearer".to_string())
}

fn response(status: u16, token: Option<Token>, error: Option<&str>, text: &str) -> ExchangeResponse {
    ExchangeResponse {
        status,
        token,
        error: error.map(|e| e.to_string()),
        text: text.to_string(),
    }
}

#[test]
fn exchange_with_token_succeeds() {
    let r = exchange_result(response(200, Some(token("abc")), None, "{}"));
    let t = r.unwrap();
    assert_eq!(t.access_token, "abc");
    assert_eq!(t.expires_in, 3600);
    assert_eq!(t.scope(), "*");
    assert_eq!(t.token_type(), "bearer");
}

#[test]
fn embedded_error_with_ok_status_fails() {
    let r = exchange_result(response(200, None, Some("invalid_grant"), "{\"error\": \"invalid_grant\"}"));
    match r {
        Err(Error::AuthenticationError(m)) => {
            assert!(m.contains("invalid_grant"));
            assert_eq!(
                m,
                "Username or password are most likely wrong, Reddit returned: invalid_grant"
            );
        }
        other => panic!("unexpected {:?}", other),
    }
}

#[test]
fn unauthorized_exchange_names_the_application() {
    let r = exchange_result(response(401, None, None, "Unauthorized"));
    match r {
        Err(Error::AuthenticationError(m)) => {
            assert_eq!(m, "Client ID or Secret are wrong. Reddit returned 401 Unauthorized");
            assert!(!m.contains("Username"));
        }
        other => panic!("unexpected {:?}", other),
    }
}

#[test]
fn embedded_error_wins_over_unauthorized_status() {
    let r = exchange_result(response(401, None, Some("invalid_grant"), "x"));
    let e = r.unwrap_err();
    assert!(e.message().contains("invalid_grant"));
}

#[test]
fn unexpected_exchange_reports_body_and_code() {
    let r = exchange_result(response(500, None, None, "oops"));
    let e = r.unwrap_err();
    assert!(e.is_authentication());
    assert_eq!(e.message(), "Unexpected error occured, text: oops, code: 500");
}

#[test]
fn script_authenticator_stores_token() {
    let mut a = ScriptAuthenticator::new(Credentials::new("id", "secret", "user", "pw"));
    assert!(a.token().is_none());
    assert!(a.is_user());
    assert!(a.accept_login(response(200, Some(token("t1")), None, "")).is_ok());
    assert_eq!(a.token().unwrap().access_token, "t1");
    // A failed login keeps the token held before.
    assert!(a.accept_login(response(401, None, None, "")).is_err());
    assert_eq!(a.token().unwrap().access_token, "t1");
}

#[test]
fn script_token_request_is_password_grant() {
    let a = ScriptAuthenticator::new(Credentials::new("id", "secret", "user", "pw"));
    let q = a.token_request();
    let pairs: Vec<(&str, &str)> = q.query.iter().map(|(k, v)| (k.as_str(), v.as_str())).collect();
    assert_eq!(pairs, vec![("grant_type", "password"), ("username", "user"), ("password", "pw")]);
    assert_eq!(q.client_id, "id");
    assert_eq!(q.client_secret, "secret");
}

#[test]
fn application_authenticator_is_anonymous() {
    let mut a = ApplicationAuthenticator::new("id", "secret");
    assert!(!a.is_user());
    let q = a.token_request();
    assert_eq!(q.query.len(), 1);
    assert_eq!(q.query[0].0, "grant_type");
    assert_eq!(q.query[0].1, "client_credentials");
    assert_eq!(q.client_id, "id");
    assert_eq!(q.client_secret, "secret");
    let r = a.accept_login(response(200, None, Some("unsupported_grant_type"), ""));
    assert!(r.unwrap_err().message().contains("unsupported_grant_type"));
    assert!(a.token().is_none());
    assert!(a.accept_login(response(200, Some(token("t2")), None, "")).is_ok());
    assert_eq!(a.token().unwrap().access_token, "t2");
}

#[test]
fn default_agent_names_the_library() {
    assert_eq!(snew::default_agent(), "desktop:snew:0.1.0:(by snewAuthenticator)");
}
