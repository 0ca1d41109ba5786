use home_gateway::access::Role;
use home_gateway::auth::{
    begin_authentication, complete_authentication, header_value_text, AuthAction, AuthError,
    AuthRequest, Claims, UserToken,
};

fn request(path: &str, header: Option<&[u8]>) -> AuthRequest {
    AuthRequest { path: path.to_string(), authorization: header.map(|h| h.to_vec()) }
}

#[test]
fn user_token_keeps_email_and_role() {
    let user = UserToken::new("alice@example.com", Role::Family);
    assert_eq!(user.email, "alice@example.com");
    assert_eq!(user.role, Role::Family);
}

#[test]
fn issued_claims_expire_after_the_given_seconds() {
    let claims = Claims::issue("admin@example.com", Role::Admin, 1_700_000_000, 3600);
    assert_eq!(claims.sub, "admin@example.com");
    assert_eq!(claims.role, Role::Admin);
    assert_eq!(claims.exp, 1_700_003_600);
}

#[test]
fn issued_claims_at_the_limit() {
    let claims = Claims::issue("bob@example.com", Role::Guest, usize::MAX - 5, 5);
    assert_eq!(claims.exp, usize::MAX);
    let claims = Claims::issue("", Role::Guest, 0, 0);
    assert_eq!(claims.exp, 0);
    assert_eq!(claims.sub, "");
}

#[test]
fn header_text_of_visible_ascii() {
    assert_eq!(header_value_text(&b"Bearer abc.def".to_vec()), "Bearer abc.def");
    assert_eq!(header_value_text(&b"a\tb".to_vec()), "a\tb");
    assert_eq!(header_value_text(&b"~ !".to_vec()), "~ !");
    assert_eq!(header_value_text(&Vec::new()), "");
}

#[test]
fn header_text_of_other_bytes_is_empty() {
    assert_eq!(header_value_text(&b"Bearer \x7f".to_vec()), "");
    assert_eq!(header_value_text(&b"Bearer a\nb".to_vec()), "");
    assert_eq!(header_value_text(&vec![66, 0xc3, 0xa9]), "");
    assert_eq!(header_value_text(&vec![0x1f]), "");
}

#[test]
fn login_passes_without_credentials() {
    assert!(matches!(begin_authentication(&request("/login", None)), AuthAction::Forward));
    assert!(matches!(
        begin_authentication(&request("/login/form", Some(b"garbage"))),
        AuthAction::Forward
    ));
    assert!(matches!(begin_authentication(&request("/loginx", None)), AuthAction::Forward));
}

#[test]
fn missing_header_is_refused() {
    match begin_authentication(&request("/jellyfin/a", None)) {
        AuthAction::Reject(err) => assert_eq!(err, AuthError::MissingAuthorization),
        other => panic!("unexpected {:?}", other),
    }
    match begin_authentication(&request("/", None)) {
        AuthAction::Reject(err) => assert_eq!(err, AuthError::MissingAuthorization),
        other => panic!("unexpected {:?}", other),
    }
}

#[test]
fn malformed_header_is_refused() {
    for header in [&b"Basic abc"[..], b"bearer abc", b"Bearer", b"", b"Bearer \xff", b"Token x"] {
        match begin_authentication(&request("/files/x", Some(header))) {
            AuthAction::Reject(err) => assert_eq!(err, AuthError::MalformedAuthorization),
            other => panic!("unexpected {:?}", other),
        }
    }
}

#[test]
fn bearer_header_hands_on_its_token() {
    match begin_authentication(&request("/files/x", Some(b"Bearer abc.def.ghi"))) {
        AuthAction::Verify(token) => assert_eq!(token, "abc.def.ghi"),
        other => panic!("unexpected {:?}", other),
    }
    match begin_authentication(&request("/admin", Some(b"Bearer "))) {
        AuthAction::Verify(token) => assert_eq!(token, ""),
        other => panic!("unexpected {:?}", other),
    }
    match begin_authentication(&request("/admin", Some(b"Bearer  two spaces"))) {
        AuthAction::Verify(token) => assert_eq!(token, " two spaces"),
        other => panic!("unexpected {:?}", other),
    }
}

#[test]
fn decoded_claims_admit_the_request() {
    let claims = Claims::issue("alice@example.com", Role::Family, 10, 20);
    match complete_authentication(Some(claims)) {
        AuthAction::Admit(c) => {
            assert_eq!(c.sub, "alice@example.com");
            assert_eq!(c.role, Role::Family);
            assert_eq!(c.exp, 30);
        }
        other => panic!("unexpected {:?}", other),
    }
}

#[test]
fn undecodable_token_is_refused() {
    match complete_authentication(None) {
        AuthAction::Reject(err) => assert_eq!(err, AuthError::InvalidToken),
        other => panic!("unexpected {:?}", other),
    }
}

#[test]
fn every_refusal_is_unauthorized() {
    for err in [
        AuthError::MissingAuthorization,
        AuthError::MalformedAuthorization,
        AuthError::InvalidToken,
    ] {
        assert_eq!(err.status_code(), 401);
    }
}
