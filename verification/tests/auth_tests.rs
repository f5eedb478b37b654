use recordbase::api::{ApiErrorCode, RequestError};
use recordbase::client::Client;
use recordbase::user::{User, UserTypes};

fn fresh_client() -> Client {
    Client::new("https://svc.example/api/").expect("the base address parses")
}

#[test]
fn auth_success_sets_principal_exactly() {
    let mut c = fresh_client();
    let r = c.apply_auth_response(&UserTypes::User, "{\"token\":\"tok123\"}".to_string());
    assert!(r.is_ok());
    assert_eq!(
        c.user,
        Some(User { token: "tok123".to_string(), usertype: UserTypes::User })
    );
}

#[test]
fn auth_failure_keeps_prior_principal() {
    let mut c = fresh_client();
    c.apply_auth_response(&UserTypes::Admin, "{\"token\":\"t1\"}".to_string())
        .expect("the first authentication succeeds");
    let before = c.user.clone();
    let r = c.apply_auth_response(
        &UserTypes::User,
        "{\"code\":400,\"message\":\"m\",\"data\":{}}".to_string(),
    );
    match r {
        Err(RequestError::Api(e)) => assert_eq!(e.code, ApiErrorCode::BadRequest),
        other => panic!("expected an api error, got {:?}", other),
    }
    assert_eq!(c.user, before);
}

#[test]
fn auth_decode_failure_keeps_prior_principal() {
    let mut c = fresh_client();
    c.apply_auth_response(&UserTypes::User, "{\"token\":\"t1\"}".to_string())
        .expect("the first authentication succeeds");
    let before = c.user.clone();
    let r = c.apply_auth_response(&UserTypes::Admin, "no json here".to_string());
    match r {
        Err(RequestError::Decode(raw)) => assert_eq!(raw, "no json here".to_string()),
        other => panic!("expected a decode error, got {:?}", other),
    }
    assert_eq!(c.user, before);
}

#[test]
fn refresh_preserves_admin_kind() {
    let mut c = fresh_client();
    c.apply_auth_response(&UserTypes::Admin, "{\"token\":\"t1\"}".to_string())
        .expect("the authentication succeeds");
    c.apply_refresh_response("{\"token\":\"t2\"}".to_string())
        .expect("the refresh succeeds");
    assert_eq!(
        c.user,
        Some(User { token: "t2".to_string(), usertype: UserTypes::Admin })
    );
}

#[test]
fn refresh_without_principal_defaults_to_regular_user() {
    let mut c = fresh_client();
    c.apply_refresh_response("{\"token\":\"t9\"}".to_string())
        .expect("the refresh succeeds");
    assert_eq!(
        c.user,
        Some(User { token: "t9".to_string(), usertype: UserTypes::User })
    );
}

#[test]
fn refresh_failure_keeps_principal() {
    let mut c = fresh_client();
    c.apply_auth_response(&UserTypes::Admin, "{\"token\":\"t1\"}".to_string())
        .expect("the authentication succeeds");
    let before = c.user.clone();
    let r = c.apply_refresh_response(
        "{\"code\":403,\"message\":\"m\",\"data\":{}}".to_string(),
    );
    match r {
        Err(RequestError::Api(e)) => assert_eq!(e.code, ApiErrorCode::Forbidden),
        other => panic!("expected an api error, got {:?}", other),
    }
    assert_eq!(c.user, before);
}

#[test]
fn body_with_token_and_failure_fields_is_a_failure() {
    // The failure shape is tried before the success shape, so a body that
    // matches both classifies as the server's failure.
    let mut c = fresh_client();
    let r = c.apply_auth_response(
        &UserTypes::User,
        "{\"token\":\"t\",\"code\":400,\"message\":\"m\",\"data\":{}}".to_string(),
    );
    match r {
        Err(RequestError::Api(e)) => assert_eq!(e.code, ApiErrorCode::BadRequest),
        other => panic!("expected an api error, got {:?}", other),
    }
    assert_eq!(c.user, None);
}

#[test]
fn auth_token_must_be_a_string() {
    let mut c = fresh_client();
    let r = c.apply_auth_response(&UserTypes::User, "{\"token\":7}".to_string());
    assert!(matches!(r, Err(RequestError::Decode(_))));
    assert_eq!(c.user, None);
}
