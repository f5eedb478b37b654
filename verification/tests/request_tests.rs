use recordbase::client::base::HttpMethod;
use recordbase::client::Client;
use recordbase::json::JsonValue;
use recordbase::records::operations::list::{self, ListResponse};
use recordbase::records::operations::{create, delete, view};
use recordbase::user::{User, UserTypes};

fn authed_client(token: &str, kind: UserTypes) -> Client {
    let mut c = Client::new("https://svc.example/api/").expect("the base address parses");
    c.user = Some(User { token: token.to_string(), usertype: kind });
    c
}

#[test]
fn client_new_rejects_a_malformed_address() {
    assert!(Client::new("not a url").is_err());
}

#[test]
fn client_new_normalizes_the_address() {
    let c = Client::new("HTTPS://SVC.EXAMPLE/api/").expect("the base address parses");
    assert_eq!(c.base_url, "https://svc.example/api/".to_string());
    assert_eq!(c.user, None);
}

#[test]
fn get_attaches_the_bare_credential() {
    let c = authed_client("tok", UserTypes::User);
    let req = c.get("collections/notes/records", None).expect("the path resolves");
    assert_eq!(req.method, HttpMethod::Get);
    assert_eq!(req.url, "https://svc.example/api/collections/notes/records".to_string());
    assert_eq!(req.auth_token, Some("tok".to_string()));
    assert!(!req.content_type_json);
    assert_eq!(req.body, None);
    assert!(req.query.is_empty());
}

#[test]
fn get_without_principal_sends_no_credential() {
    let c = Client::new("https://svc.example/api/").expect("the base address parses");
    let req = c.get("collections/notes/records", None).expect("the path resolves");
    assert_eq!(req.auth_token, None);
}

#[test]
fn get_keeps_query_parameters() {
    let c = authed_client("tok", UserTypes::User);
    let params = vec![("filter".to_string(), "done=true".to_string())];
    let req = c.get("collections/notes/records", Some(params.clone())).expect("resolves");
    assert_eq!(req.query, params);
}

#[test]
fn post_sets_content_type_and_body() {
    let c = authed_client("tok", UserTypes::Admin);
    let req = c
        .post("collections/notes/records".to_string(), Some("{\"a\":1}".to_string()))
        .expect("the path resolves");
    assert_eq!(req.method, HttpMethod::Post);
    assert!(req.content_type_json);
    assert_eq!(req.body, Some("{\"a\":1}".to_string()));
    assert_eq!(req.auth_token, Some("tok".to_string()));
}

#[test]
fn patch_uses_the_same_bare_credential_framing() {
    let c = authed_client("tok", UserTypes::Admin);
    let req = c
        .patch("collections/notes/records/n1".to_string(), Some("{}".to_string()))
        .expect("the path resolves");
    assert_eq!(req.method, HttpMethod::Patch);
    assert_eq!(req.auth_token, Some("tok".to_string()));
}

#[test]
fn delete_verb_carries_no_body() {
    let c = authed_client("tok", UserTypes::User);
    let req = c.delete("collections/notes/records/n1".to_string(), None).expect("resolves");
    assert_eq!(req.method, HttpMethod::Delete);
    assert!(req.content_type_json);
    assert_eq!(req.body, None);
    assert_eq!(req.auth_token, Some("tok".to_string()));
}

#[test]
fn auth_request_builds_the_credentials_payload() {
    let c = Client::new("https://svc.example/api/").expect("the base address parses");
    let req = c.auth_request("a@b.com", "p", &UserTypes::User).expect("the path resolves");
    assert_eq!(req.method, HttpMethod::Post);
    assert_eq!(
        req.url,
        "https://svc.example/api/collections/users/auth-with-password".to_string()
    );
    assert_eq!(req.body, Some("{\"identity\":\"a@b.com\",\"password\":\"p\"}".to_string()));
}

#[test]
fn admin_auth_request_uses_the_admin_endpoint() {
    let c = Client::new("https://svc.example/api/").expect("the base address parses");
    let req = c.auth_request("a@b.com", "p", &UserTypes::Admin).expect("the path resolves");
    assert_eq!(req.url, "https://svc.example/api/admins/auth-with-password".to_string());
}

#[test]
fn refresh_request_has_no_body() {
    let c = authed_client("tok", UserTypes::Admin);
    let req = c.refresh_request().expect("the path resolves");
    assert_eq!(req.method, HttpMethod::Post);
    assert_eq!(req.url, "https://svc.example/api/admins/auth-refresh".to_string());
    assert_eq!(req.body, None);
    assert_eq!(req.auth_token, Some("tok".to_string()));
}

#[test]
fn create_request_serializes_the_changeset() {
    let c = authed_client("tok", UserTypes::User);
    let changeset = JsonValue::Obj(vec![(
        "title".to_string(),
        JsonValue::Str("hi".to_string()),
    )]);
    let req = create::record_request("notes", &changeset, &c).expect("the path resolves");
    assert_eq!(req.method, HttpMethod::Post);
    assert_eq!(req.url, "https://svc.example/api/collections/notes/records".to_string());
    assert_eq!(req.body, Some("{\"title\":\"hi\"}".to_string()));
}

#[test]
fn view_request_addresses_one_record() {
    let c = authed_client("tok", UserTypes::User);
    let req = view::record_request("notes", "n1", &c).expect("the path resolves");
    assert_eq!(req.method, HttpMethod::Get);
    assert_eq!(req.url, "https://svc.example/api/collections/notes/records/n1".to_string());
}

#[test]
fn delete_request_addresses_one_record() {
    let c = authed_client("tok", UserTypes::User);
    let req = delete::record_request("notes", "n1", &c).expect("the path resolves");
    assert_eq!(req.method, HttpMethod::Delete);
    assert_eq!(req.url, "https://svc.example/api/collections/notes/records/n1".to_string());
}

#[test]
fn join_replaces_the_last_segment_without_a_trailing_slash() {
    let c = Client::new("https://svc.example/api").expect("the base address parses");
    let req = c.get("collections/x/records", None).expect("the path resolves");
    assert_eq!(req.url, "https://svc.example/collections/x/records".to_string());
}

#[test]
fn end_to_end_regular_user_scenario() {
    let mut c = Client::new("https://svc.example/api/").expect("the base address parses");

    let auth_req = c.auth_request("a@b.com", "p", &UserTypes::User).expect("resolves");
    assert_eq!(
        auth_req.url,
        "https://svc.example/api/collections/users/auth-with-password".to_string()
    );
    assert_eq!(auth_req.auth_token, None);

    c.apply_auth_response(&UserTypes::User, "{\"token\":\"tok123\"}".to_string())
        .expect("the authentication succeeds");
    assert_eq!(
        c.user,
        Some(User { token: "tok123".to_string(), usertype: UserTypes::User })
    );

    let list_req = list::records_request("notes", &c).expect("resolves");
    assert_eq!(list_req.url, "https://svc.example/api/collections/notes/records".to_string());
    assert_eq!(list_req.auth_token, Some("tok123".to_string()));

    let body = "{\"page\":1,\"perPage\":30,\"totalItems\":1,\"totalPages\":1,\"items\":[{\"id\":\"n1\",\"title\":\"hi\"}]}";
    match list::records_response(body.to_string()) {
        Ok(ListResponse::SuccessResponse(p)) => {
            assert_eq!(p.page, 1);
            assert_eq!(
                p.items,
                vec![JsonValue::Obj(vec![
                    ("id".to_string(), JsonValue::Str("n1".to_string())),
                    ("title".to_string(), JsonValue::Str("hi".to_string())),
                ])]
            );
        }
        other => panic!("expected a success classification, got {:?}", other),
    }
}

#[test]
fn path_that_cannot_resolve_is_a_malformed_address() {
    // A mailto address parses, but no relative path can resolve against it.
    let c = Client::new("mailto:admin@svc.example").expect("the address parses");
    let r = c.get("collections/x/records", None);
    assert!(matches!(
        r,
        Err(recordbase::api::RequestError::MalformedAddress(_))
    ));
}
