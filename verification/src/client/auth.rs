use vstd::prelude::*;

use crate::api::{classified_api_error, classify_error, is_error_shape, ApiError, RequestError};
use crate::client::base::{auth_header_token, joined_url, HttpMethod, PreparedRequest};
use crate::client::Client;
use crate::json::{json_of, obj_find, obj_lookup, parse_json, JsonValue};
use crate::user::{User, UserTypes};

verus! {

/// The success shape of every authentication endpoint: a `token` credential.
#[derive(Debug, PartialEq)]
pub struct SuccessAuthResponse {
    pub token: String,
}

/// The classified body of an authentication call: the credential on
/// success, or the server's structured failure.
#[derive(Debug, PartialEq)]
pub enum AuthResponse {
    SuccessAuthResponse(SuccessAuthResponse),
    FailureAuthResponse(ApiError),
}

/// The authentication success shape: an object carrying a string `token`.
/// Extra fields do not disturb the match.
pub open spec fn is_auth_success_shape(v: JsonValue) -> bool {
    &&& v matches JsonValue::Obj(fields)
    &&& obj_lookup(fields@, "token"@) matches Some(t) && t is Str
}

/// The credential of a document matching the authentication success shape.
pub open spec fn auth_token_of(v: JsonValue) -> Seq<char> {
    match obj_lookup(v->Obj_0@, "token"@) {
        Some(JsonValue::Str(s)) => s@,
        _ => Seq::empty(),
    }
}

/// Classify an authentication body.  The recognized failure shape is tried
/// first, then the `token` success shape; a document matching neither is
/// reported as unclassifiable (`None`), never coerced into a fabricated
/// failure.
pub fn classify_auth(v: JsonValue) -> (r: Option<AuthResponse>)
    ensures
        is_error_shape(v) ==> (r matches Some(AuthResponse::FailureAuthResponse(e))
            && classified_api_error(v, e)),
        (!is_error_shape(v) && is_auth_success_shape(v)) ==> (r matches Some(
            AuthResponse::SuccessAuthResponse(s),
        ) && s.token@ == auth_token_of(v)),
        (!is_error_shape(v) && !is_auth_success_shape(v)) ==> r is None,
{
    match classify_error(v) {
        Ok(e) => Some(AuthResponse::FailureAuthResponse(e)),
        Err(w) => match w {
            JsonValue::Obj(mut fields) => {
                match obj_find(&fields, &"token".to_owned()) {
                    Some(i) => {
                        let found_str = matches!(&fields[i].1, JsonValue::Str(_));
                        if found_str {
                            let (_, tv) = fields.remove(i);
                            match tv {
                                JsonValue::Str(tok) => Some(
                                    AuthResponse::SuccessAuthResponse(
                                        SuccessAuthResponse { token: tok },
                                    ),
                                ),
                                _ => None,
                            }
                        } else {
                            None
                        }
                    },
                    None => None,
                }
            },
            _ => None,
        },
    }
}

/// The endpoint a principal kind authenticates at.
pub open spec fn spec_auth_path(kind: UserTypes) -> Seq<char> {
    match kind {
        UserTypes::User => "collections/users/auth-with-password"@,
        UserTypes::Admin => "admins/auth-with-password"@,
    }
}

/// The fixed endpoint a credential is refreshed at.
pub open spec fn spec_refresh_path() -> Seq<char> {
    "admins/auth-refresh"@
}

/// What serializing the `{identity, password}` payload yields; it depends
/// on the two texts alone.
pub uninterp spec fn credentials_text(identity: Seq<char>, password: Seq<char>) -> Seq<char>;

/// Relies on serde_json::to_string over a two-field object: the serialized
/// `{identity, password}` payload is a function of the two texts alone.
#[verifier::external_body]
fn credentials_body(identity: &str, password: &str) -> (r: String)
    ensures
        r@ == credentials_text(identity@, password@),
{
    let mut m = serde_json::Map::new();
    m.insert("identity".to_owned(), serde_json::Value::String(identity.to_owned()));
    m.insert("password".to_owned(), serde_json::Value::String(password.to_owned()));
    match serde_json::to_string(&serde_json::Value::Object(m)) {
        Ok(s) => s,
        Err(_) => String::new(),
    }
}

/// The principal installed by a successful authentication as `kind`.
pub open spec fn principal_after_auth(kind: UserTypes, token: String) -> User {
    User { token, usertype: kind }
}

/// The kind a refresh keeps: the prior principal's, or a regular user where
/// none was authenticated yet.
pub open spec fn refresh_kind(prior: Option<User>) -> UserTypes {
    match prior {
        Some(u) => u.usertype,
        None => UserTypes::User,
    }
}

/// The principal installed by a successful refresh: only the credential
/// changes, the kind is kept.
pub open spec fn principal_after_refresh(prior: Option<User>, token: String) -> User {
    User { token, usertype: refresh_kind(prior) }
}

/// Law: a refresh after a successful authentication as `kind` keeps that
/// kind and replaces only the credential, whatever the two credentials are.
pub proof fn lemma_refresh_preserves_kind(kind: UserTypes, t1: String, t2: String)
    ensures
        principal_after_refresh(Some(principal_after_auth(kind, t1)), t2)
            == principal_after_auth(kind, t2),
        principal_after_refresh(Some(principal_after_auth(kind, t1)), t2).usertype == kind,
        principal_after_refresh(Some(principal_after_auth(kind, t1)), t2).token == t2,
{
}

impl Client {
    /// The authentication endpoint used for a principal kind.
    pub fn get_auth_url(&self, user_type: &UserTypes) -> (r: &str)
        ensures
            r@ == spec_auth_path(*user_type),
    {
        match user_type {
            UserTypes::User => "collections/users/auth-with-password",
            UserTypes::Admin => "admins/auth-with-password",
        }
    }

    /// The POST request that exchanges `identity` and `password` for a
    /// credential at the endpoint of `usertype`.
    pub fn auth_request(&self, identity: &str, password: &str, usertype: &UserTypes) -> (r: Result<
        PreparedRequest,
        RequestError,
    >)
        ensures
            (r is Ok) == (joined_url(self.base_url@, spec_auth_path(*usertype)) is Some),
            r matches Ok(req) ==> ({
                &&& req.method == HttpMethod::Post
                &&& Some(req.url@) == joined_url(self.base_url@, spec_auth_path(*usertype))
                &&& req.auth_token == auth_header_token(self.user)
                &&& req.content_type_json
                &&& req.body matches Some(b) && b@ == credentials_text(identity@, password@)
            }),
            r matches Err(e) ==> e is MalformedAddress,
    {
        let body = credentials_body(identity, password);
        let path = self.get_auth_url(usertype).to_owned();
        self.post(path, Some(body))
    }

    /// The bodiless POST request that refreshes the current credential.
    pub fn refresh_request(&self) -> (r: Result<PreparedRequest, RequestError>)
        ensures
            (r is Ok) == (joined_url(self.base_url@, spec_refresh_path()) is Some),
            r matches Ok(req) ==> ({
                &&& req.method == HttpMethod::Post
                &&& Some(req.url@) == joined_url(self.base_url@, spec_refresh_path())
                &&& req.auth_token == auth_header_token(self.user)
                &&& req.content_type_json
                &&& req.body is None
            }),
            r matches Err(e) ==> e is MalformedAddress,
    {
        self.post("admins/auth-refresh".to_owned(), None)
    }

    /// Apply the body of an authentication call made as `usertype`.  On the
    /// success shape the principal becomes exactly the new kind and
    /// credential; on the failure shape the server's error is propagated;
    /// on any other body the raw text is kept in a `Decode` error.  Every
    /// failure leaves the prior principal untouched.
    pub fn apply_auth_response(&mut self, usertype: &UserTypes, body: String) -> (r: Result<
        (),
        RequestError,
    >)
        ensures
            final(self).base_url == old(self).base_url,
            (r is Ok) == (json_of(body@) matches Some(v) && !is_error_shape(v)
                && is_auth_success_shape(v)),
            (match json_of(body@) {
                Some(v) => {
                    &&& is_error_shape(v) ==> (r matches Err(RequestError::Api(e))
                        && classified_api_error(v, e) && final(self).user == old(self).user)
                    &&& (!is_error_shape(v) && is_auth_success_shape(v)) ==> (final(self).user matches Some(u) && u.token@ == auth_token_of(v) && u
                        == principal_after_auth(*usertype, u.token))
                    &&& (!is_error_shape(v) && !is_auth_success_shape(v)) ==> (r matches Err(
                        RequestError::Decode(raw),
                    ) && raw@ == body@ && final(self).user == old(self).user)
                },
                None => (r matches Err(RequestError::Decode(raw)) && raw@ == body@ && final(self).user == old(self).user),
            }),
    {
        let parsed = match parse_json(body.as_str()) {
            Some(v) => v,
            None => {
                return Err(RequestError::Decode(body));
            },
        };
        match classify_auth(parsed) {
            Some(AuthResponse::SuccessAuthResponse(s)) => {
                self.user = Some(User { token: s.token, usertype: *usertype });
                Ok(())
            },
            Some(AuthResponse::FailureAuthResponse(e)) => Err(RequestError::Api(e)),
            None => Err(RequestError::Decode(body)),
        }
    }

    /// Apply the body of a refresh call.  On the success shape only the
    /// credential changes: the kind is kept, defaulting to a regular user
    /// where no principal was held yet.  Every failure leaves the prior
    /// principal untouched.
    pub fn apply_refresh_response(&mut self, body: String) -> (r: Result<(), RequestError>)
        ensures
            final(self).base_url == old(self).base_url,
            (r is Ok) == (json_of(body@) matches Some(v) && !is_error_shape(v)
                && is_auth_success_shape(v)),
            (match json_of(body@) {
                Some(v) => {
                    &&& is_error_shape(v) ==> (r matches Err(RequestError::Api(e))
                        && classified_api_error(v, e) && final(self).user == old(self).user)
                    &&& (!is_error_shape(v) && is_auth_success_shape(v)) ==> (final(self).user matches Some(u) && u.token@ == auth_token_of(v) && u
                        == principal_after_refresh(old(self).user, u.token))
                    &&& (!is_error_shape(v) && !is_auth_success_shape(v)) ==> (r matches Err(
                        RequestError::Decode(raw),
                    ) && raw@ == body@ && final(self).user == old(self).user)
                },
                None => (r matches Err(RequestError::Decode(raw)) && raw@ == body@ && final(self).user == old(self).user),
            }),
    {
        let parsed = match parse_json(body.as_str()) {
            Some(v) => v,
            None => {
                return Err(RequestError::Decode(body));
            },
        };
        match classify_auth(parsed) {
            Some(AuthResponse::SuccessAuthResponse(s)) => {
                let kind = match &self.user {
                    Some(u) => u.usertype,
                    None => UserTypes::User,
                };
                self.user = Some(User { token: s.token, usertype: kind });
                Ok(())
            },
            Some(AuthResponse::FailureAuthResponse(e)) => Err(RequestError::Api(e)),
            None => Err(RequestError::Decode(body)),
        }
    }
}

} // verus!
