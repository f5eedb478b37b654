use vstd::prelude::*;

use crate::api::RequestError;
use crate::client::Client;
use crate::user::User;

verus! {

#[derive(Debug, Clone, Copy, PartialEq, Eq, Structural)]
pub enum HttpMethod {
    Get,
    Post,
    Patch,
    Delete,
}

/// A fully formed request, ready for a transport to send: the verb, the
/// resolved URL, the authorization credential to attach (if any), whether a
/// JSON content type is set, the serialized body (if any), and the query
/// parameters.
#[derive(Debug)]
pub struct PreparedRequest {
    pub method: HttpMethod,
    pub url: String,
    pub auth_token: Option<String>,
    pub content_type_json: bool,
    pub body: Option<String>,
    pub query: Vec<(String, String)>,
}

/// What resolving a path against a base address yields: `None` where the
/// pair does not resolve to a URL, otherwise the text of the resolved URL.
/// The result depends on the two texts alone.
pub uninterp spec fn joined_url(base: Seq<char>, path: Seq<char>) -> Option<Seq<char>>;

/// Relies on url::Url::parse and url::Url::join: resolving a path against
/// an absolute base address is a function of the two texts alone.
#[verifier::external_body]
pub(crate) fn resolve_url(base: &str, path: &str) -> (r: Result<String, url::ParseError>)
    ensures
        (r is Ok) == (joined_url(base@, path@) is Some),
        r matches Ok(u) ==> Some(u@) == joined_url(base@, path@),
{
    match url::Url::parse(base) {
        Ok(b) => match b.join(path) {
            Ok(j) => Ok(String::from(j)),
            Err(e) => Err(e),
        },
        Err(e) => Err(e),
    }
}

/// The authorization header a request carries: the current principal's bare
/// credential, or nothing when unauthenticated.
pub open spec fn auth_header_token(user: Option<User>) -> Option<String> {
    match user {
        Some(u) => Some(u.token),
        None => None,
    }
}

impl Client {
    /// The credential to attach, read from the current principal at call
    /// time: no stale header is ever cached.
    fn current_token(&self) -> (r: Option<String>)
        ensures
            r == auth_header_token(self.user),
    {
        match &self.user {
            Some(u) => Some(u.token.clone()),
            None => None,
        }
    }

    /// A GET request for `path` below the base address, carrying the given
    /// query parameters.  Fails with `MalformedAddress` exactly when the
    /// path does not resolve against the base address.
    pub fn get(&self, path: &str, params: Option<Vec<(String, String)>>) -> (r: Result<
        PreparedRequest,
        RequestError,
    >)
        ensures
            (r is Ok) == (joined_url(self.base_url@, path@) is Some),
            r matches Ok(req) ==> ({
                &&& req.method == HttpMethod::Get
                &&& Some(req.url@) == joined_url(self.base_url@, path@)
                &&& req.auth_token == auth_header_token(self.user)
                &&& !req.content_type_json
                &&& req.body is None
                &&& req.query@ == (match params {
                    Some(q) => q@,
                    None => Seq::<(String, String)>::empty(),
                })
            }),
            r matches Err(e) ==> e is MalformedAddress,
    {
        let url = match resolve_url(self.base_url.as_str(), path) {
            Ok(u) => u,
            Err(e) => {
                return Err(RequestError::MalformedAddress(e));
            },
        };
        let query = match params {
            Some(q) => q,
            None => Vec::new(),
        };
        Ok(
            PreparedRequest {
                method: HttpMethod::Get,
                url,
                auth_token: self.current_token(),
                content_type_json: false,
                body: None,
                query,
            },
        )
    }

    /// A POST request for `path` below the base address, with an optional
    /// JSON body already serialized (an absent body is permitted, e.g. for
    /// refresh).  Fails with `MalformedAddress` exactly when the path does
    /// not resolve against the base address.
    pub fn post(&self, path: String, body: Option<String>) -> (r: Result<
        PreparedRequest,
        RequestError,
    >)
        ensures
            (r is Ok) == (joined_url(self.base_url@, path@) is Some),
            r matches Ok(req) ==> ({
                &&& req.method == HttpMethod::Post
                &&& Some(req.url@) == joined_url(self.base_url@, path@)
                &&& req.auth_token == auth_header_token(self.user)
                &&& req.content_type_json
                &&& req.body == body
                &&& req.query@ == Seq::<(String, String)>::empty()
            }),
            r matches Err(e) ==> e is MalformedAddress,
    {
        let url = match resolve_url(self.base_url.as_str(), path.as_str()) {
            Ok(u) => u,
            Err(e) => {
                return Err(RequestError::MalformedAddress(e));
            },
        };
        Ok(
            PreparedRequest {
                method: HttpMethod::Post,
                url,
                auth_token: self.current_token(),
                content_type_json: true,
                body,
                query: Vec::new(),
            },
        )
    }

    /// A PATCH request for `path` below the base address.  The envelope is
    /// the same as `post`'s; in particular the authorization header carries
    /// the bare credential, the one framing used consistently by every
    /// verb.
    pub fn patch(&self, path: String, body: Option<String>) -> (r: Result<
        PreparedRequest,
        RequestError,
    >)
        ensures
            (r is Ok) == (joined_url(self.base_url@, path@) is Some),
            r matches Ok(req) ==> ({
                &&& req.method == HttpMethod::Patch
                &&& Some(req.url@) == joined_url(self.base_url@, path@)
                &&& req.auth_token == auth_header_token(self.user)
                &&& req.content_type_json
                &&& req.body == body
                &&& req.query@ == Seq::<(String, String)>::empty()
            }),
            r matches Err(e) ==> e is MalformedAddress,
    {
        let url = match resolve_url(self.base_url.as_str(), path.as_str()) {
            Ok(u) => u,
            Err(e) => {
                return Err(RequestError::MalformedAddress(e));
            },
        };
        Ok(
            PreparedRequest {
                method: HttpMethod::Patch,
                url,
                auth_token: self.current_token(),
                content_type_json: true,
                body,
                query: Vec::new(),
            },
        )
    }

    /// A DELETE request for `path` below the base address, carrying the
    /// given query parameters and a JSON content type, with no body.  Fails
    /// with `MalformedAddress` exactly when the path does not resolve
    /// against the base address.
    pub fn delete(&self, path: String, params: Option<Vec<(String, String)>>) -> (r: Result<
        PreparedRequest,
        RequestError,
    >)
        ensures
            (r is Ok) == (joined_url(self.base_url@, path@) is Some),
            r matches Ok(req) ==> ({
                &&& req.method == HttpMethod::Delete
                &&& Some(req.url@) == joined_url(self.base_url@, path@)
                &&& req.auth_token == auth_header_token(self.user)
                &&& req.content_type_json
                &&& req.body is None
                &&& req.query@ == (match params {
                    Some(q) => q@,
                    None => Seq::<(String, String)>::empty(),
                })
            }),
            r matches Err(e) ==> e is MalformedAddress,
    {
        let url = match resolve_url(self.base_url.as_str(), path.as_str()) {
            Ok(u) => u,
            Err(e) => {
                return Err(RequestError::MalformedAddress(e));
            },
        };
        let query = match params {
            Some(q) => q,
            None => Vec::new(),
        };
        Ok(
            PreparedRequest {
                method: HttpMethod::Delete,
                url,
                auth_token: self.current_token(),
                content_type_json: true,
                body: None,
                query,
            },
        )
    }
}

} // verus!
