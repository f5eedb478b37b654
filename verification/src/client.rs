use vstd::prelude::*;

use crate::user::User;

pub mod auth;
pub mod base;

verus! {

/// What parsing a base address yields: `None` where the text is not an
/// absolute URL, otherwise the normalized text of the parsed URL.  The
/// result depends on the text alone.
pub uninterp spec fn base_url_of(s: Seq<char>) -> Option<Seq<char>>;

/// Relies on url::Url::parse: whether a text parses as an absolute URL, and
/// the normalized text it parses to, are functions of the text alone.
#[verifier::external_body]
fn parse_base_url(s: &str) -> (r: Result<String, url::ParseError>)
    ensures
        (r is Ok) == (base_url_of(s@) is Some),
        r matches Ok(u) ==> Some(u@) == base_url_of(s@),
{
    match url::Url::parse(s) {
        Ok(u) => Ok(String::from(u)),
        Err(e) => Err(e),
    }
}

/// The connection handle: the service's base address, fixed at
/// construction, and the current authenticated principal, if any.  The
/// principal is the only mutable part and changes only through the
/// authentication flow.
#[derive(Debug)]
pub struct Client {
    pub base_url: String,
    pub user: Option<User>,
}

impl Client {
    /// A fresh, unauthenticated connection to the service at `raw_url`.
    /// Fails exactly when `raw_url` does not parse as an absolute URL.
    pub fn new(raw_url: &str) -> (r: Result<Client, url::ParseError>)
        ensures
            (r is Ok) == (base_url_of(raw_url@) is Some),
            r matches Ok(c) ==> (Some(c.base_url@) == base_url_of(raw_url@) && c.user is None),
    {
        match parse_base_url(raw_url) {
            Ok(u) => Ok(Client { base_url: u, user: None }),
            Err(e) => Err(e),
        }
    }
}

} // verus!
