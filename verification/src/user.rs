use vstd::prelude::*;

verus! {

/// The two principal kinds the service distinguishes; the kind selects the
/// authentication endpoint used to obtain a credential.
#[derive(Debug, Clone, Copy, PartialEq, Eq, Hash, Structural)]
pub enum UserTypes {
    User,
    Admin,
}

/// An authenticated principal: the bearer credential together with the kind
/// it was obtained as.  Held by a `Client` and replaced wholesale on each
/// successful authentication or refresh.
#[derive(Debug, Clone, PartialEq, Eq, Hash)]
pub struct User {
    pub token: String,
    pub usertype: UserTypes,
}

} // verus!
