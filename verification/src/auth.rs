//! Identity data carried through the surrounding application: the claims
//! of a verified identity token and the authenticated user they yield.
//! Token verification itself talks to an identity provider and lives with
//! the I/O layer.

use vstd::prelude::*;

verus! {

/// Claims of a verified identity token.
#[derive(Debug, Clone)]
pub struct Claims {
    pub aud: String,
    pub iss: String,
    pub sub: String,
    pub exp: usize,
    pub iat: usize,
    pub auth_time: usize,
    pub email: Option<String>,
    pub email_verified: Option<bool>,
}

/// The user a request was authenticated as.
#[derive(Debug, Clone)]
pub struct AuthenticatedUser {
    pub user_id: String,
}

} // verus!
