//! Configuration values of the surrounding application. Loading them from
//! the environment is the composition root's business; the library only
//! defines the shape.

use vstd::prelude::*;

verus! {

/// Application settings: an optional proxy, the Firebase project the saved
/// searches live under, and the address the server binds to.
#[derive(Debug, Clone)]
pub struct Settings {
    pub proxy_url: Option<String>,
    pub firebase_project_id: Option<String>,
    pub server_address: String,
}

} // verus!
