//! What both kinds of stack auth objects hold.

use vstd::prelude::*;

verus! {

/// Backend of a stack and the secrets that unlock it.
#[derive(Debug)]
pub struct InnerStackAuthSpec {
    pub backend: String,
    pub backend_auth_secret: Option<String>,
    pub access_token_secret: Option<String>,
}

} // verus!
