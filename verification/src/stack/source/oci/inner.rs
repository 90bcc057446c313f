//! What both kinds of OCI source objects hold.

use vstd::prelude::*;

verus! {

/// An OCI artifact with an optional tag.
#[derive(Debug)]
pub struct InnerOciStackSourceSpec {
    pub url: String,
    pub tag: Option<String>,
}

} // verus!
