//! Status of a `PulumiStack`.

use vstd::prelude::*;

verus! {

/// Status block of a `PulumiStack`; it has no fields yet.
#[derive(Debug, Clone, Copy, PartialEq, Eq, Structural)]
pub struct StackStatus {}

} // verus!
