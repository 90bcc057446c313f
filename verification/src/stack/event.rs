//! Changes of the observed set of stacks.

use crate::stack::crd::PulumiStack;
use vstd::prelude::*;

verus! {

/// One observed change of a `PulumiStack`.
#[derive(Debug)]
pub enum PulumiStackChange {
    Added { added_stack: PulumiStack },
    Removed { removed_stack: PulumiStack },
    Updated { old_stack: PulumiStack, new_stack: PulumiStack },
}

} // verus!
