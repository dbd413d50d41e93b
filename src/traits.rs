//! Identifiers of traits.

use vstd::prelude::*;

verus! {

/// Identifier of a trait.
pub type TraitId = u32;

} // verus!
