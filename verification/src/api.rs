//! The candidate images a reverse-image-search collaborator returns.

use vstd::prelude::*;

verus! {

/// One remote candidate: the address a full match of the reference image
/// can be fetched from. The search collaborator supplies candidates sorted
/// by resolution in descending order; the evaluator trusts that order.
pub struct Image {
    pub url: String,
}

} // verus!
