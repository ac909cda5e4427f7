//! Gists: snippets of code that a storage service keeps under an id. The
//! service itself lives outside this crate.

use vstd::prelude::*;

verus! {

/// A stored gist.
#[derive(Debug, Clone, PartialEq, Eq)]
pub struct Gist {
    pub id: String,
    pub url: String,
    pub code: String,
}

} // verus!
