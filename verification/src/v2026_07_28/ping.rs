//! The empty parameters of a request that takes none.

use vstd::prelude::*;

verus! {

/// Parameters of a request that takes none.
#[derive(Debug, Clone, Default)]
pub struct EmptyParams;

} // verus!
