//! Energy flows.

use vstd::prelude::*;

verus! {

/// A pair of opposite flows: into (`import`) and out of (`export`) something.
#[derive(Clone, Copy, PartialEq, Eq, Structural, Debug)]
pub struct Flow<T> {
    pub import: T,
    pub export: T,
}

} // verus!
