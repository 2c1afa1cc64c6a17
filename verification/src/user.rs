//! Users, as far as posts need them.

use vstd::prelude::*;

verus! {

/// The number of a user.
#[derive(Clone, Debug, PartialEq, Eq, Structural)]
pub struct Id(pub u64);

} // verus!
