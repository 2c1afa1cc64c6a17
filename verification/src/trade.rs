//! What can be priced.

use vstd::prelude::*;

verus! {

/// Something with a value in the machine's smallest unit.
pub trait HasValue {
    /// The value.
    spec fn worth(&self) -> nat;

    /// The value, as a number the machine can hold.
    fn value(&self) -> (v: u64)
        ensures
            v == self.worth(),
    ;
}

} // verus!
