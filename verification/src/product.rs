//! What the machine sells.

use vstd::prelude::*;
use crate::trade::HasValue;

verus! {

/// A kind of goods. Every piece has a name and a value; all pieces of one
/// type share the kind number under which the stock keeps them.
pub trait Product: HasValue {
    /// The kind number of this type.
    spec fn spec_kind() -> u64;

    /// The kind number of this type.
    fn kind() -> (k: u64)
        ensures
            k == Self::spec_kind(),
    ;

    /// The name on the label.
    spec fn label(&self) -> &'static str;

    /// The name on the label.
    fn name(&self) -> (n: &'static str)
        ensures
            n == self.label(),
    ;
}

/// How many pieces.
#[derive(Debug)]
pub struct Amount(pub u32);

impl vstd::std_specs::convert::FromSpecImpl<u32> for Amount {
    open spec fn obeys_from_spec() -> bool {
        true
    }

    open spec fn from_spec(val: u32) -> Self {
        Amount(val)
    }
}

impl From<u32> for Amount {
    fn from(val: u32) -> (a: Amount)
        ensures
            a == Amount(val),
    {
        Amount(val)
    }
}

/// One piece as the stock keeps it: its kind, its label and its price.
#[derive(Clone, Copy, Debug)]
pub struct Item {
    pub kind: u64,
    pub name: &'static str,
    pub price: u64,
}

/// The piece `p` as the stock keeps it.
pub open spec fn item_of<T: Product>(p: T) -> Item {
    Item { kind: T::spec_kind(), name: p.label(), price: p.worth() as u64 }
}

impl Item {
    /// Reads kind, label and price off `p`.
    pub fn of<T: Product>(p: &T) -> (item: Item)
        ensures
            item == item_of(*p),
    {
        Item { kind: T::kind(), name: p.name(), price: p.value() }
    }
}

/// A chocolate bar.
pub struct Snickers {}

impl HasValue for Snickers {
    open spec fn worth(&self) -> nat {
        23
    }

    fn value(&self) -> (v: u64) {
        23
    }
}

impl Product for Snickers {
    open spec fn spec_kind() -> u64 {
        1
    }

    fn kind() -> (k: u64) {
        1
    }

    open spec fn label(&self) -> &'static str {
        "Snickers"
    }

    fn name(&self) -> (n: &'static str) {
        "Snickers"
    }
}

/// A can of cola.
pub struct Cola {}

impl HasValue for Cola {
    open spec fn worth(&self) -> nat {
        47
    }

    fn value(&self) -> (v: u64) {
        47
    }
}

impl Product for Cola {
    open spec fn spec_kind() -> u64 {
        2
    }

    fn kind() -> (k: u64) {
        2
    }

    open spec fn label(&self) -> &'static str {
        "Cola"
    }

    fn name(&self) -> (n: &'static str) {
        "Cola"
    }
}

} // verus!
