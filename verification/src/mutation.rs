//! Values that can be asked to change themselves, each kind in its own way.

use vstd::prelude::*;
use vstd::string::StringExecFns;

verus! {

/// A value that changes itself on request.
pub trait MutMeSomehow: Sized {
    /// `after` is what the change makes of this value.
    spec fn changed_to(&self, after: &Self) -> bool;

    /// Changes the value.
    fn mut_me_somehow(&mut self)
        ensures
            old(self).changed_to(final(self)),
    ;
}

/// A value with one field, which the change sets to 100.
#[derive(Debug, PartialEq, Eq, Structural)]
pub struct MyMutable {
    pub field: i32,
}

impl MutMeSomehow for MyMutable {
    open spec fn changed_to(&self, after: &Self) -> bool {
        after.field == 100
    }

    fn mut_me_somehow(&mut self) {
        self.field = 100;
    }
}

impl<T> MutMeSomehow for Vec<T> {
    /// The last element goes, if there is one.
    open spec fn changed_to(&self, after: &Self) -> bool {
        after@ == (if self@.len() > 0 {
            self@.drop_last()
        } else {
            self@
        })
    }

    fn mut_me_somehow(&mut self) {
        if self.len() > 0 {
            self.pop();
        }
    }
}

impl MutMeSomehow for String {
    /// `aaaaa` is put at the end.
    open spec fn changed_to(&self, after: &Self) -> bool {
        after@ == self@ + "aaaaa"@
    }

    fn mut_me_somehow(&mut self) {
        self.append("aaaaa");
    }
}

impl<T: Default> MutMeSomehow for Box<T> {
    /// A default value of the type takes the place of what was in the box.
    open spec fn changed_to(&self, after: &Self) -> bool {
        call_ensures(T::default, (), **after)
    }

    fn mut_me_somehow(&mut self) {
        *self = Box::new(T::default());
    }
}

} // verus!
