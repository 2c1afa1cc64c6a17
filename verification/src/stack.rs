//! A stack behind one lock, shared by handles.
//!
//! As with the shared list, what a call meets depends on what the other
//! handles did before it, so the contracts promise nothing of the contents.

use vstd::prelude::*;
use vstd::rwlock::RwLock;
use std::sync::Arc;

verus! {

/// A handle to a stack that several threads may use at once.
#[verifier::reject_recursive_types(T)]
pub struct GlobalStack<T>(Arc<RwLock<Vec<T>, spec_fn(Vec<T>) -> bool>>);

impl<T> GlobalStack<T> {
    /// The lock takes any stack.
    #[verifier::type_invariant]
    spec fn takes_all(&self) -> bool {
        forall|v: Vec<T>| #[trigger] self.0.inv(v)
    }

    /// A handle to a new, empty stack.
    pub fn new() -> (s: Self) {
        let ghost pred: spec_fn(Vec<T>) -> bool = |v: Vec<T>| true;
        GlobalStack(Arc::new(RwLock::new(Vec::new(), Ghost(pred))))
    }

    /// Puts `item` on top of the stack as it stands when the lock is taken.
    pub fn push(&self, item: T) {
        proof {
            use_type_invariant(self);
        }
        let (mut items, handle) = self.0.acquire_write();
        items.push(item);
        handle.release_write(items);
    }

    /// Takes the top off the stack as it stands when the lock is taken;
    /// nothing if it is empty then.
    pub fn pop(&self) -> (r: Option<T>) {
        proof {
            use_type_invariant(self);
        }
        let (mut items, handle) = self.0.acquire_write();
        let r = items.pop();
        handle.release_write(items);
        r
    }

    /// The height of the stack as it stands when the lock is taken.
    pub fn len(&self) -> (n: usize) {
        proof {
            use_type_invariant(self);
        }
        let (items, handle) = self.0.acquire_write();
        let n = items.len();
        handle.release_write(items);
        n
    }
}

impl<T> Clone for GlobalStack<T> {
    /// Another handle to the same stack.
    fn clone(&self) -> (other: Self)
        ensures
            other == *self,
    {
        proof {
            use_type_invariant(self);
        }
        GlobalStack(self.0.clone())
    }
}

} // verus!
