//! The list behind one lock, shared by handles.
//!
//! Every operation takes the lock for itself alone, works on the list and
//! gives the lock back, so the operations of all handles happen one after
//! another, readers too. A call waits until it has the lock; there is no
//! timeout. What a call meets in the list depends on what the other handles
//! did before it; a contract here can therefore promise only what holds
//! whichever way the calls fall. What each operation does to the list it
//! meets is stated by `DLLStore`.
//!
//! The list's own work under the lock is verified not to panic. One piece of
//! foreign code runs under the lock: `T`'s own `==`, in `search`. If it
//! panics, the lock is not given back, and from then on every call on any
//! handle of the list waits forever. There is no poisoned state that a later
//! caller could see and recover from: a failure under the lock ends the use
//! of the list for all its handles.

use vstd::prelude::*;
use vstd::rwlock::RwLock;
use std::sync::Arc;
use crate::list::DLLStore;

verus! {

/// A handle to a list that several threads may use at once.
#[verifier::reject_recursive_types(T)]
pub struct DoubleLinkedList<T> {
    inner_storage: Arc<RwLock<DLLStore<T>, spec_fn(DLLStore<T>) -> bool>>,
}

impl<T> DoubleLinkedList<T> {
    /// The lock takes any list.
    #[verifier::type_invariant]
    spec fn takes_all(&self) -> bool {
        forall|s: DLLStore<T>| #[trigger] self.inner_storage.inv(s)
    }

    /// A handle to a new, empty list.
    pub fn new() -> (list: Self) {
        let ghost pred: spec_fn(DLLStore<T>) -> bool = |s: DLLStore<T>| true;
        DoubleLinkedList { inner_storage: Arc::new(RwLock::new(DLLStore::new(), Ghost(pred))) }
    }

    /// Appends `val` to the list as it stands when the lock is taken.
    pub fn push_back(&self, val: T) {
        proof {
            use_type_invariant(self);
        }
        let (mut store, handle) = self.inner_storage.acquire_write();
        store.push_back(val);
        handle.release_write(store);
    }

    /// Inserts `val` before the first element of the list as it stands when
    /// the lock is taken.
    pub fn push_front(&self, val: T) {
        proof {
            use_type_invariant(self);
        }
        let (mut store, handle) = self.inner_storage.acquire_write();
        store.push_front(val);
        handle.release_write(store);
    }

    /// Removes and returns the first element of the list as it stands when
    /// the lock is taken, or nothing if it is empty then.
    pub fn drop_front(&self) -> (r: Option<T>) {
        proof {
            use_type_invariant(self);
        }
        let (mut store, handle) = self.inner_storage.acquire_write();
        let r = store.drop_start();
        handle.release_write(store);
        r
    }

    /// The position of the first element equal to `val` in the list as it
    /// stands when the lock is taken. `T`'s `==` runs while the lock is held;
    /// should it panic, the lock stays taken for good.
    pub fn search(&self, val: &T) -> (r: Option<usize>) where T: PartialEq {
        proof {
            use_type_invariant(self);
        }
        let (store, handle) = self.inner_storage.acquire_write();
        let r = store.search(val);
        handle.release_write(store);
        r
    }

    /// Puts `val` at position `index` of the list as it stands when the lock
    /// is taken and returns what stood there, or nothing if the list is no
    /// longer than `index` then.
    pub fn replace_at(&self, val: T, index: usize) -> (r: Option<T>) {
        proof {
            use_type_invariant(self);
        }
        let (mut store, handle) = self.inner_storage.acquire_write();
        let r = store.replace_at(val, index);
        handle.release_write(store);
        r
    }

    /// Turns the handle into a one-way walk over the same list that removes
    /// what it returns.
    pub fn into_iter(self) -> (iter: DLLIter<T>)
        ensures
            iter.list() == self,
    {
        DLLIter { dll: self }
    }
}

impl<T> Clone for DoubleLinkedList<T> {
    /// Another handle to the same list.
    fn clone(&self) -> (other: Self)
        ensures
            other == *self,
    {
        proof {
            use_type_invariant(self);
        }
        DoubleLinkedList { inner_storage: self.inner_storage.clone() }
    }
}

/// A walk over a shared list that takes each element out of the list as it
/// returns it. It ends when the list is found empty; other handles may push
/// or drop between two steps.
#[verifier::reject_recursive_types(T)]
pub struct DLLIter<T> {
    dll: DoubleLinkedList<T>,
}

impl<T> DLLIter<T> {
    /// The handle to the list that the walk is over.
    pub closed spec fn list(&self) -> DoubleLinkedList<T> {
        self.dll
    }

    /// The next element: the first of the list as it stands now. The walk
    /// stays on its list.
    pub fn next(&mut self) -> (r: Option<T>)
        ensures
            final(self).list() == old(self).list(),
    {
        self.dll.drop_front()
    }
}

} // verus!
