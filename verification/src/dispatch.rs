//! A repository of users over a storage that is chosen either when the
//! program is compiled or while it runs.

use vstd::prelude::*;
use std::collections::HashMap;
use std::marker::PhantomData;

verus! {

/// A place to keep values under keys.
pub trait Storage<K, V> {
    /// What is kept, by key.
    spec fn content(&self) -> Map<K, V>;

    /// Keeps `val` under `key`, in place of what was kept there.
    fn set(&mut self, key: K, val: V)
        ensures
            final(self).content() == old(self).content().insert(key, val),
    ;

    /// What is kept under `key`.
    fn get(&self, key: &K) -> (r: Option<&V>)
        ensures
            r == (if self.content().contains_key(*key) {
                Some(&self.content()[*key])
            } else {
                None
            }),
    ;

    /// Takes out what is kept under `key` and returns it.
    fn remove(&mut self, key: &K) -> (r: Option<V>)
        ensures
            final(self).content() == old(self).content().remove(*key),
            r == (if old(self).content().contains_key(*key) {
                Some(old(self).content()[*key])
            } else {
                None
            }),
    ;
}

impl<V> Storage<u64, V> for HashMap<u64, V> {
    open spec fn content(&self) -> Map<u64, V> {
        self@
    }

    fn set(&mut self, key: u64, val: V) {
        broadcast use vstd::std_specs::hash::group_hash_axioms;

        self.insert(key, val);
    }

    fn get(&self, key: &u64) -> (r: Option<&V>) {
        broadcast use vstd::std_specs::hash::group_hash_axioms;

        HashMap::get(self, key)
    }

    fn remove(&mut self, key: &u64) -> (r: Option<V>) {
        broadcast use vstd::std_specs::hash::group_hash_axioms;

        HashMap::remove(self, key)
    }
}

/// A user.
#[derive(Debug, Clone)]
pub struct User {
    pub id: u64,
    pub email: String,
    pub activated: bool,
}

/// A repository over a storage that is chosen while the program runs.
pub struct UserRepositoryD {
    user_store: Box<dyn Storage<u64, User>>,
}

impl UserRepositoryD {
    /// The users kept, by key.
    pub closed spec fn users(&self) -> Map<u64, User> {
        (*self.user_store).content()
    }

    /// A repository over `user_store`. The storage is known only by what
    /// it does from here on: `users` starts as whatever it holds.
    pub fn new(user_store: Box<dyn Storage<u64, User>>) -> (r: Self) {
        UserRepositoryD { user_store }
    }

    /// The user kept under `pk`.
    pub fn get(&mut self, pk: &u64) -> (r: Option<&User>)
        ensures
            final(self).users() == old(self).users(),
            r == (if old(self).users().contains_key(*pk) {
                Some(&old(self).users()[*pk])
            } else {
                None
            }),
    {
        self.user_store.get(pk)
    }

    /// Keeps `val` under `key`.
    pub fn add(&mut self, key: u64, val: User)
        ensures
            final(self).users() == old(self).users().insert(key, val),
    {
        self.user_store.set(key, val)
    }

    /// Takes out the user kept under `key`.
    pub fn remove(&mut self, key: &u64) -> (r: Option<User>)
        ensures
            final(self).users() == old(self).users().remove(*key),
            r == (if old(self).users().contains_key(*key) {
                Some(old(self).users()[*key])
            } else {
                None
            }),
    {
        self.user_store.remove(key)
    }

    /// Keeps `val` under `key` in place of what was kept there.
    pub fn update(&mut self, key: u64, val: User)
        ensures
            final(self).users() == old(self).users().insert(key, val),
    {
        self.user_store.remove(&key);
        self.user_store.set(key, val);
        assert(old(self).users().remove(key).insert(key, val) =~= old(self).users().insert(
            key,
            val,
        ));
    }
}

/// A repository over a storage whose type is chosen when the program is
/// compiled.
pub struct UserRepositoryS<T: Storage<K, User>, K> {
    user_store: T,
    ph_key: PhantomData<K>,
}

impl<T: Storage<K, User>, K> UserRepositoryS<T, K> {
    /// The users kept, by key.
    pub closed spec fn users(&self) -> Map<K, User> {
        self.user_store.content()
    }

    /// A repository over `user_store`.
    pub fn new(user_store: T) -> (r: Self)
        ensures
            r.users() == user_store.content(),
    {
        UserRepositoryS { user_store, ph_key: PhantomData }
    }

    /// The user kept under `pk`.
    pub fn get(&mut self, pk: &K) -> (r: Option<&User>)
        ensures
            final(self).users() == old(self).users(),
            r == (if old(self).users().contains_key(*pk) {
                Some(&old(self).users()[*pk])
            } else {
                None
            }),
    {
        self.user_store.get(pk)
    }

    /// Keeps `val` under `key`.
    pub fn add(&mut self, key: K, val: User)
        ensures
            final(self).users() == old(self).users().insert(key, val),
    {
        self.user_store.set(key, val)
    }

    /// Takes out the user kept under `key`.
    pub fn remove(&mut self, key: &K) -> (r: Option<User>)
        ensures
            final(self).users() == old(self).users().remove(*key),
            r == (if old(self).users().contains_key(*key) {
                Some(old(self).users()[*key])
            } else {
                None
            }),
    {
        self.user_store.remove(key)
    }

    /// Keeps `val` under `key` in place of what was kept there.
    pub fn update(&mut self, key: K, val: User)
        ensures
            final(self).users() == old(self).users().insert(key, val),
    {
        self.user_store.remove(&key);
        self.user_store.set(key, val);
        assert(old(self).users().remove(key).insert(key, val) =~= old(self).users().insert(
            key,
            val,
        ));
    }
}

} // verus!
