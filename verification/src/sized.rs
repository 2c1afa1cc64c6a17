//! A repository of users behind a lock, and a command that is handled
//! against a repository known only by its trait.
//!
//! The storage's own methods run while the lock is held. If one of them
//! panics, the lock is not given back, and every later call on the
//! repository waits forever.

use vstd::prelude::*;
use vstd::rwlock::RwLock;
use std::marker::PhantomData;
use std::sync::Arc;
use crate::dispatch::{Storage, User};

verus! {

/// A repository over a storage behind a lock. What a call meets in the
/// storage depends on what other holders of the lock did before it.
#[verifier::reject_recursive_types(T)]
#[verifier::reject_recursive_types(K)]
pub struct UserRepositoryS<T: Storage<K, User>, K> {
    lock: Arc<RwLock<T, spec_fn(T) -> bool>>,
    ph_key: PhantomData<K>,
}

impl<T: Storage<K, User>, K> UserRepositoryS<T, K> {
    /// The lock takes any storage.
    #[verifier::type_invariant]
    spec fn takes_all(&self) -> bool {
        forall|t: T| #[trigger] self.lock.inv(t)
    }

    /// A repository over `user_store`.
    pub fn new(user_store: T) -> (r: Self) {
        let ghost pred: spec_fn(T) -> bool = |t: T| true;
        UserRepositoryS {
            lock: Arc::new(RwLock::new(user_store, Ghost(pred))),
            ph_key: PhantomData,
        }
    }

    /// A copy of the user kept under `pk` when the lock is taken.
    pub fn get(&self, pk: &K) -> (r: Option<User>) {
        proof {
            use_type_invariant(self);
        }
        let (store, handle) = self.lock.acquire_write();
        let r = match store.get(pk) {
            None => None,
            Some(u) => Some(u.clone()),
        };
        handle.release_write(store);
        r
    }

    /// Keeps `val` under `key`.
    pub fn add(&self, key: K, val: User) {
        proof {
            use_type_invariant(self);
        }
        let (mut store, handle) = self.lock.acquire_write();
        store.set(key, val);
        handle.release_write(store);
    }

    /// Takes out the user kept under `key` when the lock is taken.
    pub fn remove(&self, key: &K) -> (r: Option<User>) {
        proof {
            use_type_invariant(self);
        }
        let (mut store, handle) = self.lock.acquire_write();
        let r = store.remove(key);
        handle.release_write(store);
        r
    }

    /// Keeps `val` under `key` in place of what is kept there. The lock is
    /// held from the removal to the end, so no other call falls in between.
    pub fn update(&self, key: K, val: User) {
        proof {
            use_type_invariant(self);
        }
        let (mut store, handle) = self.lock.acquire_write();
        store.remove(&key);
        store.set(key, val);
        handle.release_write(store);
    }
}

/// A repository of users under numbers, shared by its holders.
pub trait UserRepository {
    /// A copy of the user kept under `pk`.
    fn get(&self, pk: &u64) -> Option<User>;

    /// Keeps `val` under `key`.
    fn add(&self, key: u64, val: User);

    /// Takes out the user kept under `key`.
    fn remove(&self, key: &u64) -> Option<User>;

    /// Keeps `val` under `key` in place of what is kept there.
    fn update(&self, key: u64, val: User);
}

impl<TStorage: Storage<u64, User>> UserRepository for UserRepositoryS<TStorage, u64> {
    fn get(&self, pk: &u64) -> Option<User> {
        UserRepositoryS::get(self, pk)
    }

    fn add(&self, key: u64, val: User) {
        UserRepositoryS::add(self, key, val);
    }

    fn remove(&self, key: &u64) -> Option<User> {
        UserRepositoryS::remove(self, key)
    }

    fn update(&self, key: u64, val: User) {
        UserRepositoryS::update(self, key, val);
    }
}

/// A command.
pub trait Command {

}

/// Something that handles the commands `C` in a context of its choice.
pub trait CommandHandler<C: Command> {
    type Context: ?Sized;

    type Result;

    /// Handles `cmd` in `ctx`.
    fn handle_command(&self, cmd: &C, ctx: &Self::Context) -> Self::Result;
}

/// The command to create a user.
#[derive(Debug)]
pub struct CreateUser {}

impl Command for CreateUser {

}

/// What the creation of a user answers where the repository returned
/// `existing` for the user's number: a refusal if that is a user.
pub fn create_user_answer(existing: &Option<User>) -> (r: Result<(), &'static str>)
    ensures
        existing is Some ==> (r matches Err(e) && e@ == "User with this Id already exists"@),
        existing is None ==> r is Ok,
{
    match existing {
        Some(_) => Err("User with this Id already exists"),
        None => Ok(()),
    }
}

impl CommandHandler<CreateUser> for User {
    type Context = dyn UserRepository;

    type Result = Result<(), &'static str>;

    /// Creates this user in `ctx` unless a user is kept under its number:
    /// the answer is a refusal exactly where the repository returned one,
    /// and there is no other refusal.
    fn handle_command(&self, cmd: &CreateUser, ctx: &Self::Context) -> (r: Self::Result)
        ensures
            r matches Err(e) ==> e@ == "User with this Id already exists"@,
    {
        let existing = ctx.get(&self.id);
        let answer = create_user_answer(&existing);
        if answer.is_ok() {
            ctx.add(self.id, self.clone());
        }
        answer
    }
}

} // verus!
