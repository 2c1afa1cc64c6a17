//! A post and the states it goes through. The state is part of the post's
//! type, so a step that a state does not allow does not compile:
//! a new post can only be published, an unmoderated one allowed or denied,
//! and a published one deleted.

use vstd::prelude::*;
use crate::user;

verus! {

/// The state of a post that was written and not yet handed in.
#[derive(Clone, Debug, PartialEq, Eq, Structural)]
pub struct New;

/// The state of a post that waits for the moderator.
#[derive(Clone, Debug, PartialEq, Eq, Structural)]
pub struct Unmoderated;

/// The state of a post that everyone can read.
#[derive(Clone, Debug, PartialEq, Eq, Structural)]
pub struct Published;

/// The state of a post that was denied or taken down.
#[derive(Clone, Debug, PartialEq, Eq, Structural)]
pub struct Deleted;

/// The states of a post.
pub trait PostState {

}

impl PostState for New {

}

impl PostState for Unmoderated {

}

impl PostState for Published {

}

impl PostState for Deleted {

}

/// The number of a post.
#[derive(Clone, Debug, PartialEq, Eq, Structural)]
pub struct Id(pub u64);

/// The title of a post.
#[derive(Clone, Debug)]
pub struct Title(pub String);

/// The text of a post.
#[derive(Clone, Debug)]
pub struct Body(pub String);

/// A post in state `S`.
pub struct Post<S: PostState> {
    pub state: S,
    pub id: Id,
    pub user_id: user::Id,
    pub title: Title,
    pub body: Body,
}

/// `after` is `before` in another state: number, author, title and text are
/// the same.
pub open spec fn same_post<A: PostState, B: PostState>(before: Post<A>, after: Post<B>) -> bool {
    &&& after.id == before.id
    &&& after.user_id == before.user_id
    &&& after.title == before.title
    &&& after.body == before.body
}

impl Post<New> {
    /// A new post.
    pub fn new(id: Id, user_id: user::Id, title: Title, body: Body) -> (p: Self)
        ensures
            p.id == id,
            p.user_id == user_id,
            p.title == title,
            p.body == body,
    {
        Post { state: New, id, user_id, title, body }
    }

    /// Hands the post in for moderation.
    pub fn publish(self) -> (p: Post<Unmoderated>)
        ensures
            same_post(self, p),
    {
        Post {
            state: Unmoderated,
            id: self.id,
            user_id: self.user_id,
            title: self.title,
            body: self.body,
        }
    }
}

impl Post<Unmoderated> {
    /// The moderator lets the post through.
    pub fn allow(self) -> (p: Post<Published>)
        ensures
            same_post(self, p),
    {
        Post {
            state: Published,
            id: self.id,
            user_id: self.user_id,
            title: self.title,
            body: self.body,
        }
    }

    /// The moderator turns the post down.
    pub fn deny(self) -> (p: Post<Deleted>)
        ensures
            same_post(self, p),
    {
        Post {
            state: Deleted,
            id: self.id,
            user_id: self.user_id,
            title: self.title,
            body: self.body,
        }
    }
}

impl Post<Published> {
    /// Takes the post down.
    pub fn delete(self) -> (p: Post<Deleted>)
        ensures
            same_post(self, p),
    {
        Post {
            state: Deleted,
            id: self.id,
            user_id: self.user_id,
            title: self.title,
            body: self.body,
        }
    }
}

} // verus!
