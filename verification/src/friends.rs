//! Users and their friends: what the service answers, decided from what the
//! store returned.
//!
//! Each request is served in two steps around the store. The first step
//! checks authorization and what was looked up, and names the row to write
//! or refuses; the caller performs the write; the second step turns the
//! outcome of the write into the answer.

use vstd::prelude::*;
use vstd::string::StringExecFns;

verus! {

/// The root of the queries.
pub struct QueryRoot;

/// The root of the mutations.
pub struct MutationRoot;

/// Who makes the request: the credentials from the cookie, if there were any.
pub struct GraphQLContext {
    pub auth_data: Option<AuthData>,
}

/// The credentials of a user who logged in: the user's number and the hash
/// of the password.
#[derive(Debug)]
pub struct AuthData {
    pub id: i32,
    pub pass_hash: String,
}

/// Name and password as typed in at registration or login.
pub struct UserAuthData {
    pub name: String,
    pub password: String,
}

/// A row of the users table.
pub struct UserEntity {
    pub id: i32,
    pub name: String,
    pub password: String,
}

/// A row of the users table before the store numbered it.
pub struct NewUserEntity {
    pub name: String,
    pub password: String,
}

/// A user as shown to clients.
pub struct User {
    pub id: i32,
    pub name: String,
    pub friends: Vec<Friend>,
}

/// A friend as shown in a user's list.
#[derive(Debug)]
pub struct Friend {
    pub id: i32,
    pub name: String,
}

/// A row of the friends table: `friend_id` is a friend of `user_id`.
#[derive(PartialEq, Eq, Structural)]
pub struct FriendLink {
    pub user_id: i32,
    pub friend_id: i32,
}

/// The answer to a mutation that returns nothing but a message.
pub struct OpResult {
    pub text: String,
}

/// A request is authorized where it carries credentials, the user they name
/// was found, and the password hashes agree.
pub open spec fn authorized(ctx: GraphQLContext, found: Option<UserEntity>) -> bool {
    ctx.auth_data is Some && found is Some && found->Some_0.password@
        == ctx.auth_data->Some_0.pass_hash@
}

/// Whether the request is authorized; `found` is the user that the
/// credentials name, as the store returned it.
pub fn is_authorized(ctx: &GraphQLContext, found: &Option<UserEntity>) -> (b: bool)
    ensures
        b == authorized(*ctx, *found),
{
    let ad = match &ctx.auth_data {
        Some(ad) => ad,
        None => {
            return false;
        },
    };
    match found {
        Some(u) => u.password == ad.pass_hash,
        None => false,
    }
}

/// The friends as shown to clients, in the order of the rows.
pub open spec fn friends_shown(rows: Seq<UserEntity>, shown: Seq<Friend>) -> bool {
    &&& shown.len() == rows.len()
    &&& forall|i: int|
        0 <= i < rows.len() ==> (#[trigger] shown[i]).id == rows[i].id && shown[i].name@
            == rows[i].name@
}

impl QueryRoot {
    /// The user who asks, with the list of friends. Refused as
    /// `Unauthorized` where the request is not authorized. `friends` are the
    /// rows of the user's friends, or nothing if the store failed to return
    /// them; the list is then empty.
    #[allow(non_snake_case)]
    pub fn getUser(
        context: &GraphQLContext,
        found: Option<UserEntity>,
        friends: Option<Vec<UserEntity>>,
    ) -> (r: Result<User, String>)
        ensures
            !authorized(*context, found) ==> (r matches Err(e) && e@ == "Unauthorized"@),
            authorized(*context, found) ==> (r matches Ok(u) && u.id == found->Some_0.id && u.name@
                == found->Some_0.name@ && match friends {
                Some(rows) => friends_shown(rows@, u.friends@),
                None => u.friends@.len() == 0,
            }),
    {
        if !is_authorized(context, &found) {
            return Err(String::from_str("Unauthorized"));
        }
        let user = match found {
            Some(u) => u,
            None => {
                return Err(String::from_str("Unauthorized"));
            },
        };
        let mut shown: Vec<Friend> = Vec::new();
        match friends {
            Some(rows) => {
                let mut rows = rows;
                let ghost all = rows@;
                let mut back: Vec<Friend> = Vec::new();
                while rows.len() > 0
                    invariant
                        rows@.len() + back@.len() == all.len(),
                        rows@ == all.take(rows@.len() as int),
                        forall|j: int|
                            0 <= j < back@.len() ==> (#[trigger] back@[j]).id == all[all.len() - 1
                                - j].id && back@[j].name@ == all[all.len() - 1 - j].name@,
                    decreases rows.len(),
                {
                    match rows.pop() {
                        Some(row) => back.push(Friend { id: row.id, name: row.name }),
                        None => {},
                    }
                }
                let ghost turned = back@;
                while back.len() > 0
                    invariant
                        shown@.len() + back@.len() == turned.len(),
                        back@ == turned.take(back@.len() as int),
                        forall|j: int|
                            0 <= j < shown@.len() ==> #[trigger] shown@[j] == turned[turned.len()
                                - 1 - j],
                    decreases back.len(),
                {
                    match back.pop() {
                        Some(f) => shown.push(f),
                        None => {},
                    }
                }
            },
            None => {},
        }
        Ok(User { id: user.id, name: user.name, friends: shown })
    }
}

/// `text` is `before`, then `name`, then `after`.
pub open spec fn around(before: Seq<char>, name: Seq<char>, after: Seq<char>) -> Seq<char> {
    before + name + after
}

/// The message `before`, `name`, `after` in one string.
fn message(before: &str, name: &str, after: &str) -> (s: String)
    ensures
        s@ == around(before@, name@, after@),
{
    let mut s = String::from_str(before);
    s.append(name);
    s.append(after);
    s
}

impl MutationRoot {
    /// The row to store for a new user: the name, and the hash of the
    /// password in place of the password.
    #[allow(non_snake_case)]
    pub fn createUser(new_user: UserAuthData, password_hash: String) -> (row: NewUserEntity)
        ensures
            row.name == new_user.name,
            row.password == password_hash,
    {
        NewUserEntity { name: new_user.name, password: password_hash }
    }

    /// The answer to a registration: the new user, without friends, if the
    /// store took the row and returned it; else the refusal for a name that
    /// is taken.
    pub fn user_created(stored: Option<UserEntity>) -> (r: Result<User, String>)
        ensures
            match stored {
                Some(row) => r matches Ok(u) && u.id == row.id && u.name == row.name
                    && u.friends@.len() == 0,
                None => r matches Err(e) && e@ == "User with this username already exists"@,
            },
    {
        match stored {
            Some(row) => Ok(User { id: row.id, name: row.name, friends: Vec::new() }),
            None => Err(String::from_str("User with this username already exists")),
        }
    }

    /// The friends row to delete: refused as `Unauthorized` where the
    /// request is not authorized, and, that being in order, where no user
    /// has the friend's name. `me` is the user that the credentials name,
    /// `friend` the user of the name that was asked for.
    #[allow(non_snake_case)]
    pub fn removeFriend(
        context: &GraphQLContext,
        me: &Option<UserEntity>,
        friend: &Option<UserEntity>,
    ) -> (r: Result<FriendLink, String>)
        ensures
            !authorized(*context, *me) ==> (r matches Err(e) && e@ == "Unauthorized"@),
            authorized(*context, *me) && friend is None ==> (r matches Err(e) && e@
                == "this user doesn't exist"@),
            authorized(*context, *me) && friend is Some ==> r == Ok::<FriendLink, String>(
                FriendLink { user_id: context.auth_data->Some_0.id, friend_id: friend->Some_0.id },
            ),
    {
        if !is_authorized(context, me) {
            return Err(String::from_str("Unauthorized"));
        }
        let user_id = match &context.auth_data {
            Some(ad) => ad.id,
            None => 0,
        };
        match friend {
            None => Err(String::from_str("this user doesn't exist")),
            Some(user) => Ok(FriendLink { user_id, friend_id: user.id }),
        }
    }

    /// The answer once the store was asked to delete the row: `deleted` is
    /// the number of rows that went, or nothing if the store failed.
    pub fn friend_removed(name: &str, deleted: Option<usize>) -> (r: Result<OpResult, String>)
        ensures
            match deleted {
                Some(n) => r matches Ok(o) && o.text@ == (if n == 1 {
                    around(
                        "user "@,
                        name@,
                        " was successfully removed from your friends list"@,
                    )
                } else {
                    around("user "@, name@, " is not your friend"@)
                }),
                None => r matches Err(e) && e@ == "error ocured"@,
            },
    {
        match deleted {
            Some(l) => {
                if l == 1 {
                    Ok(
                        OpResult {
                            text: message(
                                "user ",
                                name,
                                " was successfully removed from your friends list",
                            ),
                        },
                    )
                } else {
                    Ok(OpResult { text: message("user ", name, " is not your friend") })
                }
            },
            None => Err(String::from_str("error ocured")),
        }
    }

    /// The friends row to insert: refused as `Unauthorized` where the
    /// request is not authorized, and, that being in order, where no user
    /// has the friend's name.
    #[allow(non_snake_case)]
    pub fn addFriend(
        context: &GraphQLContext,
        me: &Option<UserEntity>,
        friend: &Option<UserEntity>,
    ) -> (r: Result<FriendLink, String>)
        ensures
            !authorized(*context, *me) ==> (r matches Err(e) && e@ == "Unauthorized"@),
            authorized(*context, *me) && friend is None ==> (r matches Err(e) && e@
                == "Not Found user with this name"@),
            authorized(*context, *me) && friend is Some ==> r == Ok::<FriendLink, String>(
                FriendLink { user_id: context.auth_data->Some_0.id, friend_id: friend->Some_0.id },
            ),
    {
        if !is_authorized(context, me) {
            return Err(String::from_str("Unauthorized"));
        }
        let user_id = match &context.auth_data {
            Some(ad) => ad.id,
            None => 0,
        };
        match friend {
            Some(user) => Ok(FriendLink { user_id, friend_id: user.id }),
            None => Err(String::from_str("Not Found user with this name")),
        }
    }

    /// The answer once the store was asked to insert the row: success, or,
    /// where the store refused, that the two are friends already.
    pub fn friend_added(name: &str, inserted: bool) -> (r: Result<OpResult, String>)
        ensures
            inserted ==> (r matches Ok(o) && o.text@ == "You have successfuly added new friend"@),
            !inserted ==> (r matches Err(e) && e@ == around(
                "You already friend with "@,
                name@,
                ""@,
            )),
    {
        if inserted {
            Ok(OpResult { text: String::from_str("You have successfuly added new friend") })
        } else {
            Err(message("You already friend with ", name, ""))
        }
    }
}

} // verus!
