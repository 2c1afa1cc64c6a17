use incubator::friends::{
    is_authorized, AuthData, FriendLink, GraphQLContext, MutationRoot, QueryRoot, UserAuthData,
    UserEntity,
};

fn row(id: i32, name: &str, password: &str) -> UserEntity {
    UserEntity { id, name: name.to_owned(), password: password.to_owned() }
}

fn logged_in(id: i32, hash: &str) -> GraphQLContext {
    GraphQLContext { auth_data: Some(AuthData { id, pass_hash: hash.to_owned() }) }
}

#[test]
fn authorization_needs_credentials_that_match() {
    let anonymous = GraphQLContext { auth_data: None };
    assert!(!is_authorized(&anonymous, &Some(row(1, "a", "h"))));
    assert!(!is_authorized(&logged_in(1, "h"), &None));
    assert!(!is_authorized(&logged_in(1, "h"), &Some(row(1, "a", "other"))));
    assert!(is_authorized(&logged_in(1, "h"), &Some(row(1, "a", "h"))));
}

#[test]
fn user_is_shown_with_friends() {
    let ctx = logged_in(1, "h");
    let friends = vec![row(2, "b", "x"), row(3, "c", "y")];
    let user = QueryRoot::getUser(&ctx, Some(row(1, "a", "h")), Some(friends)).ok().unwrap();
    assert_eq!((user.id, user.name.as_str()), (1, "a"));
    let shown: Vec<(i32, &str)> = user.friends.iter().map(|f| (f.id, f.name.as_str())).collect();
    assert_eq!(shown, vec![(2, "b"), (3, "c")]);
    let alone = QueryRoot::getUser(&ctx, Some(row(1, "a", "h")), None).ok().unwrap();
    assert_eq!(alone.friends.len(), 0);
    let refused = QueryRoot::getUser(&ctx, Some(row(1, "a", "bad")), Some(vec![]));
    assert_eq!(refused.err().unwrap(), "Unauthorized");
    let anonymous = GraphQLContext { auth_data: None };
    let refused = QueryRoot::getUser(&anonymous, Some(row(1, "a", "h")), None);
    assert_eq!(refused.err().unwrap(), "Unauthorized");
}

#[test]
fn user_is_created_unless_the_name_is_taken() {
    let new_user = UserAuthData { name: "n".to_owned(), password: "plain".to_owned() };
    let to_store = MutationRoot::createUser(new_user, "hashed".to_owned());
    assert_eq!((to_store.name.as_str(), to_store.password.as_str()), ("n", "hashed"));
    let user = MutationRoot::user_created(Some(row(5, "n", "hashed"))).ok().unwrap();
    assert_eq!((user.id, user.name.as_str(), user.friends.len()), (5, "n", 0));
    assert_eq!(
        MutationRoot::user_created(None).err().unwrap(),
        "User with this username already exists"
    );
}

#[test]
fn friend_is_removed_by_steps() {
    let ctx = logged_in(1, "h");
    let me = Some(row(1, "a", "h"));
    let link = MutationRoot::removeFriend(&ctx, &me, &Some(row(9, "f", "z"))).ok().unwrap();
    assert!(link == FriendLink { user_id: 1, friend_id: 9 });
    assert_eq!(
        MutationRoot::removeFriend(&ctx, &me, &None).err().unwrap(),
        "this user doesn't exist"
    );
    assert_eq!(
        MutationRoot::removeFriend(&ctx, &None, &Some(row(9, "f", "z"))).err().unwrap(),
        "Unauthorized"
    );
    assert_eq!(
        MutationRoot::removeFriend(&GraphQLContext { auth_data: None }, &me, &None).err().unwrap(),
        "Unauthorized"
    );
    assert_eq!(
        MutationRoot::friend_removed("f", Some(1)).ok().unwrap().text,
        "user f was successfully removed from your friends list"
    );
    assert_eq!(
        MutationRoot::friend_removed("f", Some(0)).ok().unwrap().text,
        "user f is not your friend"
    );
    assert_eq!(
        MutationRoot::friend_removed("f", Some(2)).ok().unwrap().text,
        "user f is not your friend"
    );
    assert_eq!(MutationRoot::friend_removed("f", None).err().unwrap(), "error ocured");
}

#[test]
fn friend_is_added_by_steps() {
    let ctx = logged_in(1, "h");
    let me = Some(row(1, "a", "h"));
    let link = MutationRoot::addFriend(&ctx, &me, &Some(row(9, "f", "z"))).ok().unwrap();
    assert!(link == FriendLink { user_id: 1, friend_id: 9 });
    assert_eq!(
        MutationRoot::addFriend(&ctx, &me, &None).err().unwrap(),
        "Not Found user with this name"
    );
    assert_eq!(
        MutationRoot::addFriend(&ctx, &Some(row(1, "a", "no")), &None).err().unwrap(),
        "Unauthorized"
    );
    assert_eq!(
        MutationRoot::friend_added("f", true).ok().unwrap().text,
        "You have successfuly added new friend"
    );
    assert_eq!(
        MutationRoot::friend_added("f", false).err().unwrap(),
        "You already friend with f"
    );
}
