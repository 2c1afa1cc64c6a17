use incubator::dispatch::{Storage, User, UserRepositoryD, UserRepositoryS};
use incubator::sized;
use incubator::sized::{create_user_answer, CommandHandler, CreateUser, UserRepository};
use std::collections::HashMap;

fn user(id: u64, activated: bool) -> User {
    User { id, email: format!("email{}@example.com", id), activated }
}

#[test]
fn static_repository_keeps_users() {
    let mut repo = UserRepositoryS::new(HashMap::<u64, User>::new());
    repo.add(1, user(1, true));
    repo.add(2, user(2, false));
    assert_eq!(repo.get(&2).map(|u| u.activated), Some(false));
    repo.update(2, user(2, true));
    assert_eq!(repo.get(&2).map(|u| u.activated), Some(true));
    assert_eq!(repo.remove(&1).map(|u| u.id), Some(1));
    assert!(repo.remove(&1).is_none());
    assert!(repo.get(&1).is_none());
    repo.update(7, user(7, false));
    assert_eq!(repo.get(&7).map(|u| u.email.clone()), Some("email7@example.com".to_owned()));
}

#[test]
fn dynamic_repository_keeps_users() {
    let mut repo = UserRepositoryD::new(Box::new(HashMap::<u64, User>::new()));
    repo.add(1, user(1, true));
    repo.add(2, user(2, false));
    assert_eq!(repo.get(&2).map(|u| u.activated), Some(false));
    repo.update(2, user(2, true));
    assert_eq!(repo.get(&2).map(|u| u.activated), Some(true));
    assert_eq!(repo.remove(&1).map(|u| u.id), Some(1));
    assert!(repo.get(&1).is_none());
}

#[test]
fn storage_is_a_map() {
    let mut m = HashMap::<u64, u8>::new();
    Storage::set(&mut m, 1, 10);
    Storage::set(&mut m, 1, 11);
    assert_eq!(Storage::get(&m, &1), Some(&11));
    assert_eq!(Storage::remove(&mut m, &1), Some(11));
    assert_eq!(Storage::remove(&mut m, &1), None);
    assert_eq!(Storage::get(&m, &1), None);
}

#[test]
fn user_is_created_once() {
    let repo = sized::UserRepositoryS::new(HashMap::<u64, User>::new());
    repo.add(2, user(2, false));
    let cmd = CreateUser {};
    let first = user(1, true).handle_command(&cmd, &repo);
    assert_eq!(first, Ok(()));
    assert_eq!(repo.get(&1).map(|u| u.activated), Some(true));
    let again = user(1, false).handle_command(&cmd, &repo);
    assert_eq!(again, Err("User with this Id already exists"));
    assert_eq!(repo.get(&1).map(|u| u.activated), Some(true));
    let boxed: Box<dyn UserRepository> = Box::new(repo);
    assert_eq!(
        user(2, true).handle_command(&cmd, &*boxed),
        Err("User with this Id already exists")
    );
    boxed.update(2, user(2, true));
    assert_eq!(boxed.remove(&2).map(|u| u.activated), Some(true));
    assert_eq!(user(2, true).handle_command(&cmd, &*boxed), Ok(()));
    assert_eq!(create_user_answer(&None), Ok(()));
    assert_eq!(
        create_user_answer(&Some(user(3, true))),
        Err("User with this Id already exists")
    );
}
