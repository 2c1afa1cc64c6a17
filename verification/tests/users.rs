use incubator::users::{contains_text, User, UserId, UserName, UserRepository};

fn setup() -> UserRepository {
    let mut rep = UserRepository::new();
    let u1 = User {
        Name: UserName("User1_bbbb_aaa".to_owned()),
        Id: UserId(1),
    };
    rep.insert(u1);
    let u2 = User {
        Name: UserName("User2_aaa_bbb".to_owned()),
        Id: UserId(2),
    };
    rep.insert(u2);
    let u3 = User {
        Name: UserName("User3_bbb".to_owned()),
        Id: UserId(3),
    };
    rep.insert(u3);
    let u4 = User {
        Name: UserName("User4_d_aadaa".to_owned()),
        Id: UserId(4),
    };
    rep.insert(u4);
    let u5 = User {
        Name: UserName("User5_abbaa".to_owned()),
        Id: UserId(5),
    };
    rep.insert(u5);
    let u6 = User {
        Name: UserName("User6_baaab".to_owned()),
        Id: UserId(6),
    };
    rep.insert(u6);
    let u7 = User {
        Name: UserName("User7_aaa".to_owned()),
        Id: UserId(7),
    };
    rep.insert(u7);
    rep
}

#[test]
fn test_get_user_with_correct_id() {
    let r = setup();
    assert_eq!(UserId::from(1), r.get(1).unwrap().Id);
    assert_eq!(UserId::from(2), r.get(2).unwrap().Id);
    assert_eq!(UserId::from(3), r.get(3).unwrap().Id);
    assert_eq!(UserId::from(4), r.get(4).unwrap().Id);
    assert_eq!(UserId::from(5), r.get(5).unwrap().Id);
    assert_eq!(UserId::from(6), r.get(6).unwrap().Id);
    assert_eq!(UserId::from(7), r.get(7).unwrap().Id);
}

#[test]
fn test_no_user_if_id_not_present() {
    let r = setup();
    assert_eq!(None, r.get(8));
    assert_eq!(None, r.get(9));
    assert_eq!(None, r.get(10));
    assert_eq!(None, r.get(11));
    assert_eq!(None, r.get(12));
    assert_eq!(None, r.get(13));
    assert_eq!(None, r.get(14));
}

#[test]
fn test_get_users_by_multiple_ids() {
    let r = setup();
    let users = r.get_users(vec![1, 2, 3, 7]);
    let mut iter = users.into_iter();
    assert!(iter.next().unwrap().is_some());
    assert!(iter.next().unwrap().is_some());
    assert!(iter.next().unwrap().is_some());
    assert!(iter.next().unwrap().is_some());
}

#[test]
fn test_search_users_by_name() {
    let r = setup();
    let users = r.search_users("aaa");
    for user in users {
        assert!(user.1.Name.0.contains("aaa"));
    }
}

#[test]
fn search_finds_exactly_the_names_that_hold_the_text() {
    let r = setup();
    let found = r.search_users("aaa");
    let mut ids: Vec<u64> = found.keys().cloned().collect();
    ids.sort();
    assert_eq!(ids, vec![1, 2, 6, 7]);
    assert_eq!(found.get(&6).unwrap().Name.0, "User6_baaab");
    assert_eq!(r.search_users("").len(), 7);
    assert_eq!(r.search_users("zzz").len(), 0);
    assert_eq!(r.search_users("User3_bbb").len(), 1);
}

#[test]
fn answers_are_collected_in_a_set() {
    let mut r = setup();
    let answers = r.get_users(vec![1, 1, 8, 9, 2]);
    assert_eq!(answers.len(), 3);
    assert!(answers.contains(&None));
    assert!(answers.contains(&r.get(1)));
    assert!(answers.contains(&r.get(2)));
    assert_eq!(r.get_users(vec![]).len(), 0);
    let again = User { Id: UserId(1), Name: UserName("Other".to_owned()) };
    let before = r.insert(again.clone());
    assert_eq!(before.unwrap().Name.0, "User1_bbbb_aaa");
    assert_eq!(r.get(1), Some(again));
    assert_eq!(r.insert(User { Id: UserId(99), Name: UserName("n".to_owned()) }), None);
}

#[test]
fn text_is_found_where_it_stands() {
    let c = |s: &str| -> Vec<char> { s.chars().collect() };
    for (hay, needle) in [
        ("abcabd", "abd"), ("abcabd", "abe"), ("", ""), ("a", ""), ("", "a"), ("aaa", "aaaa"),
        ("xaaay", "aaa"), ("ab", "b"), ("ab", "a"), ("жд", "д"),
    ] {
        assert_eq!(contains_text(&c(hay), &c(needle)), hay.contains(needle), "{} {}", hay, needle);
    }
}
