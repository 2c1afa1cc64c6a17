use incubator::age::{Day, User};

#[test]
fn counts_age() {
    for ((y, m, d), expected) in vec![
        ((1990, 6, 4), 29),
        ((1990, 7, 4), 28),
        ((0, 1, 1), 2019),
        ((1970, 1, 1), 49),
        ((2019, 6, 25), 0),
    ] {
        let user = User::with_birthdate(y, m, d);
        assert_eq!(user.age(), expected);
    }
}

#[test]
fn zero_if_birthdate_in_future() {
    for ((y, m, d), expected) in vec![
        ((2032, 6, 25), 0),
        //((2016, 6, 27), 0),
        ((3000, 6, 27), 0),
        ((9999, 6, 27), 0),
    ] {
        let user = User::with_birthdate(y, m, d);
        assert_eq!(user.age(), expected);
    }
}

#[test]
fn is_adult_border_values() {
    for ((y, m, d), expected) in vec![
        ((2032, 6, 25), false),
        ((2001, 06, 26), true),
        ((2001, 06, 27), false),
        ((2002, 06, 26), false),
        ((2001, 07, 26), false),
    ] {
        let user = User::with_birthdate(y, m, d);
        assert_eq!(user.is_adult(), expected);
    }
}

#[test]
fn dates_exist_as_the_calendar_says() {
    assert!(User::try_with_birthdate(2016, 2, 29).is_some());
    assert!(User::try_with_birthdate(2015, 2, 29).is_none());
    assert!(User::try_with_birthdate(1900, 2, 29).is_none());
    assert!(User::try_with_birthdate(2000, 2, 29).is_some());
    assert!(User::try_with_birthdate(-4, 2, 29).is_some());
    assert!(User::try_with_birthdate(2015, 0, 14).is_none());
    assert!(User::try_with_birthdate(2015, 13, 1).is_none());
    assert!(User::try_with_birthdate(2015, 4, 31).is_none());
    assert!(User::try_with_birthdate(2015, 4, 0).is_none());
    assert!(User::try_with_birthdate(2015, 12, 31).is_some());
    assert!(User::try_with_birthdate(262143, 12, 31).is_some());
    assert!(User::try_with_birthdate(262144, 1, 1).is_none());
    assert!(User::try_with_birthdate(-262144, 1, 1).is_some());
    assert!(User::try_with_birthdate(-262145, 12, 31).is_none());
}

#[test]
fn age_is_counted_in_full_years() {
    let today = Day { year: 2019, month: 6, day: 26 };
    let user = User::with_birthdate(2001, 6, 26);
    assert_eq!(user.age_on(today), Some(18));
    assert_eq!(user.age_on(Day { year: 2019, month: 6, day: 25 }), Some(17));
    assert_eq!(user.age_on(Day { year: 2001, month: 12, day: 31 }), Some(0));
    assert_eq!(user.age_on(Day { year: 1999, month: 1, day: 1 }), Some(0));
    let old = User::with_birthdate(-262143, 1, 1);
    assert_eq!(old.age_on(today), None);
    assert_eq!(old.try_age(), None);
    assert_eq!(old.try_is_adult(), None);
    let edge = User::with_birthdate(-63516, 1, 1);
    assert_eq!(edge.age_on(today), Some(65535));
    assert_eq!(User::with_birthdate(-63517, 1, 1).age_on(today), None);
    assert_eq!(user.try_age(), Some(18));
    assert_eq!(user.try_is_adult(), Some(true));
}
