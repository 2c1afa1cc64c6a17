use incubator::error::Error;
use incubator::post::{Body, Id, Post, Title};
use incubator::user;

fn draft() -> Post<incubator::post::New> {
    Post::new(
        Id(1),
        user::Id(1),
        Title("aa".to_owned()),
        Body("body".to_owned()),
    )
}

#[test]
fn post_keeps_its_content_through_its_states() {
    let unmoderated = draft().publish();
    assert_eq!(unmoderated.id, Id(1));
    let denied = unmoderated.deny();
    assert_eq!(denied.state, incubator::post::Deleted);
    assert_eq!(denied.title.0, "aa");
    let published = draft().publish().allow();
    assert_eq!(published.state, incubator::post::Published);
    assert_eq!(published.user_id, user::Id(1));
    let deleted = published.delete();
    assert_eq!(deleted.state, incubator::post::Deleted);
    assert_eq!(deleted.id, Id(1));
    assert_eq!(deleted.user_id, user::Id(1));
    assert_eq!(deleted.title.0, "aa");
    assert_eq!(deleted.body.0, "body");
}

#[test]
fn error_is_filled_in_step_by_step() {
    let unknown = Error::default();
    assert_eq!(unknown.code, "UNKNOWN");
    assert_eq!(unknown.status, 500);
    assert_eq!(unknown.message, "Unknown error has happened.");
    let mut err = Error::new("NO_USER");
    assert_eq!(err.code, "NO_USER");
    assert_eq!(err.status, 500);
    assert_eq!(err.message, "Unknown error has happened.");
    err.status(404).message("User not found");
    assert_eq!(err.code, "NO_USER");
    assert_eq!(err.status, 404);
    assert_eq!(err.message, "User not found");
    err.message("gone").status(410);
    assert_eq!((err.status, err.message.as_str()), (410, "gone"));
}
