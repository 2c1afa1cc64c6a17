use incubator::auth::{auth_json, auth_token, authorize, password_hash};
use incubator::crypto::{
    generate_password, get_file_hash, get_password_hash, new_acces_token, select_rand_val,
    select_val, symbol_at, token_char,
};
use incubator::friends::{UserAuthData, UserEntity};

#[test]
fn password_is_made_of_the_symbols() {
    let alphabet: Vec<char> = "qwertyuiop[]asdfghjklzxcvbnm,.1234567890-=!@#$%^&*()_"
        .chars()
        .collect();
    let pass = generate_password(28, &alphabet[..]);
    assert_eq!(pass.chars().count(), 28);
    assert!(pass.chars().all(|c| alphabet.contains(&c)));
    assert_eq!(generate_password(0, &alphabet[..]), "");
    assert_eq!(generate_password(5, &['x']), "xxxxx");
    assert_eq!(symbol_at(&['a', 'b', 'c'], 4), 'b');
    assert_eq!(symbol_at(&['a', 'b', 'c'], usize::MAX), ['a', 'b', 'c'][usize::MAX % 3]);
    assert_eq!(*select_val(&[10, 20, 30], 5), 30);
    let items = [7, 8, 9];
    for _ in 0..50 {
        assert!(items.contains(select_rand_val(&items)));
    }
}

#[test]
fn token_is_64_letters_and_digits() {
    let alphabet = "abcdefghijklmnopqrstuvwxyzABCDEFGHIJKLMNOPQRSTUVWXYZ0123456789";
    for roll in 0..62u64 {
        assert_eq!(token_char(roll), alphabet.chars().nth(roll as usize).unwrap());
    }
    assert_eq!(token_char(62), 'a');
    assert_eq!(token_char(u64::MAX), alphabet.chars().nth((u64::MAX % 62) as usize).unwrap());
    let a = new_acces_token().unwrap();
    let b = new_acces_token().unwrap();
    assert_eq!(a.len(), 64);
    assert!(a.chars().all(|c| alphabet.contains(c)));
    assert_ne!(a, b);
}

#[test]
fn password_hash_is_argon2_under_the_salt() {
    let h = get_password_hash(&"secret".to_owned()).unwrap();
    assert!(h.starts_with("$argon2i$v=19$m=4096,t=3,p=1$"), "{}", h);
    assert_eq!(Some(h.clone()), get_password_hash(&"secret".to_owned()));
    assert_ne!(Some(h.clone()), get_password_hash(&"secreu".to_owned()));
    assert!(argon2::verify_encoded(&h, b"secret").unwrap());
    assert_eq!(
        h,
        argon2::hash_encoded(b"secret", b"MySuperSecretSalt", &argon2::Config::default()).unwrap()
    );
    let s = password_hash(&"123456".to_owned()).unwrap();
    assert_eq!(
        s,
        argon2::hash_encoded(b"123456", b"step3salt", &argon2::Config::default()).unwrap()
    );
    assert_ne!(s, get_password_hash(&"123456".to_owned()).unwrap());
}

#[test]
fn file_hash_is_text_only_where_the_digest_is() {
    // A digest of 64 bytes is hardly ever valid UTF-8.
    assert_eq!(get_file_hash(b""), None);
    assert_eq!(get_file_hash(b"abc"), None);
    let mut texts = 0;
    for n in 0..200u32 {
        let content = n.to_le_bytes();
        let digest = <sha3::Sha3_512 as sha3::Digest>::digest(&content).to_vec();
        let expected = String::from_utf8(digest).ok();
        if expected.is_some() {
            texts += 1;
        }
        assert_eq!(get_file_hash(&content), expected);
    }
    assert_eq!(texts, 0);
}

#[test]
fn login_earns_credentials_for_the_right_password() {
    let hash = password_hash(&"123456".to_owned()).unwrap();
    let row = UserEntity { id: 7, name: "test1".to_owned(), password: hash.clone() };
    let good = UserAuthData { name: "test1".to_owned(), password: "123456".to_owned() };
    let ad = authorize(&good, &Some(row)).unwrap();
    assert_eq!((ad.id, ad.pass_hash), (7, hash.clone()));
    let row = UserEntity { id: 7, name: "test1".to_owned(), password: hash };
    let bad = UserAuthData { name: "test1".to_owned(), password: "12345".to_owned() };
    assert!(authorize(&bad, &Some(row)).is_none());
    assert!(authorize(&good, &None).is_none());
}

#[test]
fn token_travels_in_one_cookie() {
    let json = "{\"id\":7,\"pass_hash\":\"h\"}";
    let token = auth_token(json);
    assert_eq!(token, "eyJpZCI6NywicGFzc19oYXNoIjoiaCJ9");
    assert_eq!(auth_token("hello world"), "aGVsbG8gd29ybGQ=");
    let c = |n: &str, v: &str| (n.to_owned(), v.to_owned());
    assert_eq!(auth_json(&vec![c("authtoken", &token)]), Some(json.to_owned()));
    assert_eq!(
        auth_json(&vec![c("lang", "en"), c("authtoken", &token), c("x", "y")]),
        Some(json.to_owned())
    );
    assert_eq!(auth_json(&vec![]), None);
    assert_eq!(auth_json(&vec![c("lang", "en")]), None);
    assert_eq!(auth_json(&vec![c("authtoken", &token), c("authtoken", &token)]), None);
    assert_eq!(auth_json(&vec![c("authtoken", "not base64!")]), None);
    assert_eq!(auth_json(&vec![c("authtoken", "/w==")]), None);
    assert_eq!(auth_json(&vec![c("Authtoken", &token)]), None);
    assert_eq!(auth_json(&vec![c("authtoken", "")]), Some(String::new()));
}
