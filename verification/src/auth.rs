//! Logging in: the credentials that a login earns, and the token that
//! carries them in a cookie.

use vstd::prelude::*;
use vstd::utf8::{decode_utf8, encode_utf8, valid_utf8};
use crate::crypto::{
    argon2_encoded, base64_bytes, base64_text, decode, encode, hash_encoded, utf8_string,
};
use crate::friends::{AuthData, UserAuthData, UserEntity};

verus! {

/// The salt under which the service hashes passwords.
pub open spec fn service_salt() -> Seq<u8> {
    encode_utf8("step3salt"@)
}

/// The name of the cookie that carries the token.
pub open spec fn cookie_name() -> Seq<char> {
    "authtoken"@
}

/// The hash under which the service stores the password, or nothing where
/// the hashing refuses the password.
pub fn password_hash(password: &String) -> (r: Option<String>)
    ensures
        r.deep_view() == argon2_encoded(encode_utf8(password@), service_salt()),
{
    hash_encoded(password.as_str().as_bytes(), "step3salt".as_bytes())
}

/// The credentials that the login `auth_data` earns against the user row
/// `found` of that name: the user's number and the password's hash, where
/// the row is there and holds that hash; else nothing.
pub fn authorize(auth_data: &UserAuthData, found: &Option<UserEntity>) -> (r: Option<AuthData>)
    ensures
        match (*found, argon2_encoded(encode_utf8(auth_data.password@), service_salt())) {
            (Some(user), Some(hash)) => if hash == user.password@ {
                r matches Some(ad) && ad.id == user.id && ad.pass_hash@ == hash
            } else {
                r is None
            },
            _ => r is None,
        },
{
    let p_hash = match password_hash(&auth_data.password) {
        Some(h) => h,
        None => {
            return None;
        },
    };
    match found {
        Some(user) => {
            if p_hash == user.password {
                Some(AuthData { id: user.id, pass_hash: p_hash })
            } else {
                None
            }
        },
        None => None,
    }
}

/// The token for the credentials written as `json`: their Base64 text.
pub fn auth_token(json: &str) -> (token: String)
    ensures
        token@ == base64_text(encode_utf8(json@)),
{
    encode(json.as_bytes())
}

/// How many of the cookies are called `authtoken`.
pub open spec fn token_cookies(cookies: Seq<(String, String)>) -> nat
    decreases cookies.len(),
{
    if cookies.len() == 0 {
        0
    } else {
        token_cookies(cookies.drop_last()) + (if cookies.last().0@ == cookie_name() {
            1nat
        } else {
            0nat
        })
    }
}

/// The value of the last cookie called `authtoken`.
pub open spec fn last_token(cookies: Seq<(String, String)>) -> Seq<char>
    decreases cookies.len(),
{
    if cookies.len() == 0 {
        Seq::empty()
    } else if cookies.last().0@ == cookie_name() {
        cookies.last().1@
    } else {
        last_token(cookies.drop_last())
    }
}

/// What the token reads as: the text that its Base64 bytes encode, where
/// it is Base64 and the bytes are valid UTF-8.
pub open spec fn token_text(token: Seq<char>) -> Option<Seq<char>> {
    match base64_bytes(token) {
        Some(bytes) => if valid_utf8(bytes) {
            Some(decode_utf8(bytes))
        } else {
            None
        },
        None => None,
    }
}

/// The credentials that the request's cookies carry, still written as JSON:
/// the text of the token where exactly one cookie is called `authtoken`
/// and its value reads as text; else nothing. Each cookie is a name and a
/// value.
pub fn auth_json(cookies: &Vec<(String, String)>) -> (r: Option<String>)
    ensures
        r.deep_view() == (if token_cookies(cookies@) == 1 {
            token_text(last_token(cookies@))
        } else {
            None
        }),
{
    let mut count: usize = 0;
    let mut at: usize = 0;
    let mut i: usize = 0;
    assert(cookies@.take(0int) =~= Seq::<(String, String)>::empty());
    while i < cookies.len()
        invariant
            i <= cookies.len(),
            count <= i,
            count == token_cookies(cookies@.take(i as int)),
            count > 0 ==> at < i && last_token(cookies@.take(i as int)) == cookies@[at as int].1@,
        decreases cookies.len() - i,
    {
        proof {
            assert(cookies@.take(i + 1).drop_last() =~= cookies@.take(i as int));
            assert(cookies@.take(i + 1).last() == cookies@[i as int]);
            reveal_strlit("authtoken");
        }
        if name_is_authtoken(cookies[i].0.as_str()) {
            count += 1;
            at = i;
        }
        i += 1;
    }
    assert(cookies@.take(i as int) =~= cookies@);
    if count != 1 {
        return None;
    }
    match decode(cookies[at].1.as_str()) {
        Some(bytes) => {
            assert(bytes.deep_view() =~= bytes@);
            utf8_string(bytes)
        },
        None => None,
    }
}

/// Whether `name` is `authtoken`.
fn name_is_authtoken(name: &str) -> (b: bool)
    ensures
        b == (name@ == cookie_name()),
{
    let a = crate::text::chars_of(name);
    let b = crate::text::chars_of("authtoken");
    if a.len() != b.len() {
        return false;
    }
    let mut i: usize = 0;
    while i < a.len()
        invariant
            i <= a.len(),
            a.len() == b.len(),
            a@ == name@,
            b@ == cookie_name(),
            forall|j: int| 0 <= j < i ==> a@[j] == b@[j],
        decreases a.len() - i,
    {
        if a[i] != b[i] {
            return false;
        }
        i += 1;
    }
    assert(a@ =~= b@);
    true
}

} // verus!
