//! Passwords, tokens and hashes.
//!
//! Hashing and encoding are left to the crates that implement them: their
//! results are named here and not described. What is chosen by chance is
//! chosen by a function that takes the random numbers as arguments.

use vstd::prelude::*;
use vstd::utf8::{decode_utf8, encode_utf8, valid_utf8};
use crate::chance::random_usize;
use crate::text::push_char;

verus! {

/// The encoded Argon2 hash that `argon2::hash_encoded` gives for a password
/// and a salt under the crate's default configuration, or nothing where the
/// crate refuses them.
pub uninterp spec fn argon2_encoded(password: Seq<u8>, salt: Seq<u8>) -> Option<Seq<char>>;

/// The SHA3-512 digest of the bytes, as `sha3::Sha3_512` computes it.
pub uninterp spec fn sha3_512(bytes: Seq<u8>) -> Seq<u8>;

/// The Base64 text that `base64::encode` gives for the bytes.
pub uninterp spec fn base64_text(bytes: Seq<u8>) -> Seq<char>;

/// The bytes that `base64::decode` reads from the text, or nothing where it
/// refuses the text.
pub uninterp spec fn base64_bytes(text: Seq<char>) -> Option<Seq<u8>>;

/// Calls `argon2::hash_encoded` with the default configuration. The result
/// is the crate's answer for this password and salt; an error of the crate
/// comes back as nothing.
#[verifier::external_body]
pub(crate) fn hash_encoded(password: &[u8], salt: &[u8]) -> (r: Option<String>)
    ensures
        r.deep_view() == argon2_encoded(password@, salt@),
{
    argon2::hash_encoded(password, salt, &argon2::Config::default()).ok()
}

/// Calls `sha3::Sha3_512::digest`. The result is the crate's digest of the
/// bytes.
#[verifier::external_body]
pub(crate) fn digest(bytes: &[u8]) -> (r: Vec<u8>)
    ensures
        r@ == sha3_512(bytes@),
{
    <sha3::Sha3_512 as sha3::Digest>::digest(bytes).to_vec()
}

/// Calls `base64::encode`. The result is the crate's text for the bytes.
#[verifier::external_body]
pub(crate) fn encode(bytes: &[u8]) -> (r: String)
    ensures
        r@ == base64_text(bytes@),
{
    base64::encode(bytes)
}

/// Calls `base64::decode`. The result is the crate's reading of the text;
/// an error of the crate comes back as nothing.
#[verifier::external_body]
pub(crate) fn decode(text: &str) -> (r: Option<Vec<u8>>)
    ensures
        r.deep_view() == base64_bytes(text@),
{
    base64::decode(text).ok()
}

/// Calls `String::from_utf8`, which accepts exactly the bytes that are
/// valid UTF-8 and returns the text they encode.
#[verifier::external_body]
pub(crate) fn utf8_string(bytes: Vec<u8>) -> (r: Option<String>)
    ensures
        r is Some <==> valid_utf8(bytes@),
        r matches Some(s) ==> s@ == decode_utf8(bytes@),
{
    String::from_utf8(bytes).ok()
}

/// Eight random bytes of the operating system as a number, by
/// `OsRng::try_fill_bytes`; nothing where the system gives none. Any number
/// may come back, another one at each call.
#[verifier::external_body]
pub(crate) fn os_random_u64() -> (r: Option<u64>) {
    let mut bytes = [0u8; 8];
    match rand::RngCore::try_fill_bytes(&mut rand::rngs::OsRng, &mut bytes) {
        Ok(()) => Some(u64::from_le_bytes(bytes)),
        Err(_) => None,
    }
}

/// The symbol that the roll `roll` picks out of `symbols`.
pub fn symbol_at(symbols: &[char], roll: usize) -> (c: char)
    requires
        symbols@.len() > 0,
    ensures
        c == symbols@[(roll % symbols@.len() as usize) as int],
        symbols@.contains(c),
{
    let at = roll % symbols.len();
    assert(symbols@[at as int] == symbols[at as int]);
    symbols[at]
}

/// A password of `len` symbols, each chosen by chance out of `symbols`.
pub fn generate_password(len: usize, symbols: &[char]) -> (p: String)
    requires
        symbols@.len() > 0,
    ensures
        p@.len() == len,
        forall|i: int| 0 <= i < len ==> symbols@.contains(#[trigger] p@[i]),
{
    let mut p = String::new();
    let mut i: usize = 0;
    while i < len
        invariant
            i <= len,
            symbols@.len() > 0,
            p@.len() == i,
            forall|j: int| 0 <= j < i ==> symbols@.contains(#[trigger] p@[j]),
        decreases len - i,
    {
        let c = symbol_at(symbols, random_usize());
        let ghost before = p@;
        push_char(&mut p, c);
        assert forall|j: int| 0 <= j < i + 1 implies symbols@.contains(#[trigger] p@[j]) by {
            if j < i {
                assert(p@[j] == before[j]);
            }
        }
        i += 1;
    }
    p
}

/// The item that the roll `roll` picks out of `items`.
pub fn select_val<T>(items: &[T], roll: usize) -> (r: &T)
    requires
        items@.len() > 0,
    ensures
        *r == items@[(roll % items@.len() as usize) as int],
        items@.contains(*r),
{
    let at = roll % items.len();
    assert(items@[at as int] == items[at as int]);
    &items[at]
}

/// One of `items`, chosen by chance.
pub fn select_rand_val<T>(items: &[T]) -> (r: &T)
    requires
        items@.len() > 0,
    ensures
        items@.contains(*r),
{
    select_val(items, random_usize())
}

/// The letters and digits that access tokens are made of.
pub open spec fn token_alphabet() -> Seq<char> {
    "abcdefghijklmnopqrstuvwxyzABCDEFGHIJKLMNOPQRSTUVWXYZ0123456789"@
}

/// The symbol of the token alphabet that the roll `roll` picks: a small
/// letter for a remainder by 62 below 26, a capital letter below 52, else a
/// digit.
pub open spec fn token_symbol(roll: u64) -> char {
    let k = (roll % 62) as u8;
    if k < 26 {
        (0x61 + k) as char
    } else if k < 52 {
        (0x41 + (k - 26)) as char
    } else {
        (0x30 + (k - 52)) as char
    }
}

/// The symbol of the token alphabet that the roll `roll` picks.
pub fn token_char(roll: u64) -> (c: char)
    ensures
        c == token_symbol(roll),
        token_alphabet().contains(c),
{
    let k = (roll % 62) as u8;
    proof {
        reveal_strlit("abcdefghijklmnopqrstuvwxyzABCDEFGHIJKLMNOPQRSTUVWXYZ0123456789");
        assert(token_alphabet()[k as int] == token_symbol(roll));
    }
    if k < 26 {
        (0x61 + k) as char
    } else if k < 52 {
        (0x41 + (k - 26)) as char
    } else {
        (0x30 + (k - 52)) as char
    }
}

/// A new access token: 64 symbols of the token alphabet, each chosen by a
/// random number of the operating system; nothing where the system gives
/// no random numbers.
pub fn new_acces_token() -> (r: Option<String>)
    ensures
        r matches Some(t) ==> t@.len() == 64 && forall|i: int|
            0 <= i < 64 ==> token_alphabet().contains(#[trigger] t@[i]),
{
    let mut t = String::new();
    let mut i: usize = 0;
    while i < 64
        invariant
            i <= 64,
            t@.len() == i,
            forall|j: int| 0 <= j < i ==> token_alphabet().contains(#[trigger] t@[j]),
        decreases 64 - i,
    {
        let roll = match os_random_u64() {
            Some(roll) => roll,
            None => {
                return None;
            },
        };
        push_char(&mut t, token_char(roll));
        i += 1;
    }
    Some(t)
}

/// The SHA3-512 digest of a file's content read as text: the digest's bytes
/// where they happen to be valid UTF-8, else nothing.
pub fn get_file_hash(content: &[u8]) -> (r: Option<String>)
    ensures
        r is Some <==> valid_utf8(sha3_512(content@)),
        r matches Some(s) ==> s@ == decode_utf8(sha3_512(content@)),
{
    utf8_string(digest(content))
}

/// The salt of `get_password_hash`.
pub open spec fn password_salt() -> Seq<u8> {
    encode_utf8("MySuperSecretSalt"@)
}

/// The encoded Argon2 hash of the password under the library's salt, or
/// nothing where the hashing refuses the password.
pub fn get_password_hash(password: &String) -> (r: Option<String>)
    ensures
        r.deep_view() == argon2_encoded(encode_utf8(password@), password_salt()),
{
    hash_encoded(password.as_str().as_bytes(), "MySuperSecretSalt".as_bytes())
}

} // verus!
