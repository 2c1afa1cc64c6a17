//! A repository of users by number, kept in a persistent hash map of the
//! `im` crate.
//!
//! The map and the set are the crate's; what they hold is named here, and
//! the crate's methods are believed to do to it what their documentation
//! says.

use vstd::prelude::*;
use std::collections::hash_map::RandomState;
use crate::text::chars_of;

verus! {

#[verifier::external_type_specification]
#[verifier::external_body]
#[verifier::reject_recursive_types(K)]
#[verifier::reject_recursive_types(V)]
#[verifier::reject_recursive_types(S)]
pub struct ExImHashMap<K, V, S>(im::HashMap<K, V, S>);

#[verifier::external_type_specification]
#[verifier::external_body]
#[verifier::reject_recursive_types(A)]
#[verifier::reject_recursive_types(S)]
pub struct ExImHashSet<A, S>(im::HashSet<A, S>);

/// The name of a user.
#[derive(Debug, Clone, PartialEq, Eq, Hash)]
pub struct UserName(pub String);

/// The number of a user.
#[derive(Debug, PartialEq, Eq, Hash, Clone, Copy)]
pub struct UserId(pub u64);

impl vstd::std_specs::convert::FromSpecImpl<u64> for UserId {
    open spec fn obeys_from_spec() -> bool {
        true
    }

    open spec fn from_spec(val: u64) -> Self {
        UserId(val)
    }
}

impl From<u64> for UserId {
    fn from(val: u64) -> (id: Self)
        ensures
            id == UserId(val),
    {
        UserId(val)
    }
}

/// A user: number and name.
#[derive(Debug, Clone, PartialEq, Eq, Hash)]
#[allow(non_snake_case)]
pub struct User {
    pub Id: UserId,
    pub Name: UserName,
}

impl View for User {
    type V = (u64, Seq<char>);

    /// A user as number and name.
    open spec fn view(&self) -> (u64, Seq<char>) {
        (self.Id.0, self.Name.0@)
    }
}

/// The map of the repository: users under numbers.
pub type UserMap = im::HashMap<u64, User, RandomState>;

/// A set of answers of the repository: each a user or nothing.
pub type AnswerSet = im::HashSet<Option<User>, RandomState>;

/// The users that a map holds, by key, each as number and name.
pub uninterp spec fn map_content(m: im::HashMap<u64, User, RandomState>) -> Map<u64, UserModel>;

/// The entries that a set holds, each a user as number and name, or
/// nothing.
pub uninterp spec fn set_content(s: im::HashSet<Option<User>, RandomState>) -> Set<
    Option<(u64, Seq<char>)>,
>;

/// A user as number and name.
pub type UserModel = (u64, Seq<char>);

/// No users.
pub open spec fn no_users() -> Map<u64, UserModel> {
    Map::empty()
}

/// No answers.
pub open spec fn no_answers() -> Set<Option<UserModel>> {
    Set::empty()
}

/// `model` is held by `users` under some key.
pub open spec fn is_value(users: Map<u64, UserModel>, model: UserModel) -> bool {
    exists|k: u64| #[trigger] users.contains_key(k) && users[k] == model
}

/// `model` is one of `list`.
pub open spec fn is_listed(list: Seq<User>, model: UserModel) -> bool {
    exists|i: int| 0 <= i < list.len() && (#[trigger] list[i])@ == model
}

/// `o` as number and name.
pub open spec fn seen(o: Option<User>) -> Option<(u64, Seq<char>)> {
    match o {
        Some(u) => Some(u@),
        None => None,
    }
}

/// `im::HashMap::new`: an empty map.
#[verifier::external_body]
fn map_new() -> (made: UserMap)
    ensures
        map_content(made) == no_users(),
{
    im::HashMap::new()
}

/// `im::HashMap::insert`: the map holds `v` under `k` and is otherwise as it
/// was; what was held under `k` comes back.
#[verifier::external_body]
fn map_insert(m: &mut im::HashMap<u64, User, RandomState>, k: u64, v: User) -> (r: Option<User>)
    ensures
        map_content(*final(m)) == map_content(*old(m)).insert(k, v@),
        seen(r) == (if map_content(*old(m)).contains_key(k) {
            Some(map_content(*old(m))[k])
        } else {
            None
        }),
{
    m.insert(k, v)
}

/// `im::HashMap::get`, with a copy of what it finds: what the map holds
/// under `k`.
#[verifier::external_body]
fn map_get(m: &im::HashMap<u64, User, RandomState>, k: u64) -> (r: Option<User>)
    ensures
        seen(r) == (if map_content(*m).contains_key(k) {
            Some(map_content(*m)[k])
        } else {
            None
        }),
{
    m.get(&k).cloned()
}

/// `im::HashMap::values`, with a copy of each value: as many as the map has
/// keys, each a value of the map, and the value of every key among them.
/// Their order is the map's own.
#[verifier::external_body]
fn map_values(m: &im::HashMap<u64, User, RandomState>) -> (r: Vec<User>)
    ensures
        r@.len() == map_content(*m).dom().len(),
        forall|i: int| 0 <= i < r@.len() ==> is_value(map_content(*m), (#[trigger] r@[i])@),
        forall|k: u64| #[trigger]
            map_content(*m).contains_key(k) ==> is_listed(r@, map_content(*m)[k]),
{
    m.values().cloned().collect()
}

/// `im::HashSet::new`: an empty set.
#[verifier::external_body]
fn set_new() -> (s: AnswerSet)
    ensures
        set_content(s) == no_answers(),
{
    im::HashSet::new()
}

/// `im::HashSet::insert`: the set holds `a` besides what it held.
#[verifier::external_body]
fn set_insert(s: &mut im::HashSet<Option<User>, RandomState>, a: Option<User>)
    ensures
        set_content(*final(s)) == set_content(*old(s)).insert(seen(a)),
{
    s.insert(a);
}

/// `needle` stands in `hay` at position `i`.
pub open spec fn stands_at(hay: Seq<char>, needle: Seq<char>, i: int) -> bool {
    0 <= i <= hay.len() - needle.len() && hay.subrange(i, i + needle.len()) == needle
}

/// `needle` stands somewhere in `hay`.
pub open spec fn has_substring(hay: Seq<char>, needle: Seq<char>) -> bool {
    exists|i: int| stands_at(hay, needle, i)
}

/// Whether `needle` stands somewhere in `hay`.
pub fn contains_text(hay: &Vec<char>, needle: &Vec<char>) -> (b: bool)
    ensures
        b == has_substring(hay@, needle@),
{
    if needle.len() > hay.len() {
        return false;
    }
    let last = hay.len() - needle.len();
    let mut i: usize = 0;
    loop
        invariant
            i <= last,
            last == hay@.len() - needle@.len(),
            hay@.len() == hay.len(),
            forall|j: int| 0 <= j < i ==> !stands_at(hay@, needle@, j),
        decreases last - i,
    {
        let mut k: usize = 0;
        while k < needle.len() && hay[i + k] == needle[k]
            invariant
                i <= last,
                last == hay@.len() - needle@.len(),
                hay@.len() == hay.len(),
                k <= needle@.len(),
                forall|j: int| 0 <= j < k ==> hay@[i + j] == needle@[j],
            decreases needle@.len() - k,
        {
            k += 1;
        }
        if k == needle.len() {
            assert(hay@.subrange(i as int, i + needle@.len()) =~= needle@);
            assert(stands_at(hay@, needle@, i as int));
            return true;
        }
        assert(hay@.subrange(i as int, i + needle@.len())[k as int] != needle@[k as int]);
        if i == last {
            return false;
        }
        i += 1;
    }
}

/// The users, in a persistent hash map under their numbers.
pub struct UserRepository {
    _store: im::HashMap<u64, User, RandomState>,
}

/// The users among `users` whose names hold `text`.
pub open spec fn named_like(users: Map<u64, (u64, Seq<char>)>, text: Seq<char>) -> Map<u64, UserModel> {
    Map::new(
        |k: u64| users.contains_key(k) && has_substring(users[k].1, text),
        |k: u64| users[k],
    )
}

/// What the repository answers for each of `keys`.
pub open spec fn answers(users: Map<u64, (u64, Seq<char>)>, keys: Seq<u64>) -> Set<
    Option<(u64, Seq<char>)>,
> {
    Set::new(
        |o: Option<(u64, Seq<char>)>|
            exists|i: int|
                0 <= i < keys.len() && o == (if users.contains_key(#[trigger] keys[i]) {
                    Some(users[keys[i]])
                } else {
                    None
                }),
    )
}

impl UserRepository {
    /// The users by number, each as number and name.
    pub closed spec fn users(&self) -> Map<u64, (u64, Seq<char>)> {
        map_content(self._store)
    }

    /// The repository's invariant: every user is kept under its own number.
    #[verifier::type_invariant]
    spec fn keyed_by_number(&self) -> bool {
        forall|k: u64| #[trigger] self.users().contains_key(k) ==> self.users()[k].0 == k
    }

    /// An empty repository.
    pub fn new() -> (r: Self)
        ensures
            r.users() == no_users(),
    {
        UserRepository { _store: map_new() }
    }

    /// Keeps `u` under its number and returns the user that was kept there.
    pub fn insert(&mut self, u: User) -> (r: Option<User>)
        ensures
            final(self).users() == old(self).users().insert(u.Id.0, u@),
            seen(r) == (if old(self).users().contains_key(u.Id.0) {
                Some(old(self).users()[u.Id.0])
            } else {
                None
            }),
    {
        proof {
            use_type_invariant(&*self);
        }
        let k = u.Id.0;
        let mut store = map_new();
        std::mem::swap(&mut store, &mut self._store);
        let r = map_insert(&mut store, k, u);
        assert forall|j: u64| #[trigger] map_content(store).contains_key(j) implies map_content(
            store,
        )[j].0 == j by {
            if j != k {
                assert(old(self).users().contains_key(j));
            }
        }
        self._store = store;
        r
    }

    /// The user kept under `key`.
    pub fn get(&self, key: u64) -> (r: Option<User>)
        ensures
            seen(r) == (if self.users().contains_key(key) {
                Some(self.users()[key])
            } else {
                None
            }),
    {
        map_get(&self._store, key)
    }

    /// The answers to `get` for each of `keys`, as a set.
    pub fn get_users(&self, keys: Vec<u64>) -> (r: im::HashSet<Option<User>, RandomState>)
        ensures
            set_content(r) == answers(self.users(), keys@),
    {
        let mut r = set_new();
        let mut i: usize = 0;
        assert(set_content(r) =~= answers(self.users(), keys@.take(0)));
        while i < keys.len()
            invariant
                i <= keys.len(),
                set_content(r) == answers(self.users(), keys@.take(i as int)),
            decreases keys.len() - i,
        {
            let found = self.get(keys[i]);
            set_insert(&mut r, found);
            proof {
                let users = self.users();
                let before = answers(users, keys@.take(i as int));
                let after = answers(users, keys@.take(i + 1));
                assert forall|o: Option<(u64, Seq<char>)>|
                    before.insert(seen(found)).contains(o) <==> after.contains(o) by {
                    if before.contains(o) {
                        let j = choose|j: int|
                            0 <= j < i && o == (if users.contains_key(
                                #[trigger] keys@.take(i as int)[j],
                            ) {
                                Some(users[keys@.take(i as int)[j]])
                            } else {
                                None
                            });
                        assert(keys@.take(i + 1)[j] == keys@.take(i as int)[j]);
                    }
                    if o == seen(found) {
                        assert(keys@.take(i + 1)[i as int] == keys@[i as int]);
                    }
                    if after.contains(o) {
                        let j = choose|j: int|
                            0 <= j < i + 1 && o == (if users.contains_key(
                                #[trigger] keys@.take(i + 1)[j],
                            ) {
                                Some(users[keys@.take(i + 1)[j]])
                            } else {
                                None
                            });
                        if j < i {
                            assert(keys@.take(i as int)[j] == keys@.take(i + 1)[j]);
                        }
                    }
                }
                assert(before.insert(seen(found)) =~= after);
            }
            i += 1;
        }
        assert(keys@.take(i as int) =~= keys@);
        r
    }

    /// The users whose names hold `search_string`, in a map of their own.
    pub fn search_users(&self, search_string: &str) -> (r: im::HashMap<u64, User, RandomState>)
        ensures
            map_content(r) == named_like(self.users(), search_string@),
    {
        proof {
            use_type_invariant(self);
        }
        let needle = chars_of(search_string);
        let all = map_values(&self._store);
        let mut r = map_new();
        let mut i: usize = 0;
        let ghost users = self.users();
        while i < all.len()
            invariant
                i <= all.len(),
                users == self.users(),
                self.keyed_by_number(),
                needle@ == search_string@,
                forall|j: int| 0 <= j < all@.len() ==> is_value(users, (#[trigger] all@[j])@),
                forall|k: u64| #[trigger]
                    map_content(r).contains_key(k) ==> users.contains_key(k) && has_substring(
                        users[k].1,
                        needle@,
                    ) && map_content(r)[k] == users[k],
                forall|j: int|
                    0 <= j < i && has_substring((#[trigger] all@[j])@.1, needle@)
                        ==> map_content(r).contains_key(all@[j]@.0),
            decreases all.len() - i,
        {
            let u = &all[i];
            proof {
                assert(is_value(users, all@[i as int]@));
                let k = choose|k: u64| #[trigger]
                    users.contains_key(k) && users[k] == all@[i as int]@;
                assert(users[k].0 == k);
            }
            let name = chars_of(u.Name.0.as_str());
            if contains_text(&name, &needle) {
                map_insert(&mut r, u.Id.0, u.clone_user());
            }
            i += 1;
        }
        proof {
            let want = named_like(users, search_string@);
            assert forall|k: u64| want.contains_key(k) implies map_content(r).contains_key(k) by {
                assert(is_listed(all@, users[k]));
                let j = choose|j: int| 0 <= j < all@.len() && (#[trigger] all@[j])@ == users[k];
                assert(all@[j]@.0 == k);
            }
            assert(map_content(r) =~= want);
        }
        r
    }
}

impl User {
    /// A copy of the user.
    pub fn clone_user(&self) -> (u: User)
        ensures
            u@ == self@,
    {
        User { Id: UserId(self.Id.0), Name: UserName(self.Name.0.clone()) }
    }
}

} // verus!
