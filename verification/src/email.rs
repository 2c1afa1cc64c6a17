//! An e-mail address split at its `@`, and a choice among three values.

use vstd::prelude::*;
use vstd::string::StringExecFns;
use crate::chance::random_u8;
use crate::text::{chars_of, push_char};

verus! {

/// An e-mail address: what stands before the `@` and what stands after it.
#[derive(Debug)]
pub struct EmailString {
    login: String,
    domain: String,
}

/// How many `@` the text holds.
pub open spec fn at_count(s: Seq<char>) -> nat
    decreases s.len(),
{
    if s.len() == 0 {
        0
    } else {
        at_count(s.drop_last()) + (if s.last() == '@' {
            1nat
        } else {
            0nat
        })
    }
}

/// Where the first `@` of the text stands; the length of the text if it has
/// none.
pub open spec fn first_at(s: Seq<char>) -> int
    decreases s.len(),
{
    if s.len() == 0 {
        0
    } else if s[0] == '@' {
        0
    } else {
        1 + first_at(s.drop_first())
    }
}

/// What `try_from` says of a text without `@`.
pub open spec fn no_domain() -> Seq<char> {
    "can't find domain"@
}

/// What `try_from` says of a text with more than one `@`.
pub open spec fn not_valid() -> Seq<char> {
    "Not a valid email address"@
}

impl EmailString {
    /// What stands before the `@`.
    pub closed spec fn spec_login(&self) -> Seq<char> {
        self.login@
    }

    /// What stands after the `@`.
    pub closed spec fn spec_domain(&self) -> Seq<char> {
        self.domain@
    }

    /// What stands before the `@`.
    pub fn login(&self) -> (s: &str)
        ensures
            s@ == self.spec_login(),
    {
        self.login.as_str()
    }

    /// What stands after the `@`.
    pub fn domain(&self) -> (s: &str)
        ensures
            s@ == self.spec_domain(),
    {
        self.domain.as_str()
    }

    /// Splits `value` at its `@`. A text with exactly one `@` is an address;
    /// one without is refused for want of a domain, one with more as not
    /// valid.
    pub fn try_from(value: &str) -> (r: Result<EmailString, &'static str>)
        ensures
            at_count(value@) == 0 ==> (r matches Err(e) && e@ == no_domain()),
            at_count(value@) > 1 ==> (r matches Err(e) && e@ == not_valid()),
            at_count(value@) == 1 ==> (r matches Ok(a) && a.spec_login() == value@.take(
                first_at(value@),
            ) && a.spec_domain() == value@.skip(first_at(value@) + 1)),
    {
        let s = chars_of(value);
        let mut login = String::new();
        let mut domain = String::new();
        let mut seen: usize = 0;
        let mut i: usize = 0;
        while i < s.len()
            invariant
                i <= s.len(),
                s@ == value@,
                seen <= i,
                seen == at_count(s@.take(i as int)),
                seen == 0 ==> login@ == s@.take(i as int) && domain@ == Seq::<char>::empty()
                    && first_at(s@.take(i as int)) == i,
                seen >= 1 ==> first_at(s@.take(i as int)) == first_at(s@) && first_at(s@) < i,
                seen == 1 ==> login@ == s@.take(first_at(s@)) && domain@ == s@.subrange(
                    first_at(s@) + 1,
                    i as int,
                ),
            decreases s.len() - i,
        {
            let c = s[i];
            proof {
                assert(s@.take(i + 1).drop_last() =~= s@.take(i as int));
                lemma_first_at_push(s@.take(i as int), c);
                assert(s@.take(i as int).push(c) =~= s@.take(i + 1));
                if c == '@' && seen == 0 {
                    lemma_first_at_prefix(s@, i as int);
                }
            }
            if c == '@' {
                seen += 1;
                if seen == 1 {
                    assert(s@.subrange(i + 1, i + 1) =~= Seq::<char>::empty());
                }
            } else if seen == 0 {
                push_char(&mut login, c);
            } else if seen == 1 {
                push_char(&mut domain, c);
                assert(s@.subrange(first_at(s@) + 1, i as int).push(c) =~= s@.subrange(
                    first_at(s@) + 1,
                    i + 1,
                ));
            }
            i += 1;
        }
        proof {
            assert(s@.take(i as int) =~= s@);
            assert(s@.subrange(first_at(s@) + 1, i as int) =~= s@.skip(first_at(s@) + 1));
        }
        if seen == 0 {
            Err("can't find domain")
        } else if seen == 1 {
            Ok(EmailString { login, domain })
        } else {
            Err("Not a valid email address")
        }
    }

    /// The address written out: login, `@`, domain.
    pub fn to_string(&self) -> (s: String)
        ensures
            s@ == self.spec_login() + seq!['@'] + self.spec_domain(),
    {
        let mut s = self.login.clone();
        s.append("@");
        s.append(self.domain.as_str());
        proof {
            reveal_strlit("@");
            assert("@"@ =~= seq!['@']);
        }
        s
    }
}

/// Adding a character at the end leaves the place of the first `@` where
/// it was if there was one, and else puts it at the old end or, if the
/// character is no `@`, at the new end.
proof fn lemma_first_at_push(s: Seq<char>, c: char)
    ensures
        0 <= first_at(s) <= s.len(),
        first_at(s) < s.len() ==> first_at(s.push(c)) == first_at(s),
        first_at(s) == s.len() ==> first_at(s.push(c)) == (if c == '@' {
            s.len() as int
        } else {
            s.len() as int + 1
        }),
        first_at(s) < s.len() <==> at_count(s) > 0,
    decreases s.len(),
{
    if s.len() > 0 {
        lemma_first_at_push(s.drop_first(), c);
        assert(s.push(c).drop_first() =~= s.drop_first().push(c));
        assert(s.push(c)[0] == s[0]);
        lemma_at_count_front(s);
    } else {
        assert(s.push(c).drop_first() =~= Seq::<char>::empty());
        assert(s.push(c)[0] == c);
        assert(first_at(s.push(c).drop_first()) == 0);
    }
}

/// Counting from the front gives the same count as counting from the end.
proof fn lemma_at_count_front(s: Seq<char>)
    requires
        s.len() > 0,
    ensures
        at_count(s) == at_count(s.drop_first()) + (if s[0] == '@' {
            1nat
        } else {
            0nat
        }),
    decreases s.len(),
{
    if s.len() > 1 {
        lemma_at_count_front(s.drop_last());
        assert(s.drop_last().drop_first() =~= s.drop_first().drop_last());
    } else {
        assert(s.drop_last() =~= Seq::<char>::empty());
        assert(s.drop_first() =~= Seq::<char>::empty());
    }
}

/// If the first `@` of a prefix stands within it, it is the first `@` of the
/// whole text.
proof fn lemma_first_at_prefix(s: Seq<char>, i: int)
    requires
        0 <= i < s.len(),
        s[i] == '@',
        first_at(s.take(i)) == i,
    ensures
        first_at(s) == i,
        first_at(s.take(i + 1)) == i,
    decreases s.len(),
{
    if i > 0 {
        assert(s.take(i).drop_first() =~= s.drop_first().take(i - 1));
        assert(s.take(i)[0] == s[0]);
        lemma_first_at_prefix(s.drop_first(), i - 1);
        assert(s.take(i + 1).drop_first() =~= s.drop_first().take(i));
    }
}

/// Three values of which a roll of the dice picks one.
pub struct Random<'a, T> {
    item1: &'a T,
    item2: &'a T,
    item3: &'a T,
}

impl<'a, T> Random<'a, T> {
    /// The value that the roll `roll` picks: the first for a roll that
    /// three divides, the second for a remainder of one, else the third.
    pub closed spec fn picked(&self, roll: u8) -> &'a T {
        if roll % 3 == 0 {
            self.item1
        } else if roll % 3 == 1 {
            self.item2
        } else {
            self.item3
        }
    }

    /// The three values `item1`, `item2`, `item3`.
    pub fn new(item1: &'a T, item2: &'a T, item3: &'a T) -> (r: Self)
        ensures
            r.picked(0) == item1,
            r.picked(1) == item2,
            r.picked(2) == item3,
    {
        Random { item1, item2, item3 }
    }

    /// The value that the roll `roll` picks.
    pub fn pick(&self, roll: u8) -> (r: &'a T)
        ensures
            r == self.picked(roll),
    {
        match roll % 3 {
            0 => self.item1,
            1 => self.item2,
            _ => self.item3,
        }
    }

    /// One of the three values, by a roll of the dice.
    pub fn deref(&self) -> (r: &'a T)
        ensures
            exists|roll: u8| r == self.picked(roll),
    {
        let roll = random_u8();
        self.pick(roll)
    }
}

} // verus!
