//! Facts about types: the type is a parameter that no value carries.

use vstd::prelude::*;
use vstd::string::StringExecFns;
use std::marker::PhantomData;
use crate::chance::random_u8;

verus! {

/// A type about which facts are known.
pub trait HasFacts {
    /// The name of the type.
    spec fn spec_name() -> Seq<char>;

    /// The name of the type.
    fn name() -> (n: &'static str)
        ensures
            n@ == Self::spec_name(),
    ;

    /// The facts that `random_fact` chooses from.
    spec fn facts() -> Set<Seq<char>>;

    /// One of the facts, chosen by chance.
    fn random_fact() -> (f: String)
        ensures
            Self::facts().contains(f@),
    ;
}

/// The sentence that tells `fact` of the type called `name`.
pub open spec fn fact_text(name: Seq<char>, fact: Seq<char>) -> Seq<char> {
    "Fact about "@ + name + ": "@ + fact
}

/// The sentence that tells `fact` of the type called `name`.
pub fn fact_line(name: &str, fact: &str) -> (s: String)
    ensures
        s@ == fact_text(name@, fact@),
{
    let mut s = String::from_str("Fact about ");
    s.append(name);
    s.append(": ");
    s.append(fact);
    s
}

/// A teller of facts about `T`.
#[derive(Debug)]
pub struct Fact<T: HasFacts>(PhantomData<T>);

impl<T: HasFacts> Fact<T> {
    /// A teller of facts about `T`.
    pub fn new() -> (f: Self) {
        Fact(PhantomData)
    }

    /// A sentence that tells one of the facts about `T`.
    pub fn fact(&self) -> (s: String)
        ensures
            exists|f: Seq<char>| #[trigger] T::facts().contains(f) && s@ == fact_text(T::spec_name(), f),
    {
        let f = T::random_fact();
        fact_line(T::name(), f.as_str())
    }
}

impl<T: HasFacts> HasFacts for Fact<T> {
    open spec fn spec_name() -> Seq<char> {
        "Recursive Fact!!!"@
    }

    fn name() -> (n: &'static str) {
        "Recursive Fact!!!"
    }

    /// The facts about a teller are the sentences it can say.
    open spec fn facts() -> Set<Seq<char>> {
        Set::new(
            |s: Seq<char>|
                exists|f: Seq<char>| #[trigger] T::facts().contains(f) && s == fact_text(T::spec_name(), f),
        )
    }

    fn random_fact() -> (f: String) {
        Fact::<T>(PhantomData).fact()
    }
}

/// The fact about vectors that the roll `roll` picks: the first for an even
/// roll, the second for an odd one.
pub open spec fn vec_fact_text(roll: u8) -> Seq<char> {
    if roll % 2 == 0 {
        "Vec is heap-allocated."@
    } else {
        "Vec may re-allocate on growing."@
    }
}

/// The fact about vectors that the roll `roll` picks.
pub fn vec_fact(roll: u8) -> (f: String)
    ensures
        f@ == vec_fact_text(roll),
{
    if roll % 2 == 0 {
        String::from_str("Vec is heap-allocated.")
    } else {
        String::from_str("Vec may re-allocate on growing.")
    }
}

impl<T> HasFacts for Vec<T> {
    open spec fn spec_name() -> Seq<char> {
        "Vec"@
    }

    fn name() -> (n: &'static str) {
        "Vec"
    }

    open spec fn facts() -> Set<Seq<char>> {
        Set::new(|s: Seq<char>| exists|roll: u8| s == vec_fact_text(roll))
    }

    fn random_fact() -> (f: String) {
        let roll = random_u8();
        vec_fact(roll)
    }
}

} // verus!
