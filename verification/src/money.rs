//! Coins, and money as a count of coins of each face value.

use vstd::prelude::*;
use crate::trade::HasValue;

verus! {

/// A sum of money in the machine's smallest unit.
pub struct Amount(u32);

impl Amount {
    /// The number of units.
    pub closed spec fn units(&self) -> u32 {
        self.0
    }
}

impl vstd::std_specs::convert::FromSpecImpl<u32> for Amount {
    open spec fn obeys_from_spec() -> bool {
        true
    }

    open spec fn from_spec(v: u32) -> Self {
        Amount::of(v)
    }
}

impl Amount {
    /// The amount of `v` units.
    pub closed spec fn of(v: u32) -> Amount {
        Amount(v)
    }

    /// The number of units.
    pub fn get(&self) -> (v: u32)
        ensures
            v == self.units(),
            Amount::of(v) == *self,
    {
        self.0
    }
}

impl From<u32> for Amount {
    fn from(v: u32) -> (a: Amount)
        ensures
            a == Amount::of(v),
            a.units() == v,
    {
        Amount(v)
    }
}

/// The six coins.
#[derive(Clone, Copy, Debug, PartialEq, Eq, Structural)]
pub enum Coin {
    One,
    Two,
    Five,
    Ten,
    Twenty,
    Fifty,
}

/// The face value of `coin`.
pub open spec fn face(coin: Coin) -> nat {
    match coin {
        Coin::One => 1,
        Coin::Two => 2,
        Coin::Five => 5,
        Coin::Ten => 10,
        Coin::Twenty => 20,
        Coin::Fifty => 50,
    }
}

impl HasValue for Coin {
    open spec fn worth(&self) -> nat {
        face(*self)
    }

    fn value(&self) -> (v: u64) {
        match self {
            Coin::One => 1,
            Coin::Two => 2,
            Coin::Five => 5,
            Coin::Ten => 10,
            Coin::Twenty => 20,
            Coin::Fifty => 50,
        }
    }
}

/// Money as mathematics sees it: how many coins of each face value.
pub struct Purse {
    pub ones: nat,
    pub twos: nat,
    pub fives: nat,
    pub tens: nat,
    pub twenties: nat,
    pub fifties: nat,
}

impl Purse {
    /// No coins.
    pub open spec fn empty() -> Purse {
        Purse { ones: 0, twos: 0, fives: 0, tens: 0, twenties: 0, fifties: 0 }
    }

    /// One coin.
    pub open spec fn single(coin: Coin) -> Purse {
        match coin {
            Coin::One => Purse { ones: 1, ..Purse::empty() },
            Coin::Two => Purse { twos: 1, ..Purse::empty() },
            Coin::Five => Purse { fives: 1, ..Purse::empty() },
            Coin::Ten => Purse { tens: 1, ..Purse::empty() },
            Coin::Twenty => Purse { twenties: 1, ..Purse::empty() },
            Coin::Fifty => Purse { fifties: 1, ..Purse::empty() },
        }
    }

    /// The coins of `coins`, counted by face value.
    pub open spec fn of_coins(coins: Seq<Coin>) -> Purse
        decreases coins.len(),
    {
        if coins.len() == 0 {
            Purse::empty()
        } else {
            Purse::of_coins(coins.drop_last()).plus(Purse::single(coins.last()))
        }
    }

    /// How many coins of face value `coin`.
    pub open spec fn count(self, coin: Coin) -> nat {
        match coin {
            Coin::One => self.ones,
            Coin::Two => self.twos,
            Coin::Five => self.fives,
            Coin::Ten => self.tens,
            Coin::Twenty => self.twenties,
            Coin::Fifty => self.fifties,
        }
    }

    /// The sum of the face values.
    pub open spec fn worth(self) -> nat {
        self.ones + 2 * self.twos + 5 * self.fives + 10 * self.tens + 20 * self.twenties + 50
            * self.fifties
    }

    /// Both purses poured together.
    pub open spec fn plus(self, other: Purse) -> Purse {
        Purse {
            ones: self.ones + other.ones,
            twos: self.twos + other.twos,
            fives: self.fives + other.fives,
            tens: self.tens + other.tens,
            twenties: self.twenties + other.twenties,
            fifties: self.fifties + other.fifties,
        }
    }

    /// For each face value, the coins that both purses have.
    pub open spec fn common(self, other: Purse) -> Purse {
        Purse {
            ones: min(self.ones, other.ones),
            twos: min(self.twos, other.twos),
            fives: min(self.fives, other.fives),
            tens: min(self.tens, other.tens),
            twenties: min(self.twenties, other.twenties),
            fifties: min(self.fifties, other.fifties),
        }
    }

    /// This purse without the coins of `other`; of a face value of which
    /// `other` has more, none is left.
    pub open spec fn minus(self, other: Purse) -> Purse {
        Purse {
            ones: (self.ones - min(self.ones, other.ones)) as nat,
            twos: (self.twos - min(self.twos, other.twos)) as nat,
            fives: (self.fives - min(self.fives, other.fives)) as nat,
            tens: (self.tens - min(self.tens, other.tens)) as nat,
            twenties: (self.twenties - min(self.twenties, other.twenties)) as nat,
            fifties: (self.fifties - min(self.fifties, other.fifties)) as nat,
        }
    }
}

/// The smaller of two numbers.
pub open spec fn min(a: nat, b: nat) -> nat {
    if a <= b {
        a
    } else {
        b
    }
}

/// The coins that make up `value` when the largest allowed coin is taken
/// first. `lock_level` says which coins are allowed: up to 1 all of them, at
/// 2 none of fifty, at 3 none of twenty either, at 4 none of ten, and from 5 on
/// only coins of one.
pub open spec fn split(value: nat, lock_level: nat) -> Purse {
    let fifties = if lock_level <= 1 { value / 50 } else { 0 };
    let r1 = if lock_level <= 1 { value % 50 } else { value };
    let twenties = if lock_level <= 2 { r1 / 20 } else { 0 };
    let r2 = if lock_level <= 2 { r1 % 20 } else { r1 };
    let tens = if lock_level <= 3 { r2 / 10 } else { 0 };
    let r3 = if lock_level <= 3 { r2 % 10 } else { r2 };
    let fives = if lock_level <= 4 { r3 / 5 } else { 0 };
    let r4 = if lock_level <= 4 { r3 % 5 } else { r3 };
    let twos = if lock_level < 5 { r4 / 2 } else { 0 };
    let r5 = if lock_level < 5 { r4 % 2 } else { r4 };
    Purse { ones: r5, twos, fives, tens, twenties, fifties }
}

/// The coins of `split` are worth `value`.
pub proof fn lemma_split_worth(value: nat, lock_level: nat)
    ensures
        split(value, lock_level).worth() == value,
{
}

/// Paying out `owed` from `pool` in rounds, `given` being what was paid
/// already. A round pays every owed coin that the pool has. What is then
/// still owed is made up anew from smaller coins (`split` one level up) for
/// the next round. The result is the pool and the payment once nothing is
/// owed, or nothing if that is not reached with level 5.
pub open spec fn rest_rounds(pool: Purse, owed: Purse, given: Purse, lock_level: nat) -> Option<
    (Purse, Purse),
>
    decreases 6 - lock_level,
{
    if lock_level > 5 {
        None
    } else if owed.minus(pool).worth() == 0 {
        Some((pool.minus(owed), given.plus(pool.common(owed))))
    } else {
        rest_rounds(
            pool.minus(owed),
            split(owed.minus(pool).worth(), lock_level + 1),
            given.plus(pool.common(owed)),
            lock_level + 1,
        )
    }
}

/// What `try_give_rest` answers: the machine's money and the customer's
/// payment are pooled, and `value` is paid out of the pool in rounds.
pub open spec fn rest_given(machine: Purse, input: Purse, value: nat) -> Option<(Purse, Purse)> {
    rest_rounds(machine.plus(input), split(value, 0), Purse::empty(), 0)
}

/// Rounds lose no coin and pay what is owed: if they end with a pool and a
/// payment, the two together are the pool and the payment they started
/// from, and the payment grew by the worth of what was owed.
pub proof fn lemma_rest_rounds_sound(pool: Purse, owed: Purse, given: Purse, lock_level: nat)
    ensures
        rest_rounds(pool, owed, given, lock_level) matches Some((kept, paid)) ==> kept.plus(paid)
            == pool.plus(given) && paid.worth() == given.worth() + owed.worth(),
    decreases 6 - lock_level,
{
    if lock_level <= 5 && owed.minus(pool).worth() != 0 {
        lemma_split_worth(owed.minus(pool).worth(), lock_level + 1);
        lemma_rest_rounds_sound(
            pool.minus(owed),
            split(owed.minus(pool).worth(), lock_level + 1),
            given.plus(pool.common(owed)),
            lock_level + 1,
        );
    }
}

/// Change is exact and nothing is lost: when `try_give_rest` answers with the
/// machine's money and the change, the change is worth `value`, and both
/// together hold the coins that the machine and the customer had.
pub proof fn lemma_rest_given_sound(machine: Purse, input: Purse, value: nat)
    ensures
        rest_given(machine, input, value) matches Some((kept, paid)) ==> kept.plus(paid)
            == machine.plus(input) && paid.worth() == value,
{
    lemma_split_worth(value, 0);
    lemma_rest_rounds_sound(machine.plus(input), split(value, 0), Purse::empty(), 0);
}

/// Money: how many coins of each face value. The sum of their values fits in
/// a `u64`.
#[derive(Clone, Copy, Debug)]
pub struct Money {
    one_count: u64,
    two_count: u64,
    five_count: u64,
    ten_count: u64,
    twenty_count: u64,
    fifty_count: u64,
}

impl View for Money {
    type V = Purse;

    closed spec fn view(&self) -> Purse {
        Purse {
            ones: self.one_count as nat,
            twos: self.two_count as nat,
            fives: self.five_count as nat,
            tens: self.ten_count as nat,
            twenties: self.twenty_count as nat,
            fifties: self.fifty_count as nat,
        }
    }
}

impl HasValue for Money {
    open spec fn worth(&self) -> nat {
        self@.worth()
    }

    fn value(&self) -> (v: u64) {
        proof {
            use_type_invariant(self);
        }
        self.one_count + 2 * self.two_count + 5 * self.five_count + 10 * self.ten_count + 20
            * self.twenty_count + 50 * self.fifty_count
    }
}

impl Money {
    #[verifier::type_invariant]
    spec fn fits(&self) -> bool {
        self@.worth() <= u64::MAX
    }

    /// No money.
    pub fn new() -> (m: Self)
        ensures
            m@ == Purse::empty(),
    {
        Money {
            one_count: 0,
            two_count: 0,
            five_count: 0,
            ten_count: 0,
            twenty_count: 0,
            fifty_count: 0,
        }
    }

    /// How many coins of face value `coin` there are.
    pub fn count(&self, coin: Coin) -> (n: u64)
        ensures
            n == self@.count(coin),
    {
        match coin {
            Coin::One => self.one_count,
            Coin::Two => self.two_count,
            Coin::Five => self.five_count,
            Coin::Ten => self.ten_count,
            Coin::Twenty => self.twenty_count,
            Coin::Fifty => self.fifty_count,
        }
    }

    /// Adds one coin.
    pub fn add(&mut self, coin: Coin)
        requires
            old(self)@.worth() + face(coin) <= u64::MAX,
        ensures
            final(self)@ == old(self)@.plus(Purse::single(coin)),
    {
        proof {
            use_type_invariant(&*self);
        }
        match coin {
            Coin::One => self.one_count += 1,
            Coin::Two => self.two_count += 1,
            Coin::Five => self.five_count += 1,
            Coin::Ten => self.ten_count += 1,
            Coin::Twenty => self.twenty_count += 1,
            Coin::Fifty => self.fifty_count += 1,
        }
    }

    /// Adds every coin of `coins`.
    pub fn add_vec(&mut self, coins: Vec<Coin>)
        requires
            old(self)@.worth() + Purse::of_coins(coins@).worth() <= u64::MAX,
        ensures
            final(self)@ == old(self)@.plus(Purse::of_coins(coins@)),
    {
        let mut i: usize = 0;
        while i < coins.len()
            invariant
                i <= coins.len(),
                self@ == old(self)@.plus(Purse::of_coins(coins@.take(i as int))),
                old(self)@.worth() + Purse::of_coins(coins@).worth() <= u64::MAX,
            decreases coins.len() - i,
        {
            proof {
                assert(coins@.take(i + 1).drop_last() =~= coins@.take(i as int));
                lemma_of_coins_grows(coins@, i + 1);
            }
            self.add(coins[i]);
            i += 1;
        }
        assert(coins@.take(i as int) =~= coins@);
    }

    /// Pours `new` into this money.
    pub fn merge(&mut self, new: Money)
        requires
            old(self)@.worth() + new@.worth() <= u64::MAX,
        ensures
            final(self)@ == old(self)@.plus(new@),
    {
        proof {
            use_type_invariant(&*self);
            use_type_invariant(&new);
        }
        self.one_count += new.one_count;
        self.two_count += new.two_count;
        self.five_count += new.five_count;
        self.ten_count += new.ten_count;
        self.twenty_count += new.twenty_count;
        self.fifty_count += new.fifty_count;
    }

    /// Gives change worth `value` out of this money and the customer's
    /// payment `user_input` together. Returns what the machine keeps and the
    /// change, or nothing where the rounds of `rest_given` do not get there.
    pub fn try_give_rest(&self, user_input: &Self, value: u64) -> (r: Option<(Money, Money)>)
        requires
            self@.worth() + user_input@.worth() <= u64::MAX,
        ensures
            match r {
                Some((kept, paid)) => rest_given(self@, user_input@, value as nat) == Some(
                    (kept@, paid@),
                ),
                None => rest_given(self@, user_input@, value as nat) is None,
            },
            r matches Some((kept, paid)) ==> paid@.worth() == value && kept@.plus(paid@)
                == self@.plus(user_input@),
    {
        let mut pool = *self;
        let mut user_money = Money::new();
        pool.merge(*user_input);
        let mut lock_level: u8 = 0;
        let mut split_now = Money::split_money(value, lock_level);
        while lock_level <= 5
            invariant
                lock_level <= 6,
                pool@.worth() + user_money@.worth() <= u64::MAX,
                rest_given(self@, user_input@, value as nat) == rest_rounds(
                    pool@,
                    split_now@,
                    user_money@,
                    lock_level as nat,
                ),
            decreases 6 - lock_level,
        {
            Money::try_substract(&mut pool, &mut split_now, &mut user_money);
            lock_level += 1;
            if split_now.value() == 0 {
                proof {
                    lemma_rest_given_sound(self@, user_input@, value as nat);
                }
                return Some((pool, user_money));
            }
            split_now = Money::split_money(split_now.value(), lock_level);
        }
        None
    }

    /// Moves from `left` to `store`, for each face value, as many coins as
    /// `right` asks for and `left` has, and strikes them from `right`.
    pub fn try_substract(left: &mut Money, right: &mut Money, store: &mut Money)
        requires
            old(store)@.worth() + old(left)@.worth() <= u64::MAX,
        ensures
            final(left)@ == old(left)@.minus(old(right)@),
            final(right)@ == old(right)@.minus(old(left)@),
            final(store)@ == old(store)@.plus(old(left)@.common(old(right)@)),
    {
        proof {
            use_type_invariant(&*left);
            use_type_invariant(&*right);
            use_type_invariant(&*store);
        }
        let mut sub = smaller(left.fifty_count, right.fifty_count);
        left.fifty_count -= sub;
        right.fifty_count -= sub;
        store.fifty_count += sub;
        sub = smaller(left.twenty_count, right.twenty_count);
        left.twenty_count -= sub;
        right.twenty_count -= sub;
        store.twenty_count += sub;
        sub = smaller(left.ten_count, right.ten_count);
        left.ten_count -= sub;
        right.ten_count -= sub;
        store.ten_count += sub;
        sub = smaller(left.five_count, right.five_count);
        left.five_count -= sub;
        right.five_count -= sub;
        store.five_count += sub;
        sub = smaller(left.two_count, right.two_count);
        left.two_count -= sub;
        right.two_count -= sub;
        store.two_count += sub;
        sub = smaller(left.one_count, right.one_count);
        left.one_count -= sub;
        right.one_count -= sub;
        store.one_count += sub;
    }

    /// The coins that make up `value`, largest allowed coin first; which
    /// coins are allowed is told by `lock_level`.
    pub fn split_money(value: u64, lock_level: u8) -> (m: Money)
        ensures
            m@ == split(value as nat, lock_level as nat),
            m@.worth() == value,
    {
        let mut rest = value;
        let fifty_count;
        let twenty_count;
        let ten_count;
        let five_count;
        let two_count;
        if lock_level <= 1 {
            fifty_count = rest / 50;
            rest = rest % 50;
        } else {
            fifty_count = 0;
        }
        if lock_level <= 2 {
            twenty_count = rest / 20;
            rest = rest % 20;
        } else {
            twenty_count = 0;
        }
        if lock_level <= 3 {
            ten_count = rest / 10;
            rest = rest % 10;
        } else {
            ten_count = 0;
        }
        if lock_level <= 4 {
            five_count = rest / 5;
            rest = rest % 5;
        } else {
            five_count = 0;
        }
        if lock_level < 5 {
            two_count = rest / 2;
            rest = rest % 2;
        } else {
            two_count = 0;
        }
        let one_count = rest;
        proof {
            lemma_split_worth(value as nat, lock_level as nat);
        }
        Money { fifty_count, twenty_count, ten_count, five_count, two_count, one_count }
    }
}

/// The smaller of `a` and `b`.
fn smaller(a: u64, b: u64) -> (m: u64)
    ensures
        m == min(a as nat, b as nat),
{
    if a <= b {
        a
    } else {
        b
    }
}

/// Counting one coin more adds that coin's purse.
proof fn lemma_of_coins_grows(coins: Seq<Coin>, n: int)
    requires
        0 < n <= coins.len(),
    ensures
        Purse::of_coins(coins.take(n)) == Purse::of_coins(coins.take(n - 1)).plus(
            Purse::single(coins[n - 1]),
        ),
        Purse::of_coins(coins.take(n)).worth() <= Purse::of_coins(coins).worth(),
        Purse::of_coins(coins.take(n)).worth() == Purse::of_coins(coins.take(n - 1)).worth() + face(
            coins[n - 1],
        ),
{
    assert(coins.take(n).drop_last() =~= coins.take(n - 1));
    lemma_of_coins_prefix(coins, n);
}

/// A prefix of the coins is worth no more than all of them.
proof fn lemma_of_coins_prefix(coins: Seq<Coin>, n: int)
    requires
        0 <= n <= coins.len(),
    ensures
        Purse::of_coins(coins.take(n)).worth() <= Purse::of_coins(coins).worth(),
    decreases coins.len() - n,
{
    if n < coins.len() {
        lemma_of_coins_prefix(coins, n + 1);
        assert(coins.take(n + 1).drop_last() =~= coins.take(n));
    } else {
        assert(coins.take(n) =~= coins);
    }
}

} // verus!
