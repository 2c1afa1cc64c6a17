//! A vending machine: a stock of goods in rows, one row per kind, and the
//! money from which it gives change.

use vstd::prelude::*;
use std::collections::HashMap;
use vstd::std_specs::iter::IteratorSpec;
use crate::money::{rest_given, Money, Purse};
use crate::product::{item_of, Amount, Item, Product};
use crate::trade::HasValue;

verus! {

/// Why goods could not be put into the stock.
#[derive(Debug, PartialEq, Eq, Structural)]
pub enum InsertionError {
    /// The row of this kind cannot take so many pieces.
    TooMuchItems,
    /// Every row is taken by another kind.
    NoEmptySpace,
}

/// Why a purchase failed.
#[derive(Debug, PartialEq, Eq, Structural)]
pub enum PurchaseError {
    /// The row holds fewer pieces than were asked for.
    NotEnoughProduct,
    /// The machine cannot make up the change from the coins at hand.
    CantGiveRest,
    /// No row holds this kind.
    NoItemOfThisType,
    /// The money given is less than the price.
    NotEnoughMoney,
}

/// How many rows a stock has.
#[derive(Clone, Copy)]
pub struct RowCount(pub u8);

/// How many pieces a row can take.
#[derive(Clone, Copy)]
pub struct InRowCount(pub u8);

/// The pieces of `items`, each as the stock keeps it.
pub open spec fn items_of<T: Product>(items: Seq<Box<T>>) -> Seq<Item> {
    Seq::new(items.len(), |i: int| item_of(*items[i]))
}

/// The rows after `count` pieces of kind `kind` left from the front of their
/// row; a row left empty is given up.
pub open spec fn rows_after_purchase(rows: Map<u64, Seq<Item>>, kind: u64, count: int) -> Map<
    u64,
    Seq<Item>,
> {
    if count == rows[kind].len() {
        rows.remove(kind)
    } else {
        rows.insert(kind, rows[kind].skip(count))
    }
}

/// What the machine shows of a row: the label and the price of its first
/// piece, and how many pieces it holds.
#[derive(Clone, Copy, Debug)]
pub struct StockLine {
    pub name: &'static str,
    pub price: u64,
    pub count: usize,
}

/// The line for `row`.
pub open spec fn line_of(row: Seq<Item>) -> StockLine {
    StockLine { name: row[0].name, price: row[0].price, count: row.len() as usize }
}

/// `line` is the line of one of the rows.
pub open spec fn line_of_a_row(rows: Map<u64, Seq<Item>>, line: StockLine) -> bool {
    exists|k: u64| #[trigger] rows.contains_key(k) && line == line_of(rows[k])
}

/// `lines` holds the line of `row`.
pub open spec fn has_line_of(lines: Seq<StockLine>, row: Seq<Item>) -> bool {
    exists|i: int| 0 <= i < lines.len() && #[trigger] lines[i] == line_of(row)
}

/// `lines` shows the rows `rows`: as many lines as rows, every line is that
/// of a row, and every row has its line. The order is not fixed.
pub open spec fn shows(lines: Seq<StockLine>, rows: Map<u64, Seq<Item>>) -> bool {
    &&& lines.len() == rows.dom().len()
    &&& forall|i: int| 0 <= i < lines.len() ==> line_of_a_row(rows, #[trigger] lines[i])
    &&& forall|k: u64| #[trigger] rows.contains_key(k) ==> has_line_of(lines, rows[k])
}

/// The goods in the machine, a row for each kind that is in stock.
pub struct Stock {
    stock_capacity: RowCount,
    in_stock_capacity: InRowCount,
    product_storage: HashMap<u64, Vec<Item>>,
}

impl Stock {
    /// The rows by kind number, each first piece first.
    pub closed spec fn rows(&self) -> Map<u64, Seq<Item>> {
        Map::new(
            |k: u64| self.product_storage@.contains_key(k),
            |k: u64| self.product_storage@[k]@,
        )
    }

    /// How many rows there can be.
    pub closed spec fn row_limit(&self) -> nat {
        self.stock_capacity.0 as nat
    }

    /// How many pieces a row can take.
    pub closed spec fn in_row_limit(&self) -> nat {
        self.in_stock_capacity.0 as nat
    }

    /// The stock's invariant: no more rows than the limit, and every row
    /// holds at least one piece and no more than a row can take.
    #[verifier::type_invariant]
    spec fn within_limits(&self) -> bool {
        &&& self.product_storage@.dom().finite()
        &&& self.product_storage@.dom().len() <= self.row_limit()
        &&& forall|k: u64| #[trigger]
            self.product_storage@.contains_key(k) ==> 0 < self.product_storage@[k]@.len()
                <= self.in_row_limit()
    }

    /// How many rows are taken. The rows keep within the limits: there are
    /// no more of them than the stock has, and each holds at least one piece
    /// and no more than a row can take.
    pub fn row_count(&self) -> (n: usize)
        ensures
            self.rows().dom().finite(),
            n == self.rows().dom().len(),
            n <= self.row_limit(),
            forall|k: u64| #[trigger]
                self.rows().contains_key(k) ==> 0 < self.rows()[k].len() <= self.in_row_limit(),
    {
        broadcast use vstd::std_specs::hash::group_hash_axioms;

        proof {
            use_type_invariant(self);
            assert(self.rows().dom() =~= self.product_storage@.dom());
        }
        self.product_storage.len()
    }

    /// An empty stock of `stock_capacity` rows of `in_stock_capacity` pieces.
    pub fn new(stock_capacity: RowCount, in_stock_capacity: InRowCount) -> (s: Self)
        ensures
            s.rows() == Map::<u64, Seq<Item>>::empty(),
            s.row_limit() == stock_capacity.0,
            s.in_row_limit() == in_stock_capacity.0,
    {
        let s = Stock { stock_capacity, in_stock_capacity, product_storage: HashMap::new() };
        assert(s.rows() =~= Map::<u64, Seq<Item>>::empty());
        s
    }

    /// One line for each row, in the order in which the rows are met.
    pub fn display_stock(&self) -> (lines: Vec<StockLine>)
        ensures
            shows(lines@, self.rows()),
    {
        broadcast use vstd::std_specs::hash::group_hash_axioms;

        proof {
            use_type_invariant(self);
        }
        let mut lines: Vec<StockLine> = Vec::new();
        let ghost all = self.product_storage.iter().remaining();
        for pair in it: self.product_storage.iter()
            invariant
                self.within_limits(),
                it.seq() == all,
                all.len() == self.product_storage@.dom().len(),
                forall|i: int|
                    0 <= i < all.len() ==> self.product_storage@.contains_key(
                        *(#[trigger] all[i]).0,
                    ) && self.product_storage@[*all[i].0] == *all[i].1,
                lines@.len() == it.index(),
                forall|i: int|
                    0 <= i < lines@.len() ==> #[trigger] lines@[i] == line_of((*all[i].1)@),
        {
            let row = pair.1;
            lines.push(StockLine { name: row[0].name, price: row[0].price, count: row.len() });
        }
        proof {
            let rows = self.rows();
            assert(rows.dom() =~= self.product_storage@.dom());
            assert(lines@.len() == all.len());
            assert forall|i: int| 0 <= i < lines@.len() implies line_of_a_row(
                rows,
                #[trigger] lines@[i],
            ) by {
                let k = *all[i].0;
                assert(rows.contains_key(k) && lines@[i] == line_of(rows[k]));
            }
            assert forall|k: u64| #[trigger] rows.contains_key(k) implies has_line_of(
                lines@,
                rows[k],
            ) by {
                let pair = (&k, &self.product_storage@[k]);
                assert(all.contains(pair));
                let i = choose|i: int| 0 <= i < all.len() && all[i] == pair;
                assert(lines@[i] == line_of(rows[k]));
            }
        }
        lines
    }

    /// Puts `items` at the end of the row of their kind, opening the row if
    /// the kind is not in stock. Refused, with nothing changed, where the
    /// row would hold more than a row can take (`TooMuchItems`) or where a
    /// new row is needed and none is free (`NoEmptySpace`, which is looked at
    /// first). Nothing to put in opens no row.
    pub fn insert<T: Product>(&mut self, items: Vec<Box<T>>) -> (r: Result<(), InsertionError>)
        ensures
            final(self).row_limit() == old(self).row_limit(),
            final(self).in_row_limit() == old(self).in_row_limit(),
            r is Err ==> final(self).rows() == old(self).rows(),
            ({
                let k = T::spec_kind();
                let rows = old(self).rows();
                if rows.contains_key(k) {
                    if rows[k].len() + items@.len() > old(self).in_row_limit() {
                        r == Err::<(), InsertionError>(InsertionError::TooMuchItems)
                    } else {
                        r is Ok && final(self).rows() == rows.insert(k, rows[k] + items_of(items@))
                    }
                } else if rows.dom().len() == old(self).row_limit() {
                    r == Err::<(), InsertionError>(InsertionError::NoEmptySpace)
                } else if items@.len() > old(self).in_row_limit() {
                    r == Err::<(), InsertionError>(InsertionError::TooMuchItems)
                } else if items@.len() == 0 {
                    r is Ok && final(self).rows() == rows
                } else {
                    r is Ok && final(self).rows() == rows.insert(k, items_of(items@))
                }
            }),
    {
        broadcast use vstd::std_specs::hash::group_hash_axioms;

        let k = T::kind();
        let n = items.len();
        let cap = self.in_stock_capacity.0 as usize;
        proof {
            use_type_invariant(&*self);
            assert(old(self).rows().dom() =~= old(self).product_storage@.dom());
        }
        if self.product_storage.contains_key(&k) {
            let have = match self.product_storage.get(&k) {
                Some(row) => row.len(),
                None => 0,
            };
            if n > cap - have {
                return Err(InsertionError::TooMuchItems);
            }
            let mut rows = HashMap::new();
            std::mem::swap(&mut rows, &mut self.product_storage);
            let mut row = match rows.remove(&k) {
                Some(row) => row,
                None => Vec::new(),
            };
            let mut more = to_items(&items);
            row.append(&mut more);
            rows.insert(k, row);
            self.product_storage = rows;
            proof {
                assert(self.rows() =~= old(self).rows().insert(
                    k,
                    old(self).rows()[k] + items_of(items@),
                ));
                assert(self.product_storage@.dom() =~= old(self).product_storage@.dom());
            }
            Ok(())
        } else {
            if self.product_storage.len() == self.stock_capacity.0 as usize {
                return Err(InsertionError::NoEmptySpace);
            }
            if n > cap {
                return Err(InsertionError::TooMuchItems);
            }
            if n > 0 {
                let row = to_items(&items);
                let mut rows = HashMap::new();
                std::mem::swap(&mut rows, &mut self.product_storage);
                rows.insert(k, row);
                self.product_storage = rows;
                proof {
                    assert(self.rows() =~= old(self).rows().insert(k, items_of(items@)));
                }
            }
            Ok(())
        }
    }

    /// The price of the first piece of kind `T` and how many pieces of it
    /// are in stock, if any is.
    pub fn get_price_and_count<T: Product>(&self) -> (r: Option<(u64, usize)>)
        ensures
            r == (if self.rows().contains_key(T::spec_kind()) {
                Some((self.rows()[T::spec_kind()][0].price, self.rows()[T::spec_kind()].len() as usize))
            } else {
                None
            }),
    {
        broadcast use vstd::std_specs::hash::group_hash_axioms;

        proof {
            use_type_invariant(self);
        }
        let k = T::kind();
        match self.product_storage.get(&k) {
            Some(row) => Some((row[0].price, row.len())),
            None => None,
        }
    }

    /// Takes the first `amount` pieces of kind `T` out of their row and
    /// returns them; a row left empty is given up.
    pub fn purchase<T: Product>(&mut self, amount: Amount) -> (bought: Vec<Item>)
        requires
            old(self).rows().contains_key(T::spec_kind()),
            amount.0 <= old(self).rows()[T::spec_kind()].len(),
        ensures
            final(self).row_limit() == old(self).row_limit(),
            final(self).in_row_limit() == old(self).in_row_limit(),
            bought@ == old(self).rows()[T::spec_kind()].take(amount.0 as int),
            final(self).rows() == rows_after_purchase(
                old(self).rows(),
                T::spec_kind(),
                amount.0 as int,
            ),
    {
        broadcast use vstd::std_specs::hash::group_hash_axioms;

        proof {
            use_type_invariant(&*self);
        }
        let k = T::kind();
        let count = amount.0 as usize;
        let mut rows = HashMap::new();
        std::mem::swap(&mut rows, &mut self.product_storage);
        let mut row = match rows.remove(&k) {
            Some(row) => row,
            None => Vec::new(),
        };
        let rest = row.split_off(count);
        if rest.len() > 0 {
            rows.insert(k, rest);
            proof {
                assert(rows@.dom() =~= old(self).product_storage@.dom());
            }
        }
        self.product_storage = rows;
        proof {
            assert(self.rows() =~= rows_after_purchase(old(self).rows(), k, amount.0 as int));
        }
        row
    }
}

/// What a purchase of `count` pieces of kind `kind` for `money` comes to, by
/// the rows `rows` and the machine's money `cash`: the first reason against
/// it, or nothing if it goes through.
pub open spec fn purchase_refusal(
    rows: Map<u64, Seq<Item>>,
    cash: Purse,
    kind: u64,
    money: Purse,
    count: nat,
) -> Option<PurchaseError> {
    if !rows.contains_key(kind) {
        Some(PurchaseError::NoItemOfThisType)
    } else if rows[kind].len() < count {
        Some(PurchaseError::NotEnoughProduct)
    } else if count * rows[kind][0].price > money.worth() {
        Some(PurchaseError::NotEnoughMoney)
    } else if rest_given(cash, money, (money.worth() - count * rows[kind][0].price) as nat)
        is None {
        Some(PurchaseError::CantGiveRest)
    } else {
        None
    }
}

/// The machine: its stock and the money it holds.
pub struct VendingMachine {
    stock: Stock,
    rest: Money,
}

impl VendingMachine {
    /// The rows of the stock by kind number.
    pub closed spec fn rows(&self) -> Map<u64, Seq<Item>> {
        self.stock.rows()
    }

    /// The money in the machine.
    pub closed spec fn cash(&self) -> Purse {
        self.rest@
    }

    /// How many rows the stock can have.
    pub closed spec fn row_limit(&self) -> nat {
        self.stock.row_limit()
    }

    /// How many pieces a row can take.
    pub closed spec fn in_row_limit(&self) -> nat {
        self.stock.in_row_limit()
    }

    /// An empty machine without money.
    pub fn new(stock_capacity: RowCount, in_stock_capacity: InRowCount) -> (vm: Self)
        ensures
            vm.rows() == Map::<u64, Seq<Item>>::empty(),
            vm.cash() == Purse::empty(),
            vm.row_limit() == stock_capacity.0,
            vm.in_row_limit() == in_stock_capacity.0,
    {
        VendingMachine { stock: Stock::new(stock_capacity, in_stock_capacity), rest: Money::new() }
    }

    /// One line for each row of the stock, in no fixed order.
    pub fn display_stock(&self) -> (lines: Vec<StockLine>)
        ensures
            shows(lines@, self.rows()),
    {
        self.stock.display_stock()
    }

    /// Puts `items` into the stock, as `Stock::insert` does.
    pub fn insert<T: Product>(&mut self, items: Vec<T>) -> (r: Result<(), InsertionError>)
        ensures
            final(self).cash() == old(self).cash(),
            final(self).row_limit() == old(self).row_limit(),
            final(self).in_row_limit() == old(self).in_row_limit(),
            r is Err ==> final(self).rows() == old(self).rows(),
            ({
                let k = T::spec_kind();
                let rows = old(self).rows();
                let pieces = Seq::new(items@.len(), |i: int| item_of(items@[i]));
                if rows.contains_key(k) {
                    if rows[k].len() + items@.len() > old(self).in_row_limit() {
                        r == Err::<(), InsertionError>(InsertionError::TooMuchItems)
                    } else {
                        r is Ok && final(self).rows() == rows.insert(k, rows[k] + pieces)
                    }
                } else if rows.dom().len() == old(self).row_limit() {
                    r == Err::<(), InsertionError>(InsertionError::NoEmptySpace)
                } else if items@.len() > old(self).in_row_limit() {
                    r == Err::<(), InsertionError>(InsertionError::TooMuchItems)
                } else if items@.len() == 0 {
                    r is Ok && final(self).rows() == rows
                } else {
                    r is Ok && final(self).rows() == rows.insert(k, pieces)
                }
            }),
    {
        let collection = boxed(items);
        proof {
            assert(items_of(collection@) =~= Seq::new(items@.len(), |i: int| item_of(items@[i])));
        }
        self.stock.insert(collection)
    }

    /// Adds `money` to the machine's money.
    pub fn add_money(&mut self, money: Money)
        requires
            old(self).cash().worth() + money@.worth() <= u64::MAX,
        ensures
            final(self).cash() == old(self).cash().plus(money@),
            final(self).rows() == old(self).rows(),
            final(self).row_limit() == old(self).row_limit(),
            final(self).in_row_limit() == old(self).in_row_limit(),
    {
        self.rest.merge(money);
    }

    /// Sells `amount` pieces of kind `T` for `money`. The price of a piece
    /// is that of the first piece in the row. Where `purchase_refusal` finds
    /// a reason against the sale, the money comes back with that reason and
    /// the machine is unchanged. Otherwise the pieces leave the front of
    /// their row, and the buyer gets them and the change; the machine keeps
    /// the rest of the coins.
    pub fn purchase<T: Product>(&mut self, money: Money, amount: Amount) -> (r: Result<
        (Vec<Item>, Money),
        (Money, PurchaseError),
    >)
        requires
            old(self).cash().worth() + money@.worth() <= u64::MAX,
        ensures
            final(self).row_limit() == old(self).row_limit(),
            final(self).in_row_limit() == old(self).in_row_limit(),
            match purchase_refusal(
                old(self).rows(),
                old(self).cash(),
                T::spec_kind(),
                money@,
                amount.0 as nat,
            ) {
                Some(reason) => {
                    &&& r == Err::<(Vec<Item>, Money), (Money, PurchaseError)>((money, reason))
                    &&& final(self).rows() == old(self).rows()
                    &&& final(self).cash() == old(self).cash()
                },
                None => {
                    let row = old(self).rows()[T::spec_kind()];
                    let owed = (money@.worth() - amount.0 * row[0].price) as nat;
                    &&& r matches Ok((bought, change))
                    &&& bought@ == row.take(amount.0 as int)
                    &&& rest_given(old(self).cash(), money@, owed) == Some(
                        (final(self).cash(), change@),
                    )
                    &&& change@.worth() == owed
                    &&& final(self).cash().plus(change@) == old(self).cash().plus(money@)
                    &&& final(self).rows() == rows_after_purchase(
                        old(self).rows(),
                        T::spec_kind(),
                        amount.0 as int,
                    )
                },
            },
    {
        proof {
            use_type_invariant(&self.stock);
        }
        let (price, count) = match self.stock.get_price_and_count::<T>() {
            Some(pc) => pc,
            None => {
                return Err((money, PurchaseError::NoItemOfThisType));
            },
        };
        if count < amount.0 as usize {
            return Err((money, PurchaseError::NotEnoughProduct));
        }
        let paid = money.value();
        assert(amount.0 * price <= u32::MAX * u64::MAX) by (nonlinear_arith)
            requires
                amount.0 <= u32::MAX,
                price <= u64::MAX,
        ;
        let cost: u128 = (amount.0 as u128) * (price as u128);
        if cost > paid as u128 {
            return Err((money, PurchaseError::NotEnoughMoney));
        }
        let required_rest = paid - (cost as u64);
        match self.rest.try_give_rest(&money, required_rest) {
            Some((machine_rest, user_rest)) => {
                self.rest = machine_rest;
                let bought = self.stock.purchase::<T>(amount);
                Ok((bought, user_rest))
            },
            None => Err((money, PurchaseError::CantGiveRest)),
        }
    }
}

/// Puts each piece of `items` in a box, in the same order.
fn boxed<T>(items: Vec<T>) -> (r: Vec<Box<T>>)
    ensures
        r@.len() == items@.len(),
        forall|i: int| 0 <= i < items@.len() ==> *#[trigger] r@[i] == items@[i],
{
    let ghost given = items@;
    let mut items = items;
    let mut back: Vec<Box<T>> = Vec::new();
    while items.len() > 0
        invariant
            items@.len() + back@.len() == given.len(),
            items@ == given.take(items@.len() as int),
            forall|j: int| 0 <= j < back@.len() ==> *back@[j] == given[given.len() - 1 - j],
        decreases items.len(),
    {
        match items.pop() {
            Some(x) => back.push(Box::new(x)),
            None => {},
        }
    }
    let mut r: Vec<Box<T>> = Vec::new();
    let ghost turned = back@;
    while back.len() > 0
        invariant
            r@.len() + back@.len() == turned.len(),
            back@ == turned.take(back@.len() as int),
            forall|j: int| 0 <= j < r@.len() ==> r@[j] == turned[turned.len() - 1 - j],
        decreases back.len(),
    {
        match back.pop() {
            Some(x) => r.push(x),
            None => {},
        }
    }
    r
}

/// Reads each piece of `items` into what the stock keeps of it.
fn to_items<T: Product>(items: &Vec<Box<T>>) -> (r: Vec<Item>)
    ensures
        r@ == items_of(items@),
{
    let mut r: Vec<Item> = Vec::new();
    let mut i: usize = 0;
    while i < items.len()
        invariant
            i <= items.len(),
            r@.len() == i,
            forall|j: int| 0 <= j < i ==> r@[j] == item_of(*items@[j]),
        decreases items.len() - i,
    {
        let item = Item::of(&*items[i]);
        r.push(item);
        i += 1;
    }
    assert(r@ =~= items_of(items@));
    r
}

} // verus!
