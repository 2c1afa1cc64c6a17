use incubator::money::{Amount, Coin, Money};
use incubator::product::{Cola, Item, Product, Snickers};
use incubator::trade::HasValue;
use incubator::vending::{
    InRowCount, InsertionError, PurchaseError, RowCount, Stock, StockLine, VendingMachine,
};

fn counts(m: &Money) -> [u64; 6] {
    [
        m.count(Coin::One),
        m.count(Coin::Two),
        m.count(Coin::Five),
        m.count(Coin::Ten),
        m.count(Coin::Twenty),
        m.count(Coin::Fifty),
    ]
}

fn money_of(coins: Vec<Coin>) -> Money {
    let mut m = Money::new();
    m.add_vec(coins);
    m
}

#[test]
fn coins_are_worth_their_face() {
    assert_eq!(Coin::One.value(), 1);
    assert_eq!(Coin::Two.value(), 2);
    assert_eq!(Coin::Five.value(), 5);
    assert_eq!(Coin::Ten.value(), 10);
    assert_eq!(Coin::Twenty.value(), 20);
    assert_eq!(Coin::Fifty.value(), 50);
}

#[test]
fn money_counts_and_adds_up() {
    let mut m = Money::new();
    assert_eq!(m.value(), 0);
    m.add(Coin::Fifty);
    m.add(Coin::Two);
    m.add(Coin::Two);
    assert_eq!(counts(&m), [0, 2, 0, 0, 0, 1]);
    assert_eq!(m.value(), 54);
    m.add_vec(vec![Coin::One, Coin::Five, Coin::Ten, Coin::Twenty, Coin::One]);
    assert_eq!(counts(&m), [2, 2, 1, 1, 1, 1]);
    assert_eq!(m.value(), 91);
    let mut other = Money::new();
    other.add(Coin::Ten);
    other.merge(m);
    assert_eq!(counts(&other), [2, 2, 1, 2, 1, 1]);
    assert_eq!(other.value(), 101);
    assert_eq!(Amount::from(7).get(), 7);
}

#[test]
fn split_takes_largest_allowed_coin_first() {
    assert_eq!(counts(&Money::split_money(88, 0)), [1, 1, 1, 1, 1, 1]);
    assert_eq!(counts(&Money::split_money(88, 1)), [1, 1, 1, 1, 1, 1]);
    assert_eq!(counts(&Money::split_money(88, 2)), [1, 1, 1, 0, 4, 0]);
    assert_eq!(counts(&Money::split_money(88, 3)), [1, 1, 1, 8, 0, 0]);
    assert_eq!(counts(&Money::split_money(88, 4)), [1, 1, 17, 0, 0, 0]);
    assert_eq!(counts(&Money::split_money(88, 5)), [88, 0, 0, 0, 0, 0]);
    assert_eq!(counts(&Money::split_money(88, 9)), [88, 0, 0, 0, 0, 0]);
    assert_eq!(counts(&Money::split_money(0, 0)), [0, 0, 0, 0, 0, 0]);
    for level in 0..7u8 {
        assert_eq!(Money::split_money(12345, level).value(), 12345);
        assert_eq!(Money::split_money(u64::MAX, level).value(), u64::MAX);
    }
}

#[test]
fn subtraction_moves_what_both_have() {
    let mut left = money_of(vec![Coin::Fifty, Coin::Fifty, Coin::Ten, Coin::One]);
    let mut right = money_of(vec![Coin::Fifty, Coin::Ten, Coin::Ten, Coin::Two]);
    let mut store = money_of(vec![Coin::One]);
    Money::try_substract(&mut left, &mut right, &mut store);
    assert_eq!(counts(&left), [1, 0, 0, 0, 0, 1]);
    assert_eq!(counts(&right), [0, 1, 0, 1, 0, 0]);
    assert_eq!(counts(&store), [1, 0, 0, 1, 0, 1]);
}

#[test]
fn rest_is_given_in_rounds() {
    let machine = money_of(vec![Coin::Ten, Coin::Ten, Coin::Five, Coin::Two, Coin::One]);
    let input = money_of(vec![Coin::Fifty]);
    // 27 owed: 20 + 5 + 2 first; no twenty at hand, so the 20 becomes 10 + 10.
    let (kept, paid) = machine.try_give_rest(&input, 27).unwrap();
    assert_eq!(counts(&paid), [0, 1, 1, 2, 0, 0]);
    assert_eq!(counts(&kept), [1, 0, 0, 0, 0, 1]);
    assert_eq!(paid.value(), 27);
    assert_eq!(kept.value() + paid.value(), machine.value() + input.value());
    // nothing owed
    let (kept, paid) = machine.try_give_rest(&input, 0).unwrap();
    assert_eq!(paid.value(), 0);
    assert_eq!(kept.value(), 78);
    // cannot be made up: only a fifty and a ten at hand
    let poor = money_of(vec![Coin::Ten]);
    assert!(poor.try_give_rest(&input, 3).is_none());
    // the customer's own coins count
    let empty = Money::new();
    let twos = money_of(vec![Coin::Two, Coin::Two, Coin::One]);
    let (kept, paid) = empty.try_give_rest(&twos, 3).unwrap();
    assert_eq!(counts(&paid), [1, 1, 0, 0, 0, 0]);
    assert_eq!(counts(&kept), [0, 1, 0, 0, 0, 0]);
}

#[test]
fn products_tell_kind_name_and_price() {
    assert_eq!(Snickers {}.value(), 23);
    assert_eq!(Cola {}.value(), 47);
    assert_eq!(Snickers {}.name(), "Snickers");
    assert_eq!(Cola {}.name(), "Cola");
    assert_ne!(Snickers::kind(), Cola::kind());
    let item = Item::of(&Cola {});
    assert_eq!((item.kind, item.name, item.price), (Cola::kind(), "Cola", 47));
}

#[test]
fn stock_keeps_rows_within_limits() {
    let mut stock = Stock::new(RowCount(1), InRowCount(3));
    assert_eq!(stock.get_price_and_count::<Snickers>(), None);
    assert_eq!(stock.insert::<Snickers>(vec![]), Ok(()));
    assert_eq!(stock.get_price_and_count::<Snickers>(), None);
    assert_eq!(
        stock.insert(vec![Box::new(Snickers {}), Box::new(Snickers {})]),
        Ok(())
    );
    assert_eq!(stock.get_price_and_count::<Snickers>(), Some((23, 2)));
    assert_eq!(
        stock.insert(vec![Box::new(Snickers {}), Box::new(Snickers {})]),
        Err(InsertionError::TooMuchItems)
    );
    assert_eq!(stock.insert(vec![Box::new(Snickers {})]), Ok(()));
    assert_eq!(stock.get_price_and_count::<Snickers>(), Some((23, 3)));
    assert_eq!(
        stock.insert(vec![Box::new(Cola {})]),
        Err(InsertionError::NoEmptySpace)
    );
    assert_eq!(stock.row_count(), 1);
    let lines: Vec<StockLine> = stock.display_stock();
    assert_eq!(lines.len(), 1);
    assert_eq!((lines[0].name, lines[0].price, lines[0].count), ("Snickers", 23, 3));
    let bought = stock.purchase::<Snickers>(2.into());
    assert_eq!(bought.len(), 2);
    assert_eq!(stock.get_price_and_count::<Snickers>(), Some((23, 1)));
    let bought = stock.purchase::<Snickers>(1.into());
    assert_eq!(bought.len(), 1);
    assert_eq!(stock.get_price_and_count::<Snickers>(), None);
    assert_eq!(stock.insert(vec![Box::new(Cola {})]), Ok(()));
    let wide = Stock::new(RowCount(2), InRowCount(1));
    assert_eq!(wide.row_count(), 0);
    assert_eq!(wide.display_stock().len(), 0);
    let mut small = Stock::new(RowCount(2), InRowCount(1));
    assert_eq!(
        small.insert(vec![Box::new(Cola {}), Box::new(Cola {})]),
        Err(InsertionError::TooMuchItems)
    );
}

#[test]
fn machine_sells_and_gives_change() {
    let mut vm = VendingMachine::new(RowCount(1), InRowCount(12));
    assert_eq!(
        vm.insert(vec![Snickers {}, Snickers {}, Snickers {}, Snickers {}]),
        Ok(())
    );
    assert_eq!(
        vm.insert(vec![Cola {}, Cola {}, Cola {}, Cola {}]),
        Err(InsertionError::NoEmptySpace)
    );
    let lines = vm.display_stock();
    assert_eq!(lines.len(), 1);
    assert_eq!((lines[0].name, lines[0].price, lines[0].count), ("Snickers", 23, 4));
    let mut coins = Vec::new();
    for _ in 0..4 {
        coins.push(Coin::Twenty);
        coins.push(Coin::Ten);
        coins.push(Coin::One);
    }
    for _ in 0..5 {
        coins.push(Coin::Five);
        coins.push(Coin::Fifty);
    }
    vm.add_money(money_of(coins));
    let money = money_of(vec![Coin::Fifty, Coin::Fifty]);
    assert_eq!(money.value(), 100);

    let err = vm.purchase::<Cola>(money, 2.into()).unwrap_err();
    assert_eq!(err.1, PurchaseError::NoItemOfThisType);
    assert_eq!(err.0.value(), 100);

    let err = vm.purchase::<Snickers>(money, 5.into()).unwrap_err();
    assert_eq!(err.1, PurchaseError::NotEnoughProduct);

    let small = money_of(vec![Coin::Twenty]);
    let err = vm.purchase::<Snickers>(small, 1.into()).unwrap_err();
    assert_eq!(err.1, PurchaseError::NotEnoughMoney);
    assert_eq!(err.0.value(), 20);

    // two bars cost 46; the change of 54 is 50 + 2 + 2 at first, and the
    // machine has no coin of two: 5 - 1 is out of reach, so 4 ones go.
    let (bought, change) = vm.purchase::<Snickers>(money, 2.into()).unwrap();
    assert_eq!(bought.len(), 2);
    assert_eq!(bought[0].price, 23);
    assert_eq!(change.value(), 54);
    assert_eq!(counts(&change), [4, 0, 0, 0, 0, 1]);
    let lines = vm.display_stock();
    assert_eq!(lines[0].count, 2);

    // no ones are left: a change of 4 cannot be given
    let odd = money_of(vec![Coin::Twenty, Coin::Five, Coin::Two]);
    let err = vm.purchase::<Snickers>(odd, 1.into()).unwrap_err();
    assert_eq!(err.1, PurchaseError::CantGiveRest);
    assert_eq!(err.0.value(), 27);
    assert_eq!(vm.display_stock()[0].count, 2);

    let exact = money_of(vec![Coin::Twenty, Coin::Two, Coin::One]);
    let (bought, change) = vm.purchase::<Snickers>(exact, 1.into()).unwrap();
    assert_eq!(bought.len(), 1);
    assert_eq!(change.value(), 0);
    let (bought, _) = vm.purchase::<Snickers>(exact, 0.into()).unwrap();
    assert_eq!(bought.len(), 0);
    let (bought, _) = vm.purchase::<Snickers>(exact, 1.into()).unwrap();
    assert_eq!(bought.len(), 1);
    assert_eq!(vm.display_stock().len(), 0);
    assert_eq!(vm.insert(vec![Cola {}]), Ok(()));
}
