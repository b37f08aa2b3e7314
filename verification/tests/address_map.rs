//! The association list and the book's copies.

use creditra_credit::address_map::AddressMap;
use creditra_credit::book::{Call, CreditBook};
use creditra_credit::lifecycle::{forgive_debt, open_credit_line, set_repayment_schedule};
use creditra_credit::types::{Address, AddressKind, ContractError, CreditLineData, Symbol};

fn account(lo: u128) -> Address {
    Address { kind: AddressKind::Account, hi: 0, lo }
}

#[test]
fn a_map_holds_one_value_under_each_address() {
    let mut map: AddressMap<u32> = AddressMap::new();
    assert_eq!(map.get(account(1)), None);
    map.insert(account(1), 10);
    map.insert(account(2), 20);
    map.insert(account(1), 11);
    assert_eq!(map.get(account(1)), Some(11));
    assert_eq!(map.get(account(2)), Some(20));
    map.remove(account(1));
    map.remove(account(3));
    assert_eq!(map.get(account(1)), None);
    assert_eq!(map.get(account(2)), Some(20));
}

#[test]
fn addresses_differ_in_every_part() {
    let mut map: AddressMap<u32> = AddressMap::new();
    map.insert(account(1), 1);
    map.insert(Address { kind: AddressKind::Contract, hi: 0, lo: 1 }, 2);
    map.insert(Address { kind: AddressKind::Account, hi: 1, lo: 1 }, 3);
    assert_eq!(map.get(account(1)), Some(1));
    assert_eq!(map.get(Address { kind: AddressKind::Contract, hi: 0, lo: 1 }), Some(2));
    assert_eq!(map.get(Address { kind: AddressKind::Account, hi: 1, lo: 1 }), Some(3));
}

#[test]
fn a_copy_is_independent() {
    let mut book = CreditBook::new(Some(account(1)), 100, 50);
    let call = Call { now: 3, signers: vec![account(1)] };
    open_credit_line(&mut book, &call, account(2), 100, 1, 1).unwrap();
    let key = (Symbol { hi: 1, lo: 1 }, account(2), Symbol { hi: 2, lo: 2 });
    book.mark_settled(key);
    let copy = book.duplicate();
    open_credit_line(&mut book, &call, account(3), 100, 1, 1).unwrap();
    assert_eq!(copy.lines.get(account(3)), None);
    assert_eq!(copy.lines.get(account(2)), book.lines.get(account(2)));
    assert_eq!(copy.events.len(), 1);
    assert!(copy.is_settled(key));
    assert!(!copy.is_settled((key.0, account(3), key.2)));
}

#[test]
fn a_call_leaves_other_borrowers_alone() {
    let mut book = CreditBook::new(Some(account(1)), 100, 50);
    let call = Call { now: 3, signers: vec![account(1)] };
    open_credit_line(&mut book, &call, account(2), 100, 1, 1).unwrap();
    open_credit_line(&mut book, &call, account(3), 100, 1, 1).unwrap();
    set_repayment_schedule(&mut book, &call, account(3), 5, 5, 5).unwrap();
    let line = book.lines.get(account(3));
    let schedule = book.schedules.get(account(3));
    let charge = |line: CreditLineData| -> Result<CreditLineData, ContractError> {
        Ok(CreditLineData { utilized_amount: 9, ..line })
    };
    forgive_debt(&mut book, &call, account(2), 4, charge).unwrap();
    open_credit_line(&mut book, &call, account(2), 50, 1, 1).unwrap_err();
    assert_eq!(book.lines.get(account(2)).unwrap().utilized_amount, 5);
    assert_eq!(book.lines.get(account(3)), line);
    assert_eq!(book.schedules.get(account(3)), schedule);
    assert_eq!(book.total_utilized, 5);
    assert_eq!(book.events.len(), 2);
}
