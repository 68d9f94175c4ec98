use token_ledger::ledger::{Erc20, Error};

#[test]
fn new_works() {
    let alice: u64 = 1;
    let (erc20, _event) = Erc20::new(alice, 1000, "MyToken".to_string(), "MTK".to_string(), 18);
    assert_eq!(erc20.total_supply(), 1000);
}

#[test]
fn balance_works() {
    let alice: u64 = 1;
    let bob: u64 = 2;
    let (erc20, _event) = Erc20::new(alice, 1000, "MyToken".to_string(), "MTK".to_string(), 18);
    assert_eq!(erc20.balance_of(alice), 1000);
    assert_eq!(erc20.balance_of(bob), 0);
}

#[test]
fn transfer_works() {
    let alice: u64 = 1;
    let bob: u64 = 2;
    let (mut erc20, _event) = Erc20::new(alice, 1000, "MyToken".to_string(), "MTK".to_string(), 18);

    assert_eq!(erc20.balance_of(alice), 1000);
    assert!(erc20.transfer(alice, bob, 100).is_ok());
    assert_eq!(erc20.balance_of(alice), 900);
    assert_eq!(erc20.balance_of(bob), 100);
}

#[test]
fn transfer_fails_insufficient_balance() {
    let alice: u64 = 1;
    let bob: u64 = 2;
    let (mut erc20, _event) = Erc20::new(alice, 1000, "MyToken".to_string(), "MTK".to_string(), 18);

    assert_eq!(erc20.transfer(alice, bob, 2000), Err(Error::InsufficientBalance));
}
