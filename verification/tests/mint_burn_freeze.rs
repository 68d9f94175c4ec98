use token_ledger::ledger::{Erc20, Error, Transfer};

const AUTHORITY: u64 = 7;
const ALICE: u64 = 1;
const BOB: u64 = 2;

fn capped_ledger(cap: u64) -> Erc20 {
    Erc20::initialize_mint(AUTHORITY, "Capped".to_string(), "CAP".to_string(), 6, cap)
}

#[test]
fn initialize_mint_starts_empty() {
    let ledger = capped_ledger(100);
    assert_eq!(ledger.total_supply(), 0);
    assert_eq!(ledger.balance_of(ALICE), 0);
    assert_eq!(ledger.mint_authority(), Some(AUTHORITY));
    assert_eq!(ledger.max_supply(), Some(100));
    assert_eq!(ledger.name(), "Capped".to_string());
    assert_eq!(ledger.symbol(), "CAP".to_string());
    assert_eq!(ledger.decimals(), 6);
}

#[test]
fn initialize_with_supply_authority_and_cap() {
    let (mut ledger, event) = Erc20::initialize(
        ALICE,
        500,
        "General".to_string(),
        "GEN".to_string(),
        9,
        Some(AUTHORITY),
        Some(1000),
    );
    assert_eq!(event, Transfer { from: None, to: Some(ALICE), value: 500 });
    assert_eq!(ledger.total_supply(), 500);
    assert_eq!(ledger.balance_of(ALICE), 500);
    assert_eq!(ledger.mint_authority(), Some(AUTHORITY));
    assert_eq!(ledger.max_supply(), Some(1000));
    assert!(ledger.mint_tokens(AUTHORITY, BOB, 500).is_ok());
    assert_eq!(ledger.mint_tokens(AUTHORITY, BOB, 1), Err(Error::MaxSupplyExceeded));
    assert_eq!(ledger.total_supply(), 1000);
}

#[test]
fn mint_credits_recipient_and_emits_event() {
    let mut ledger = capped_ledger(100);
    let event = ledger.mint_tokens(AUTHORITY, ALICE, 40).unwrap();
    assert_eq!(event, Transfer { from: None, to: Some(ALICE), value: 40 });
    assert_eq!(ledger.balance_of(ALICE), 40);
    assert_eq!(ledger.total_supply(), 40);
}

#[test]
fn mint_to_cap_exactly_then_one_more_fails() {
    let mut ledger = capped_ledger(100);
    assert!(ledger.mint_tokens(AUTHORITY, ALICE, 100).is_ok());
    assert_eq!(ledger.total_supply(), 100);
    assert_eq!(ledger.mint_tokens(AUTHORITY, ALICE, 1), Err(Error::MaxSupplyExceeded));
    assert_eq!(ledger.total_supply(), 100);
    assert_eq!(ledger.balance_of(ALICE), 100);
}

#[test]
fn mint_requires_authority() {
    let mut ledger = capped_ledger(100);
    assert_eq!(ledger.mint_tokens(ALICE, ALICE, 10), Err(Error::Unauthorized));
    assert_eq!(ledger.total_supply(), 0);
}

#[test]
fn uncapped_mint_is_bounded_by_the_counter() {
    // With no cap configured, anyone may mint, up to the width of the
    // supply counter.
    let (mut ledger, _) = Erc20::new(ALICE, 1000, "Free".to_string(), "FRE".to_string(), 0);
    assert_eq!(ledger.mint_tokens(BOB, BOB, u64::MAX), Err(Error::MaxSupplyExceeded));
    assert_eq!(ledger.total_supply(), 1000);
    assert!(ledger.mint_tokens(BOB, BOB, u64::MAX - 1000).is_ok());
    assert_eq!(ledger.total_supply(), u64::MAX);
    assert_eq!(ledger.mint_tokens(BOB, BOB, 1), Err(Error::MaxSupplyExceeded));
}

#[test]
fn burn_debits_caller_and_shrinks_supply() {
    let mut ledger = capped_ledger(100);
    ledger.mint_tokens(AUTHORITY, ALICE, 80).unwrap();
    let event = ledger.burn_tokens(ALICE, 30).unwrap();
    assert_eq!(event, Transfer { from: Some(ALICE), to: None, value: 30 });
    assert_eq!(ledger.balance_of(ALICE), 50);
    assert_eq!(ledger.total_supply(), 50);
}

#[test]
fn burn_fails_on_short_balance() {
    let mut ledger = capped_ledger(100);
    ledger.mint_tokens(AUTHORITY, ALICE, 20).unwrap();
    assert_eq!(ledger.burn_tokens(ALICE, 21), Err(Error::InsufficientBalance));
    assert_eq!(ledger.balance_of(ALICE), 20);
    assert_eq!(ledger.total_supply(), 20);
}

#[test]
fn freeze_blocks_outgoing_transfers_only() {
    let mut ledger = capped_ledger(100);
    ledger.mint_tokens(AUTHORITY, ALICE, 50).unwrap();
    ledger.mint_tokens(AUTHORITY, BOB, 10).unwrap();
    assert!(ledger.freeze(AUTHORITY, ALICE).is_ok());
    assert!(ledger.is_frozen(ALICE));
    assert_eq!(ledger.transfer(ALICE, BOB, 5), Err(Error::AccountFrozen));
    // Incoming transfers and mints still reach a frozen account.
    assert!(ledger.transfer(BOB, ALICE, 5).is_ok());
    assert!(ledger.mint_tokens(AUTHORITY, ALICE, 5).is_ok());
    assert_eq!(ledger.balance_of(ALICE), 60);
}

#[test]
fn frozen_source_is_reported_before_balance() {
    let mut ledger = capped_ledger(100);
    ledger.mint_tokens(AUTHORITY, ALICE, 10).unwrap();
    ledger.freeze(AUTHORITY, ALICE).unwrap();
    // The balance is also short of 50; the freeze is what is reported.
    assert_eq!(ledger.transfer(ALICE, BOB, 50), Err(Error::AccountFrozen));
}

#[test]
fn frozen_source_blocks_delegated_transfer() {
    let mut ledger = capped_ledger(100);
    ledger.mint_tokens(AUTHORITY, ALICE, 50).unwrap();
    ledger.approve(ALICE, BOB, 40);
    ledger.freeze(AUTHORITY, ALICE).unwrap();
    assert_eq!(ledger.transfer_from(BOB, ALICE, BOB, 10), Err(Error::AccountFrozen));
    // The undersupplied allowance still takes precedence over the freeze.
    assert_eq!(ledger.transfer_from(BOB, ALICE, BOB, 45), Err(Error::InsufficientAllowance));
}

#[test]
fn thaw_restores_transfers() {
    let mut ledger = capped_ledger(100);
    ledger.mint_tokens(AUTHORITY, ALICE, 50).unwrap();
    ledger.freeze(AUTHORITY, ALICE).unwrap();
    assert!(ledger.thaw(AUTHORITY, ALICE).is_ok());
    assert!(!ledger.is_frozen(ALICE));
    assert!(ledger.transfer(ALICE, BOB, 5).is_ok());
    assert_eq!(ledger.balance_of(BOB), 5);
}

#[test]
fn freeze_requires_the_authority() {
    let mut ledger = capped_ledger(100);
    assert_eq!(ledger.freeze(ALICE, BOB), Err(Error::Unauthorized));
    assert_eq!(ledger.thaw(ALICE, BOB), Err(Error::Unauthorized));
    // A ledger without a configured authority offers no freeze capability.
    let (mut open_ledger, _) = Erc20::new(ALICE, 10, "Free".to_string(), "FRE".to_string(), 0);
    assert_eq!(open_ledger.freeze(ALICE, BOB), Err(Error::Unauthorized));
}
