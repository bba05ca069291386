use banana_token::errors::Error;
use banana_token::ledger::Ledger;
use banana_token::market::MonkeyShow;
use banana_token::token::BananaToken;

#[test]
fn flipping() {
    let alice: u64 = 1;
    let mut contract = BananaToken::new();
    assert_eq!(contract.init(0, alice), Ok(()));
}

#[test]
fn init_twice_fails() {
    let mut contract = BananaToken::new();
    assert_eq!(contract.init(0, 1), Ok(()));
    assert_eq!(contract.init(0, 1), Err(Error::AlreadyInitialized));
}

#[test]
fn init_fixed_parameters() {
    let deployer: u64 = 7;
    let approved: u64 = 9;
    let mut contract = BananaToken::new();
    contract.init(deployer, approved).unwrap();
    assert_eq!(contract.name(), "BananaToken".to_string());
    assert_eq!(contract.symbol(), "BNT".to_string());
    assert_eq!(contract.decimals(), 18);
    assert_eq!(contract.total_supply(), 1_000_000);
    assert_eq!(contract.balance_of(deployer), 1_000_000);
    assert_eq!(contract.allowance(deployer, approved), u128::MAX);
    assert_eq!(contract.allowance(approved, deployer), 0);
    assert_eq!(contract.allowance(deployer, deployer), 0);
}

#[test]
fn initialize_supply_to_alice() {
    // Initialize with supply 1,000,000 credited to Alice: she holds it all,
    // Bob holds nothing.
    let alice: u64 = 1;
    let bob: u64 = 2;
    let mut ledger = Ledger::new();
    assert_eq!(ledger.initialize("BananaToken", "BNT", 18, 1_000_000, alice), Ok(()));
    assert_eq!(ledger.balance_of(alice), 1_000_000);
    assert_eq!(ledger.balance_of(bob), 0);
    assert_eq!(ledger.total_supply(), 1_000_000);
}

#[test]
fn initialize_twice_fails_unchanged() {
    let mut ledger = Ledger::new();
    ledger.initialize("BananaToken", "BNT", 18, 1_000_000, 1).unwrap();
    assert_eq!(ledger.initialize("Other", "OTH", 6, 5, 2), Err(Error::AlreadyInitialized));
    assert_eq!(ledger.balance_of(1), 1_000_000);
    assert_eq!(ledger.balance_of(2), 0);
    assert_eq!(ledger.total_supply(), 1_000_000);
    assert_eq!(ledger.name(), "BananaToken".to_string());
}

#[test]
fn transfer_moves_units() {
    let mut ledger = Ledger::new();
    ledger.initialize("BananaToken", "BNT", 18, 1_000_000, 1).unwrap();
    assert_eq!(ledger.transfer(1, 2, 400), Ok(()));
    assert_eq!(ledger.balance_of(1), 999_600);
    assert_eq!(ledger.balance_of(2), 400);
}

#[test]
fn transfer_insufficient_balance_unchanged() {
    let mut ledger = Ledger::new();
    ledger.initialize("BananaToken", "BNT", 18, 100, 1).unwrap();
    assert_eq!(ledger.transfer(1, 2, 101), Err(Error::InsufficientBalance));
    assert_eq!(ledger.balance_of(1), 100);
    assert_eq!(ledger.balance_of(2), 0);
    // An account that holds nothing cannot send anything but zero.
    assert_eq!(ledger.transfer(3, 1, 1), Err(Error::InsufficientBalance));
    assert_eq!(ledger.transfer(3, 1, 0), Ok(()));
    assert_eq!(ledger.balance_of(1), 100);
}

#[test]
fn self_transfer_passes_check_changes_nothing() {
    let mut ledger = Ledger::new();
    ledger.initialize("BananaToken", "BNT", 18, 100, 1).unwrap();
    assert_eq!(ledger.transfer(1, 1, 60), Ok(()));
    assert_eq!(ledger.balance_of(1), 100);
    // The sufficiency check still applies to a self-transfer.
    assert_eq!(ledger.transfer(1, 1, 101), Err(Error::InsufficientBalance));
    assert_eq!(ledger.balance_of(1), 100);
}

#[test]
fn approve_is_absolute_not_additive() {
    let mut ledger = Ledger::new();
    ledger.initialize("BananaToken", "BNT", 18, 1_000, 1).unwrap();
    ledger.approve(1, 2, 300);
    assert_eq!(ledger.allowance(1, 2), 300);
    ledger.approve(1, 2, 100);
    assert_eq!(ledger.allowance(1, 2), 100);
    ledger.approve(1, 2, 0);
    assert_eq!(ledger.allowance(1, 2), 0);
}

#[test]
fn approve_touches_only_its_pair() {
    let mut ledger = Ledger::new();
    ledger.initialize("BananaToken", "BNT", 18, 1_000, 1).unwrap();
    ledger.approve(1, 2, 55);
    assert_eq!(ledger.allowance(1, 2), 55);
    assert_eq!(ledger.allowance(2, 1), 0);
    assert_eq!(ledger.allowance(1, 3), 0);
    assert_eq!(ledger.balance_of(1), 1_000);
}

#[test]
fn transfer_from_consumes_exact_allowance() {
    let mut ledger = Ledger::new();
    ledger.initialize("BananaToken", "BNT", 18, 1_000, 1).unwrap();
    ledger.approve(1, 2, 500);
    assert_eq!(ledger.transfer_from(2, 1, 3, 200), Ok(()));
    assert_eq!(ledger.allowance(1, 2), 300);
    assert_eq!(ledger.balance_of(1), 800);
    assert_eq!(ledger.balance_of(3), 200);
}

#[test]
fn transfer_from_over_allowance_unchanged() {
    // An allowance of 100 and a requested amount of 101: the call fails with
    // InsufficientAllowance and leaves balances and the allowance as they were.
    let mut ledger = Ledger::new();
    ledger.initialize("BananaToken", "BNT", 18, 1_000, 1).unwrap();
    ledger.approve(1, 2, 100);
    assert_eq!(ledger.transfer_from(2, 1, 3, 101), Err(Error::InsufficientAllowance));
    assert_eq!(ledger.allowance(1, 2), 100);
    assert_eq!(ledger.balance_of(1), 1_000);
    assert_eq!(ledger.balance_of(3), 0);
}

#[test]
fn transfer_from_over_balance_unchanged() {
    let mut ledger = Ledger::new();
    ledger.initialize("BananaToken", "BNT", 18, 50, 1).unwrap();
    ledger.approve(1, 2, 100);
    assert_eq!(ledger.transfer_from(2, 1, 3, 60), Err(Error::InsufficientBalance));
    assert_eq!(ledger.allowance(1, 2), 100);
    assert_eq!(ledger.balance_of(1), 50);
    assert_eq!(ledger.balance_of(3), 0);
}

#[test]
fn reads_are_idempotent() {
    let mut ledger = Ledger::new();
    ledger.initialize("BananaToken", "BNT", 18, 1_000, 1).unwrap();
    ledger.approve(1, 2, 77);
    assert_eq!(ledger.balance_of(1), ledger.balance_of(1));
    assert_eq!(ledger.allowance(1, 2), ledger.allowance(1, 2));
    assert_eq!(ledger.total_supply(), ledger.total_supply());
    assert_eq!(ledger.name(), ledger.name());
    assert_eq!(ledger.symbol(), ledger.symbol());
    assert_eq!(ledger.decimals(), ledger.decimals());
}

#[test]
fn conservation_across_transfers() {
    let mut ledger = Ledger::new();
    ledger.initialize("BananaToken", "BNT", 18, 1_000_000, 1).unwrap();
    ledger.transfer(1, 2, 123_456).unwrap();
    ledger.transfer(2, 3, 56).unwrap();
    ledger.approve(1, 4, 10_000);
    ledger.transfer_from(4, 1, 4, 9_999).unwrap();
    let total = ledger.balance_of(1) + ledger.balance_of(2) + ledger.balance_of(3)
        + ledger.balance_of(4);
    assert_eq!(total, 1_000_000);
    assert_eq!(ledger.total_supply(), 1_000_000);
}

#[test]
fn sell_escrows_and_lists() {
    // Alice approves the marketplace for 500 units and lists 500 at price 10:
    // her balance drops to 999,500, the marketplace holds 500 in custody,
    // and the listing reads back 10.
    let alice: u64 = 1;
    let marketplace_account: u64 = 100;
    let token_addr: u64 = 42;
    let mut token = BananaToken::new();
    token.init(alice, marketplace_account).unwrap();
    let mut market = MonkeyShow::new(marketplace_account);
    token.approve(alice, marketplace_account, 500);
    assert_eq!(market.sell(&mut token, token_addr, alice, 500, 10), Ok(()));
    assert_eq!(token.balance_of(alice), 999_500);
    assert_eq!(token.balance_of(marketplace_account), 500);
    assert_eq!(market.listing(token_addr), Some(10));
    // The escrow transfer consumed the whole approval.
    assert_eq!(token.allowance(alice, marketplace_account), 0);
}

#[test]
fn sell_without_approval_writes_no_listing() {
    let alice: u64 = 1;
    let marketplace_account: u64 = 100;
    let token_addr: u64 = 42;
    let mut token = BananaToken::new();
    token.init(alice, 9).unwrap();
    let mut market = MonkeyShow::new(marketplace_account);
    assert_eq!(
        market.sell(&mut token, token_addr, alice, 500, 10),
        Err(Error::InsufficientAllowance)
    );
    assert_eq!(market.listing(token_addr), None);
    assert_eq!(token.balance_of(alice), 1_000_000);
    assert_eq!(token.balance_of(marketplace_account), 0);
}

#[test]
fn sell_overwrites_prior_listing() {
    let alice: u64 = 1;
    let marketplace_account: u64 = 100;
    let token_addr: u64 = 42;
    let mut token = BananaToken::new();
    token.init(alice, marketplace_account).unwrap();
    let mut market = MonkeyShow::new(marketplace_account);
    token.approve(alice, marketplace_account, 1_000);
    market.sell(&mut token, token_addr, alice, 300, 10).unwrap();
    market.sell(&mut token, token_addr, alice, 200, 25).unwrap();
    assert_eq!(market.listing(token_addr), Some(25));
    assert_eq!(token.balance_of(marketplace_account), 500);
}

#[test]
fn purchase_without_listing_fails() {
    // No prior listing for the token: the purchase fails with ListingNotFound.
    let mut market = MonkeyShow::new(100);
    assert_eq!(market.buy(42, 10, 0), Err(Error::ListingNotFound));
    assert_eq!(market.buy(42, 10, 500), Err(Error::ListingNotFound));
}

#[test]
fn purchase_overpayment_rejected() {
    // With a listed price of 10, buying 5 with 60 attached exceeds
    // price * amount = 50 and fails the overpayment guard.
    let alice: u64 = 1;
    let marketplace_account: u64 = 100;
    let token_addr: u64 = 42;
    let mut token = BananaToken::new();
    token.init(alice, marketplace_account).unwrap();
    let mut market = MonkeyShow::new(marketplace_account);
    token.approve(alice, marketplace_account, 500);
    market.sell(&mut token, token_addr, alice, 500, 10).unwrap();
    assert_eq!(market.buy(token_addr, 5, 60), Err(Error::InsufficientPayment));
    // The guard rejects overpayment only: exact payment and underpayment pass.
    assert_eq!(market.buy(token_addr, 5, 50), Ok(()));
    assert_eq!(market.buy(token_addr, 5, 49), Ok(()));
    assert_eq!(market.buy(token_addr, 5, 0), Ok(()));
    // The purchase path moves nothing: the listing and all balances stay.
    assert_eq!(market.listing(token_addr), Some(10));
    assert_eq!(token.balance_of(alice), 999_500);
    assert_eq!(token.balance_of(marketplace_account), 500);
}
