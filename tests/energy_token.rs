use energy_market::energy_token::{Error, Event, Pallet};

#[test]
fn mint_tokens_works() {
    let mut ledger = Pallet::new();
    let account = 1;
    let amount = 100;

    assert_eq!(ledger.mint_tokens(account, amount), Ok(Event::TokensMinted { account, amount }));
    assert_eq!(ledger.token_balance(account), amount);
}

#[test]
fn transfer_works() {
    let mut ledger = Pallet::new();
    let from = 1;
    let to = 2;
    let amount = 50;

    assert!(ledger.mint_tokens(from, 100).is_ok());
    assert_eq!(ledger.transfer(from, to, amount), Ok(Event::TokensTransferred { from, to, amount }));

    assert_eq!(ledger.token_balance(from), 50);
    assert_eq!(ledger.token_balance(to), amount);
}

#[test]
fn transfer_fails_with_insufficient_balance() {
    let mut ledger = Pallet::new();
    let from = 1;
    let to = 2;
    let amount = 100;

    assert_eq!(ledger.transfer(from, to, amount), Err(Error::InsufficientBalance));
    assert_eq!(ledger.token_balance(from), 0);
    assert_eq!(ledger.token_balance(to), 0);
}

#[test]
fn ledger_scenario_mint_transfer_and_refusal() {
    let mut ledger = Pallet::new();
    let (a, b) = (1, 2);
    assert!(ledger.mint_tokens(a, 100).is_ok());
    assert!(ledger.transfer(a, b, 50).is_ok());
    assert_eq!(ledger.token_balance(a), 50);
    assert_eq!(ledger.token_balance(b), 50);

    assert_eq!(ledger.transfer(a, b, 60), Err(Error::InsufficientBalance));
    assert_eq!(ledger.token_balance(a), 50);
    assert_eq!(ledger.token_balance(b), 50);
}

#[test]
fn mint_overflow_is_refused_and_keeps_balance() {
    let mut ledger = Pallet::new();
    assert!(ledger.mint_tokens(7, u128::MAX - 1).is_ok());
    assert_eq!(ledger.mint_tokens(7, 2), Err(Error::OverflowError));
    assert_eq!(ledger.token_balance(7), u128::MAX - 1);
    assert!(ledger.mint_tokens(7, 1).is_ok());
    assert_eq!(ledger.token_balance(7), u128::MAX);
}

#[test]
fn transfer_credit_overflow_leaves_both_balances() {
    let mut ledger = Pallet::new();
    assert!(ledger.mint_tokens(1, 10).is_ok());
    assert!(ledger.mint_tokens(2, u128::MAX - 5).is_ok());
    assert_eq!(ledger.transfer(1, 2, 10), Err(Error::OverflowError));
    assert_eq!(ledger.token_balance(1), 10);
    assert_eq!(ledger.token_balance(2), u128::MAX - 5);
}

#[test]
fn transfer_to_self_keeps_balance() {
    let mut ledger = Pallet::new();
    assert!(ledger.mint_tokens(3, 40).is_ok());
    assert!(ledger.transfer(3, 3, 40).is_ok());
    assert_eq!(ledger.token_balance(3), 40);
    assert_eq!(ledger.transfer(3, 3, 41), Err(Error::InsufficientBalance));
}

#[test]
fn transfers_conserve_total_balance() {
    let mut ledger = Pallet::new();
    assert!(ledger.mint_tokens(1, 300).is_ok());
    assert!(ledger.mint_tokens(2, 200).is_ok());
    let accounts = [1u64, 2, 3, 4];
    let total = |l: &Pallet| accounts.iter().map(|a| l.token_balance(*a)).sum::<u128>();
    assert_eq!(total(&ledger), 500);
    let moves = [(1u64, 3u64, 120u128), (2, 4, 500), (3, 1, 20), (4, 2, 1), (2, 2, 200), (1, 4, 200)];
    for (from, to, amount) in moves {
        let _ = ledger.transfer(from, to, amount);
        assert_eq!(total(&ledger), 500);
    }
    assert_eq!(ledger.token_balance(1), 0);
    assert_eq!(ledger.token_balance(3), 100);
    assert_eq!(ledger.token_balance(4), 200);
}
