use energy_market::energy_token;
use energy_market::energy_trade::{Error, Event, OrderStatus, OrderType, Pallet};
use energy_market::Hash256;

fn ask(book: &mut Pallet, seller: u64, amount: u128, price: u128, loc: &[u8]) -> Hash256 {
    match book.create_ask_order(seller, amount, price, loc.to_vec(), 1) {
        Ok(Event::AskOrderCreated { order_id, .. }) => order_id,
        other => panic!("unexpected result {:?}", other),
    }
}

fn bid(book: &mut Pallet, ledger: &energy_token::Pallet, buyer: u64, amount: u128, price: u128, loc: &[u8]) -> Hash256 {
    match book.create_bid_order(ledger, buyer, amount, price, loc.to_vec(), 1) {
        Ok(Event::BidOrderCreated { order_id, .. }) => order_id,
        other => panic!("unexpected result {:?}", other),
    }
}

#[test]
fn create_sell_order_works() {
    let mut book = Pallet::new();
    let seller = 1;
    let amount = 100;
    let price = 10;

    let order_id = ask(&mut book, seller, amount, price, b"X");

    let order = book.trade_orders(&order_id).unwrap();
    assert_eq!(order.creator, seller);
    assert_eq!(order.energy_amount, amount);
    assert_eq!(order.price_per_unit, price);
    assert_eq!(order.status, OrderStatus::Open);
    assert_eq!(order.total_price, 1000);
    assert_eq!(book.user_orders(seller), vec![order_id]);
}

#[test]
fn match_order_works() {
    let mut ledger = energy_token::Pallet::new();
    let mut book = Pallet::new();
    let seller = 1;
    let buyer = 2;
    let amount = 100;
    let price = 10;
    assert!(ledger.mint_tokens(buyer, 1000).is_ok());

    let ask_id = ask(&mut book, seller, amount, price, b"X");
    let bid_id = bid(&mut book, &ledger, buyer, amount, price, b"X");
    assert!(book.match_orders(&ask_id, &bid_id, 2).is_ok());

    let order = book.trade_orders(&ask_id).unwrap();
    assert_eq!(order.status, OrderStatus::Matched);
    assert_eq!(order.counterparty, Some(buyer));
    assert_eq!(order.matched_at, Some(2));
}

#[test]
fn complete_order_works() {
    let mut ledger = energy_token::Pallet::new();
    let mut book = Pallet::new();
    let seller = 1;
    let buyer = 2;
    let amount = 100;
    let price = 10;
    assert!(ledger.mint_tokens(buyer, 1000).is_ok());

    let ask_id = ask(&mut book, seller, amount, price, b"X");
    let bid_id = bid(&mut book, &ledger, buyer, amount, price, b"X");
    assert!(book.match_orders(&ask_id, &bid_id, 2).is_ok());
    assert!(book.verify_transfer(&ask_id, &b"meter".to_vec()).is_ok());
    assert!(book.complete_trade(&mut ledger, &ask_id, 3).is_ok());

    let order = book.trade_orders(&ask_id).unwrap();
    assert_eq!(order.status, OrderStatus::Completed);
    assert_eq!(order.completed_at, Some(3));
    assert_eq!(ledger.token_balance(seller), 1000);
    assert_eq!(ledger.token_balance(buyer), 0);
}

#[test]
fn matching_settles_at_the_ask_price() {
    let mut ledger = energy_token::Pallet::new();
    let mut book = Pallet::new();
    assert!(ledger.mint_tokens(2, 1200).is_ok());
    let ask_id = ask(&mut book, 1, 100, 10, b"X");
    let bid_id = bid(&mut book, &ledger, 2, 100, 12, b"X");

    let event = book.match_orders(&ask_id, &bid_id, 5).unwrap();
    assert_eq!(
        event,
        Event::OrdersMatched { ask_id, bid_id, seller: 1, buyer: 2, amount: 100, price: 1000 }
    );
    assert_eq!(book.trade_orders(&ask_id).unwrap().status, OrderStatus::Matched);
    assert_eq!(book.trade_orders(&bid_id).unwrap().status, OrderStatus::Matched);
    assert_eq!(book.trade_orders(&bid_id).unwrap().counterparty, Some(1));
    assert_eq!(book.trade_orders(&bid_id).unwrap().total_price, 1200);
}

#[test]
fn mismatched_amounts_are_not_matched() {
    let mut ledger = energy_token::Pallet::new();
    let mut book = Pallet::new();
    assert!(ledger.mint_tokens(2, 10_000).is_ok());
    let ask_id = ask(&mut book, 1, 100, 10, b"X");
    let bid_id = bid(&mut book, &ledger, 2, 50, 10, b"X");

    assert_eq!(book.match_orders(&ask_id, &bid_id, 2), Err(Error::OrderMismatch));
    assert_eq!(book.trade_orders(&ask_id).unwrap().status, OrderStatus::Open);
    assert_eq!(book.trade_orders(&bid_id).unwrap().status, OrderStatus::Open);
}

#[test]
fn bid_below_ask_price_is_not_matched() {
    let mut ledger = energy_token::Pallet::new();
    let mut book = Pallet::new();
    assert!(ledger.mint_tokens(2, 10_000).is_ok());
    let ask_id = ask(&mut book, 1, 100, 10, b"X");
    let bid_id = bid(&mut book, &ledger, 2, 100, 9, b"X");
    assert_eq!(book.match_orders(&ask_id, &bid_id, 2), Err(Error::OrderMismatch));
    assert_eq!(book.trade_orders(&ask_id).unwrap().counterparty, None);
}

#[test]
fn creation_rejects_zero_and_overflowing_values() {
    let mut ledger = energy_token::Pallet::new();
    let mut book = Pallet::new();
    assert_eq!(book.create_ask_order(1, 0, 10, b"X".to_vec(), 1), Err(Error::InvalidAmount));
    assert_eq!(book.create_ask_order(1, 10, 0, b"X".to_vec(), 1), Err(Error::InvalidPrice));
    assert_eq!(book.create_ask_order(1, u128::MAX, 2, b"X".to_vec(), 1), Err(Error::InvalidPrice));
    assert_eq!(
        book.create_bid_order(&ledger, 2, 10, 10, b"X".to_vec(), 1),
        Err(Error::InsufficientBalance)
    );
    assert!(ledger.mint_tokens(2, 100).is_ok());
    assert!(book.create_bid_order(&ledger, 2, 10, 10, b"X".to_vec(), 1).is_ok());
    assert_eq!(book.order_count(), 1);
}

#[test]
fn order_ids_are_content_hashes() {
    let mut book = Pallet::new();
    let id = ask(&mut book, 1, 100, 10, b"X");
    let expected: Hash256 = [
        81, 206, 202, 66, 244, 103, 50, 37, 113, 84, 138, 122, 140, 7, 168, 33, 87, 128, 69, 196, 149, 196,
        187, 59, 164, 59, 193, 58, 30, 210, 89, 255,
    ];
    assert_eq!(id, expected);

    let mut other = Pallet::new();
    assert_eq!(ask(&mut other, 1, 100, 10, b"X"), id);
    assert_ne!(ask(&mut other, 1, 100, 10, b"Y"), id);
    assert_ne!(ask(&mut other, 2, 100, 10, b"X"), id);
    assert_ne!(ask(&mut other, 1, 100, 11, b"X"), id);
    assert_eq!(other.order_count(), 4);
}

#[test]
fn status_guards_leave_orders_unchanged() {
    let mut ledger = energy_token::Pallet::new();
    let mut book = Pallet::new();
    assert!(ledger.mint_tokens(2, 1000).is_ok());
    let ask_id = ask(&mut book, 1, 100, 10, b"X");
    let bid_id = bid(&mut book, &ledger, 2, 100, 10, b"X");
    let missing: Hash256 = [0; 32];

    assert_eq!(book.verify_transfer(&ask_id, &vec![1]), Err(Error::InvalidOrderStatus));
    assert_eq!(book.complete_trade(&mut ledger, &ask_id, 2), Err(Error::InvalidOrderStatus));
    assert_eq!(book.match_orders(&missing, &bid_id, 2), Err(Error::OrderNotFound));
    assert_eq!(book.verify_transfer(&missing, &vec![1]), Err(Error::OrderNotFound));
    assert_eq!(book.trade_orders(&ask_id).unwrap().status, OrderStatus::Open);

    assert!(book.match_orders(&ask_id, &bid_id, 2).is_ok());
    assert_eq!(book.match_orders(&ask_id, &bid_id, 3), Err(Error::InvalidOrderStatus));
    assert_eq!(book.complete_trade(&mut ledger, &ask_id, 3), Err(Error::InvalidOrderStatus));
    assert_eq!(book.trade_orders(&ask_id).unwrap().matched_at, Some(2));

    assert!(book.verify_transfer(&ask_id, &vec![]).is_ok());
    assert_eq!(book.verify_transfer(&ask_id, &vec![]), Err(Error::InvalidOrderStatus));
    assert_eq!(book.trade_orders(&ask_id).unwrap().status, OrderStatus::InTransfer);
}

#[test]
fn verification_hash_is_the_hash_of_the_evidence() {
    let mut ledger = energy_token::Pallet::new();
    let mut book = Pallet::new();
    assert!(ledger.mint_tokens(2, 1000).is_ok());
    let ask_id = ask(&mut book, 1, 100, 10, b"X");
    let bid_id = bid(&mut book, &ledger, 2, 100, 10, b"X");
    assert!(book.match_orders(&ask_id, &bid_id, 2).is_ok());
    let expected: Hash256 = [
        129, 228, 122, 25, 230, 178, 155, 10, 101, 185, 89, 23, 98, 206, 81, 67, 237, 48, 208, 38, 30, 93,
        36, 163, 32, 23, 82, 80, 107, 32, 241, 92,
    ];
    assert_eq!(
        book.verify_transfer(&ask_id, &vec![]),
        Ok(Event::TransferVerified { order_id: ask_id, verification_hash: expected })
    );
    assert_eq!(book.trade_orders(&ask_id).unwrap().transfer_verification, Some(expected));
}

#[test]
fn failed_settlement_aborts_completion() {
    let mut ledger = energy_token::Pallet::new();
    let mut book = Pallet::new();
    assert!(ledger.mint_tokens(2, 1000).is_ok());
    let ask_id = ask(&mut book, 1, 100, 10, b"X");
    let bid_id = bid(&mut book, &ledger, 2, 100, 10, b"X");
    assert!(book.match_orders(&ask_id, &bid_id, 2).is_ok());
    assert!(book.verify_transfer(&ask_id, &vec![7]).is_ok());
    // The buyer spends the funds elsewhere before settlement.
    assert!(ledger.transfer(2, 9, 1).is_ok());

    assert_eq!(
        book.complete_trade(&mut ledger, &ask_id, 3),
        Err(Error::Token(energy_token::Error::InsufficientBalance))
    );
    assert_eq!(book.trade_orders(&ask_id).unwrap().status, OrderStatus::InTransfer);
    assert_eq!(ledger.token_balance(2), 999);
    assert_eq!(ledger.token_balance(1), 0);
}

#[test]
fn scan_order_lists_every_order() {
    let mut book = Pallet::new();
    let a = ask(&mut book, 1, 5, 1, b"A");
    let b = ask(&mut book, 1, 6, 1, b"B");
    assert_eq!(book.order_count(), 2);
    assert_eq!(*book.order_at(0).0, a);
    assert_eq!(*book.order_at(1).0, b);
    assert_eq!(book.order_at(1).1.order_type, OrderType::Ask);
    assert_eq!(book.user_orders(1), vec![a, b]);
    assert!(book.user_orders(2).is_empty());
}
