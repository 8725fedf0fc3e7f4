use energy_market::energy_token;
use energy_market::energy_trade::{self, OrderStatus};
use energy_market::energy_transfer::{Error, Event, IoTMeasurement, Pallet, TransferStatus};
use energy_market::Hash256;

fn reading(device: &[u8], timestamp: u64, energy_amount: u64) -> IoTMeasurement {
    IoTMeasurement { device_id: device.to_vec(), timestamp, energy_amount, grid_frequency: 50, voltage: 230 }
}

/// A ledger and an order book holding a matched ask (seller 1) and bid (buyer 2).
fn matched_pair() -> (energy_token::Pallet, energy_trade::Pallet, Hash256, Hash256) {
    let mut ledger = energy_token::Pallet::new();
    let mut book = energy_trade::Pallet::new();
    assert!(ledger.mint_tokens(2, 1200).is_ok());
    let ask_id = match book.create_ask_order(1, 100, 10, b"X".to_vec(), 1) {
        Ok(energy_trade::Event::AskOrderCreated { order_id, .. }) => order_id,
        other => panic!("unexpected result {:?}", other),
    };
    let bid_id = match book.create_bid_order(&ledger, 2, 100, 12, b"X".to_vec(), 1) {
        Ok(energy_trade::Event::BidOrderCreated { order_id, .. }) => order_id,
        other => panic!("unexpected result {:?}", other),
    };
    assert!(book.match_orders(&ask_id, &bid_id, 2).is_ok());
    (ledger, book, ask_id, bid_id)
}

#[test]
fn full_lifecycle_from_match_to_settlement() {
    let (mut ledger, mut book, ask_id, _) = matched_pair();
    let mut tracker = Pallet::new();

    assert_eq!(
        tracker.start_transfer(&ask_id, 10),
        Ok(Event::TransferStarted { order_id: ask_id, start_time: 10 })
    );
    assert!(tracker.record_measurement(&ask_id, reading(b"meter-1", 15, 400)).is_ok());
    let (verified, completed) = tracker
        .complete_transfer(&mut book, &ask_id, 20, reading(b"meter-1", 20, 1000))
        .unwrap();
    assert_eq!(completed, Event::TransferCompleted { order_id: ask_id, total_energy: 1000 });

    let expected: Hash256 = [
        167, 240, 152, 112, 155, 119, 15, 76, 113, 126, 222, 6, 59, 137, 223, 253, 224, 181, 164, 243, 69,
        183, 231, 127, 3, 148, 182, 142, 197, 101, 184, 89,
    ];
    assert_eq!(
        verified,
        energy_trade::Event::TransferVerified { order_id: ask_id, verification_hash: expected }
    );

    let transfer = tracker.transfers(&ask_id).unwrap();
    assert_eq!(transfer.status, TransferStatus::Completed);
    assert_eq!(transfer.end_time, Some(20));
    assert_eq!(transfer.energy_delivered, 1000);
    assert_eq!(tracker.measurement_count(&ask_id), 2);
    assert_eq!(tracker.measurement_at(&ask_id, 1).timestamp, 20);

    let order = book.trade_orders(&ask_id).unwrap();
    assert_eq!(order.status, OrderStatus::InTransfer);
    assert!(order.transfer_verification.is_some());
    assert_ne!(order.transfer_verification, Some([0u8; 32]));

    assert!(book.complete_trade(&mut ledger, &ask_id, 21).is_ok());
    assert_eq!(book.trade_orders(&ask_id).unwrap().status, OrderStatus::Completed);
    assert_eq!(ledger.token_balance(1), 1000);
    assert_eq!(ledger.token_balance(2), 200);
}

#[test]
fn transfer_starts_once() {
    let mut tracker = Pallet::new();
    let id: Hash256 = [3; 32];
    assert!(tracker.start_transfer(&id, 1).is_ok());
    assert_eq!(tracker.start_transfer(&id, 2), Err(Error::TransferAlreadyStarted));
    assert_eq!(tracker.transfers(&id).unwrap().start_time, 1);
    assert_eq!(tracker.transfers(&id).unwrap().status, TransferStatus::InProgress);
}

#[test]
fn measurements_need_a_transfer() {
    let mut tracker = Pallet::new();
    let id: Hash256 = [4; 32];
    assert_eq!(tracker.record_measurement(&id, reading(b"m", 1, 1)), Err(Error::TransferNotFound));
    assert_eq!(tracker.measurement_count(&id), 0);
    assert!(tracker.start_transfer(&id, 1).is_ok());
    assert_eq!(
        tracker.record_measurement(&id, reading(b"m", 1, 7)),
        Ok(Event::MeasurementRecorded { order_id: id, device_id: b"m".to_vec(), energy_amount: 7 })
    );
    assert_eq!(tracker.measurement_count(&id), 1);
}

#[test]
fn completion_is_atomic_across_both_stores() {
    let (_, mut book, ask_id, _) = matched_pair();
    let mut tracker = Pallet::new();
    let missing: Hash256 = [9; 32];
    assert_eq!(
        tracker.complete_transfer(&mut book, &missing, 5, reading(b"m", 5, 5)),
        Err(Error::TransferNotFound)
    );

    // A transfer for an order the book does not know: the book refuses, nothing changes.
    assert!(tracker.start_transfer(&missing, 1).is_ok());
    assert_eq!(
        tracker.complete_transfer(&mut book, &missing, 5, reading(b"m", 5, 5)),
        Err(Error::Trade(energy_trade::Error::OrderNotFound))
    );
    assert_eq!(tracker.transfers(&missing).unwrap().status, TransferStatus::InProgress);
    assert_eq!(tracker.measurement_count(&missing), 0);

    assert!(tracker.start_transfer(&ask_id, 1).is_ok());
    assert!(tracker.complete_transfer(&mut book, &ask_id, 5, reading(b"m", 5, 5)).is_ok());
    assert_eq!(
        tracker.complete_transfer(&mut book, &ask_id, 6, reading(b"m", 6, 6)),
        Err(Error::InvalidTransferStatus)
    );
    assert_eq!(tracker.measurement_count(&ask_id), 1);
}

#[test]
fn failure_report_marks_only_the_transfer() {
    let (_, mut book, ask_id, _) = matched_pair();
    let mut tracker = Pallet::new();
    assert_eq!(tracker.report_transfer_failure(&ask_id, b"cut".to_vec()), Err(Error::TransferNotFound));
    assert!(tracker.start_transfer(&ask_id, 1).is_ok());
    assert_eq!(
        tracker.report_transfer_failure(&ask_id, b"cut".to_vec()),
        Ok(Event::TransferFailed { order_id: ask_id, reason: b"cut".to_vec() })
    );
    assert_eq!(tracker.transfers(&ask_id).unwrap().status, TransferStatus::Failed);
    assert_eq!(book.trade_orders(&ask_id).unwrap().status, OrderStatus::Matched);
    assert_eq!(
        tracker.complete_transfer(&mut book, &ask_id, 5, reading(b"m", 5, 5)),
        Err(Error::InvalidTransferStatus)
    );
}

#[test]
fn delivered_energy_keeps_the_full_reading() {
    let (_, mut book, ask_id, _) = matched_pair();
    let mut tracker = Pallet::new();
    assert!(tracker.start_transfer(&ask_id, 1).is_ok());
    let big = (1u64 << 32) + 5;
    let (_, completed) = tracker.complete_transfer(&mut book, &ask_id, 2, reading(b"m", 2, big)).unwrap();
    assert_eq!(completed, Event::TransferCompleted { order_id: ask_id, total_energy: (1u128 << 32) + 5 });
    assert_eq!(tracker.transfers(&ask_id).unwrap().energy_delivered, (1u128 << 32) + 5);
}
