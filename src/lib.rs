//! Order matching, delivery verification and settlement for a local energy market.
//!
//! Each module holds one store of records and the operations on it:
//! `energy_token` (balances), `user_registry` (roles and devices),
//! `energy_trade` (the order book), `price_discovery` (prices and match
//! scores), `energy_transfer` (delivery telemetry) and `payment_settlement`.
//! Every operation takes the already authenticated caller and any timestamp
//! as arguments, and the stores it reads or changes by reference. It either
//! succeeds, returning the events it raised, or fails with one error and
//! leaves every store it was given exactly as it was, including the stores of
//! other modules that it calls into.
use vstd::prelude::*;

pub mod encoding;
pub mod energy_token;
pub mod energy_trade;
pub mod energy_transfer;
pub mod payment_settlement;
pub mod price_discovery;
pub mod user_registry;
pub mod table;

verus! {

/// Identifier of an (externally authenticated) account.
pub type AccountId = u64;

/// Amount of settlement tokens, energy or price.
pub type Balance = u128;

/// Block number or other externally supplied timestamp.
pub type BlockNumber = u64;

/// A 32-byte content hash.
pub type Hash256 = [u8; 32];

/// The product, or `u128::MAX` where it would not fit.
pub open spec fn saturated_product(a: u128, b: u128) -> u128 {
    if a * b > u128::MAX {
        u128::MAX
    } else {
        (a * b) as u128
    }
}

pub fn saturating_mul(a: u128, b: u128) -> (r: u128)
    ensures
        r == saturated_product(a, b),
{
    match a.checked_mul(b) {
        Some(p) => p,
        None => u128::MAX,
    }
}

} // verus!
