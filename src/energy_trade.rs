//! The order book: sell (ask) and buy (bid) orders, their matching, and their
//! way through delivery to settlement.
use vstd::prelude::*;

use crate::encoding::{
    blake2_256, blake2_256_of, bytes_field, copy_bytes, encode_bytes, lemma_bytes_field,
    lemma_split, lemma_u128_field, lemma_u64_field, push_bytes, push_u128, push_u64,
    u128_field, u64_field,
};
use crate::energy_token;
use crate::table::Table;
use crate::{AccountId, Balance, BlockNumber, Hash256};

verus! {

#[derive(Clone, Copy, Debug, PartialEq, Eq, Structural)]
pub enum OrderType {
    /// A seller's offer.
    Ask,
    /// A buyer's offer.
    Bid,
}

/// `Open -> Matched -> InTransfer -> Completed`; `Open -> Cancelled`; any
/// state that is not final may go to `Failed`.
#[derive(Clone, Copy, Debug, PartialEq, Eq, Structural)]
pub enum OrderStatus {
    Open,
    Matched,
    InTransfer,
    Completed,
    Cancelled,
    Failed,
}

#[derive(Clone, Debug, PartialEq, Eq)]
pub struct TradeOrder {
    pub order_type: OrderType,
    pub creator: AccountId,
    pub counterparty: Option<AccountId>,
    pub energy_amount: Balance,
    pub price_per_unit: Balance,
    pub total_price: Balance,
    pub status: OrderStatus,
    pub grid_location: Vec<u8>,
    pub created_at: BlockNumber,
    pub matched_at: Option<BlockNumber>,
    pub completed_at: Option<BlockNumber>,
    pub transfer_verification: Option<Hash256>,
}

#[derive(Clone, Debug, PartialEq, Eq)]
pub enum Event {
    AskOrderCreated {
        order_id: Hash256,
        seller: AccountId,
        amount: Balance,
        price: Balance,
        location: Vec<u8>,
    },
    BidOrderCreated {
        order_id: Hash256,
        buyer: AccountId,
        amount: Balance,
        price: Balance,
        location: Vec<u8>,
    },
    OrdersMatched {
        ask_id: Hash256,
        bid_id: Hash256,
        seller: AccountId,
        buyer: AccountId,
        amount: Balance,
        price: Balance,
    },
    TransferVerified { order_id: Hash256, verification_hash: Hash256 },
    OrderCompleted {
        order_id: Hash256,
        seller: AccountId,
        buyer: AccountId,
        amount: Balance,
        price: Balance,
    },
    OrderFailed { order_id: Hash256, reason: Vec<u8> },
}

#[derive(Clone, Copy, Debug, PartialEq, Eq, Structural)]
pub enum Error {
    OrderNotFound,
    InvalidOrderStatus,
    InsufficientBalance,
    UnauthorizedAccess,
    InvalidAmount,
    InvalidPrice,
    OrderMismatch,
    TransferVerificationFailed,
    PaymentFailed,
    /// The settlement transfer on the token ledger failed.
    Token(energy_token::Error),
}

pub open spec fn order_type_field(t: OrderType) -> Seq<u8> {
    match t {
        OrderType::Ask => seq![0u8],
        OrderType::Bid => seq![1u8],
    }
}

/// The moves of the order state machine: `Open -> Matched -> InTransfer ->
/// Completed`, `Open -> Cancelled`, and from any state that is not final to
/// `Failed`; staying put is always allowed.
pub open spec fn order_step_allowed(from: OrderStatus, to: OrderStatus) -> bool {
    ||| from == to
    ||| from == OrderStatus::Open && to == OrderStatus::Matched
    ||| from == OrderStatus::Matched && to == OrderStatus::InTransfer
    ||| from == OrderStatus::InTransfer && to == OrderStatus::Completed
    ||| from == OrderStatus::Open && to == OrderStatus::Cancelled
    ||| to == OrderStatus::Failed && from != OrderStatus::Completed && from != OrderStatus::Cancelled
}

/// Every order present before and after kept its status or took an allowed step.
pub open spec fn order_steps_allowed(before: Map<Seq<u8>, TradeOrder>, after: Map<Seq<u8>, TradeOrder>) -> bool {
    forall|k: Seq<u8>|
        #[trigger] before.contains_key(k) && after.contains_key(k) ==> order_step_allowed(
            before[k].status,
            after[k].status,
        )
}

/// The canonical encoding of the fields an order is created with.
pub open spec fn order_encoding(
    order_type: OrderType,
    creator: AccountId,
    energy_amount: Balance,
    price_per_unit: Balance,
    total_price: Balance,
    grid_location: Seq<u8>,
    created_at: BlockNumber,
) -> Seq<u8> {
    order_type_field(order_type) + (u64_field(creator) + (u128_field(energy_amount) + (u128_field(
        price_per_unit,
    ) + (u128_field(total_price) + (bytes_field(grid_location) + u64_field(created_at))))))
}

/// The identifier of an order created with these fields.
pub open spec fn order_id_of(
    order_type: OrderType,
    creator: AccountId,
    energy_amount: Balance,
    price_per_unit: Balance,
    total_price: Balance,
    grid_location: Seq<u8>,
    created_at: BlockNumber,
) -> Seq<u8> {
    blake2_256_of(
        order_encoding(
            order_type,
            creator,
            energy_amount,
            price_per_unit,
            total_price,
            grid_location,
            created_at,
        ),
    )
}

/// The hash kept on an order as proof of a verified delivery.
pub open spec fn verification_hash_of(data: Seq<u8>) -> Seq<u8> {
    blake2_256_of(bytes_field(data))
}

/// Order identifiers are stable and come from an unambiguous encoding: the same
/// creation fields give the same identifier, and two distinct tuples of creation
/// fields never give the same encoded input to the hash.
pub proof fn lemma_order_ids(
    t1: OrderType,
    c1: AccountId,
    a1: Balance,
    p1: Balance,
    tp1: Balance,
    l1: Seq<u8>,
    at1: BlockNumber,
    t2: OrderType,
    c2: AccountId,
    a2: Balance,
    p2: Balance,
    tp2: Balance,
    l2: Seq<u8>,
    at2: BlockNumber,
)
    requires
        l1.len() <= u64::MAX,
        l2.len() <= u64::MAX,
    ensures
        (t1, c1, a1, p1, tp1, l1, at1) == (t2, c2, a2, p2, tp2, l2, at2) ==> order_id_of(
            t1,
            c1,
            a1,
            p1,
            tp1,
            l1,
            at1,
        ) == order_id_of(t2, c2, a2, p2, tp2, l2, at2),
        (t1, c1, a1, p1, tp1, l1, at1) != (t2, c2, a2, p2, tp2, l2, at2) ==> order_encoding(
            t1,
            c1,
            a1,
            p1,
            tp1,
            l1,
            at1,
        ) != order_encoding(t2, c2, a2, p2, tp2, l2, at2),
{
    if order_encoding(t1, c1, a1, p1, tp1, l1, at1) == order_encoding(t2, c2, a2, p2, tp2, l2, at2) {
        let r1 = u64_field(c1) + (u128_field(a1) + (u128_field(p1) + (u128_field(tp1) + (
        bytes_field(l1) + u64_field(at1)))));
        let r2 = u64_field(c2) + (u128_field(a2) + (u128_field(p2) + (u128_field(tp2) + (
        bytes_field(l2) + u64_field(at2)))));
        lemma_split(order_type_field(t1), r1, order_type_field(t2), r2);
        assert(order_type_field(t1)[0] == order_type_field(t2)[0]);
        assert(t1 == t2);
        lemma_u64_field(c1, c2, u128_field(a1) + (u128_field(p1) + (u128_field(tp1) + (bytes_field(l1) + u64_field(at1)))),
            u128_field(a2) + (u128_field(p2) + (u128_field(tp2) + (bytes_field(l2) + u64_field(at2)))));
        lemma_u128_field(a1, a2, u128_field(p1) + (u128_field(tp1) + (bytes_field(l1) + u64_field(at1))),
            u128_field(p2) + (u128_field(tp2) + (bytes_field(l2) + u64_field(at2))));
        lemma_u128_field(p1, p2, u128_field(tp1) + (bytes_field(l1) + u64_field(at1)),
            u128_field(tp2) + (bytes_field(l2) + u64_field(at2)));
        lemma_u128_field(tp1, tp2, bytes_field(l1) + u64_field(at1), bytes_field(l2) + u64_field(at2));
        lemma_bytes_field(l1, l2, u64_field(at1), u64_field(at2));
        assert(u64_field(at1) + Seq::<u8>::empty() =~= u64_field(at1));
        assert(u64_field(at2) + Seq::<u8>::empty() =~= u64_field(at2));
        lemma_u64_field(at1, at2, Seq::<u8>::empty(), Seq::<u8>::empty());
    }
}

/// The canonical encoding of an order's creation fields.
pub fn encode_order(
    order_type: OrderType,
    creator: AccountId,
    energy_amount: Balance,
    price_per_unit: Balance,
    total_price: Balance,
    grid_location: &Vec<u8>,
    created_at: BlockNumber,
) -> (r: Vec<u8>)
    ensures
        r@ == order_encoding(
            order_type,
            creator,
            energy_amount,
            price_per_unit,
            total_price,
            grid_location@,
            created_at,
        ),
{
    let mut out: Vec<u8> = Vec::new();
    match order_type {
        OrderType::Ask => out.push(0u8),
        OrderType::Bid => out.push(1u8),
    }
    push_u64(&mut out, creator);
    push_u128(&mut out, energy_amount);
    push_u128(&mut out, price_per_unit);
    push_u128(&mut out, total_price);
    push_bytes(&mut out, grid_location.as_slice());
    push_u64(&mut out, created_at);
    assert(out@ =~= order_encoding(
        order_type,
        creator,
        energy_amount,
        price_per_unit,
        total_price,
        grid_location@,
        created_at,
    ));
    out
}

/// An order as it is stored when created.
pub open spec fn new_order(
    order_type: OrderType,
    creator: AccountId,
    energy_amount: Balance,
    price_per_unit: Balance,
    grid_location: Vec<u8>,
    created_at: BlockNumber,
) -> TradeOrder {
    TradeOrder {
        order_type,
        creator,
        counterparty: None,
        energy_amount,
        price_per_unit,
        total_price: (price_per_unit * energy_amount) as Balance,
        status: OrderStatus::Open,
        grid_location,
        created_at,
        matched_at: None,
        completed_at: None,
        transfer_verification: None,
    }
}

/// The order once matched with a counterparty at `now`.
pub open spec fn matched(o: TradeOrder, counterparty: AccountId, now: BlockNumber) -> TradeOrder {
    TradeOrder {
        status: OrderStatus::Matched,
        counterparty: Some(counterparty),
        matched_at: Some(now),
        ..o
    }
}

/// The order once its delivery was verified with a hash.
pub open spec fn verified(o: TradeOrder, h: Hash256) -> TradeOrder {
    TradeOrder { status: OrderStatus::InTransfer, transfer_verification: Some(h), ..o }
}

/// The order once settled at `now`.
pub open spec fn completed(o: TradeOrder, now: BlockNumber) -> TradeOrder {
    TradeOrder { status: OrderStatus::Completed, completed_at: Some(now), ..o }
}

/// Why `create_*_order` refuses these values, if it does.
pub open spec fn creation_error(energy_amount: Balance, price_per_unit: Balance) -> Option<Error> {
    if energy_amount == 0 {
        Some(Error::InvalidAmount)
    } else if price_per_unit == 0 {
        Some(Error::InvalidPrice)
    } else if price_per_unit * energy_amount > u128::MAX {
        Some(Error::InvalidPrice)
    } else {
        None
    }
}

/// The orders and the per-account index of the orders each account created.
pub struct Pallet {
    orders: Table<Hash256, TradeOrder>,
    user_orders: Table<AccountId, Vec<Hash256>>,
}

impl Pallet {
    pub closed spec fn wf(&self) -> bool {
        self.orders.wf() && self.user_orders.wf()
    }

    /// Orders by identifier.
    pub closed spec fn orders(&self) -> Map<Seq<u8>, TradeOrder> {
        self.orders@
    }

    /// The orders in the order in which a scan meets them.
    pub closed spec fn order_sequence(&self) -> Seq<(Hash256, TradeOrder)> {
        self.orders.entry_seq()
    }

    /// The identifiers of the orders that `a` created, oldest first.
    pub closed spec fn user_orders_of(&self, a: AccountId) -> Seq<Seq<u8>> {
        if self.user_orders@.contains_key(a) {
            self.user_orders@[a]@.map_values(|h: Hash256| h@)
        } else {
            Seq::empty()
        }
    }

    /// The scan order and the map hold the same orders, each once.
    pub proof fn lemma_order_sequence(&self)
        requires
            self.wf(),
        ensures
            forall|i: int|
                0 <= i < self.order_sequence().len() ==> self.orders().contains_key(
                    (#[trigger] self.order_sequence()[i]).0@,
                ) && self.orders()[self.order_sequence()[i].0@] == self.order_sequence()[i].1,
            forall|k: Seq<u8>|
                self.orders().contains_key(k) ==> exists|i: int|
                    0 <= i < self.order_sequence().len() && (#[trigger] self.order_sequence()[i]).0@
                        == k,
    {
        self.orders.lemma_entries();
        assert forall|k: Seq<u8>| self.orders().contains_key(k) implies exists|i: int|
            0 <= i < self.order_sequence().len() && (#[trigger] self.order_sequence()[i]).0@ == k by {
            let i = choose|i: int|
                0 <= i < self.orders.entry_seq().len() && (#[trigger] self.orders.entry_seq()[i]).0@ == k;
            assert(self.order_sequence()[i].0@ == k);
        }
    }

    pub fn new() -> (r: Self)
        ensures
            r.wf(),
            r.orders() == Map::<Seq<u8>, TradeOrder>::empty(),
            r.order_sequence().len() == 0,
            forall|a: AccountId| r.user_orders_of(a) == Seq::<Seq<u8>>::empty(),
    {
        Pallet { orders: Table::new(), user_orders: Table::new() }
    }

    /// The order stored under `id`, if any.
    pub fn trade_orders(&self, id: &Hash256) -> (r: Option<&TradeOrder>)
        requires
            self.wf(),
        ensures
            match r {
                Some(o) => self.orders().contains_key(id@) && *o == self.orders()[id@],
                None => !self.orders().contains_key(id@),
            },
    {
        self.orders.get(id)
    }

    /// The identifiers of the orders that `a` created, oldest first.
    pub fn user_orders(&self, a: AccountId) -> (r: Vec<Hash256>)
        requires
            self.wf(),
        ensures
            r@.map_values(|h: Hash256| h@) == self.user_orders_of(a),
    {
        let mut r: Vec<Hash256> = Vec::new();
        match self.user_orders.get(&a) {
            None => {
                assert(r@.map_values(|h: Hash256| h@) =~= Seq::<Seq<u8>>::empty());
            },
            Some(ids) => {
                let mut i: usize = 0;
                while i < ids.len()
                    invariant
                        0 <= i <= ids@.len(),
                        r@ == ids@.subrange(0, i as int),
                    decreases ids@.len() - i,
                {
                    r.push(ids[i]);
                    i = i + 1;
                    assert(r@ =~= ids@.subrange(0, i as int));
                }
                assert(r@ =~= ids@);
            },
        }
        r
    }

    /// The number of stored orders.
    pub fn order_count(&self) -> (r: usize)
        ensures
            r == self.order_sequence().len(),
    {
        self.orders.len()
    }

    /// The identifier and order at a position of the scan order.
    pub fn order_at(&self, i: usize) -> (r: (&Hash256, &TradeOrder))
        requires
            i < self.order_sequence().len(),
        ensures
            *r.0 == self.order_sequence()[i as int].0,
            *r.1 == self.order_sequence()[i as int].1,
    {
        let e = self.orders.entry(i);
        (&e.0, &e.1)
    }

    /// Stores a new open order and appends its identifier to its creator's index.
    fn create_order(
        &mut self,
        order_type: OrderType,
        creator: AccountId,
        energy_amount: Balance,
        price_per_unit: Balance,
        grid_location: Vec<u8>,
        now: BlockNumber,
    ) -> (id: Hash256)
        requires
            old(self).wf(),
            price_per_unit * energy_amount <= u128::MAX,
        ensures
            final(self).wf(),
            id@ == order_id_of(
                order_type,
                creator,
                energy_amount,
                price_per_unit,
                (price_per_unit * energy_amount) as Balance,
                grid_location@,
                now,
            ),
            final(self).orders() == old(self).orders().insert(
                id@,
                new_order(order_type, creator, energy_amount, price_per_unit, grid_location, now),
            ),
            final(self).user_orders_of(creator) == old(self).user_orders_of(creator).push(id@),
            forall|a: AccountId|
                a != creator ==> #[trigger] final(self).user_orders_of(a) == old(self).user_orders_of(
                    a,
                ),
    {
        let total_price = price_per_unit * energy_amount;
        let enc = encode_order(
            order_type,
            creator,
            energy_amount,
            price_per_unit,
            total_price,
            &grid_location,
            now,
        );
        let id = blake2_256(&enc);
        let order = TradeOrder {
            order_type,
            creator,
            counterparty: None,
            energy_amount,
            price_per_unit,
            total_price,
            status: OrderStatus::Open,
            grid_location,
            created_at: now,
            matched_at: None,
            completed_at: None,
            transfer_verification: None,
        };
        self.orders.insert(id, order);
        let ghost before = self.user_orders@;
        match self.user_orders.position(&creator) {
            Some(i) => {
                let ids = self.user_orders.value_mut(i);
                ids.push(id);
            },
            None => {
                let mut ids: Vec<Hash256> = Vec::new();
                ids.push(id);
                self.user_orders.insert(creator, ids);
            },
        }
        proof {
            let post = self.user_orders@;
            assert forall|a: AccountId| a != creator implies #[trigger] self.user_orders_of(a)
                == old(self).user_orders_of(a) by {
                assert(post.contains_key(a) == before.contains_key(a));
            }
            if before.contains_key(creator) {
                assert(post[creator]@ == before[creator]@.push(id));
                assert(post[creator]@.map_values(|h: Hash256| h@) =~= before[creator]@.map_values(
                    |h: Hash256| h@,
                ).push(id@));
            } else {
                assert(post[creator]@.map_values(|h: Hash256| h@) =~= Seq::<Seq<u8>>::empty().push(
                    id@,
                ));
            }
        }
        id
    }

    /// A seller offers `energy_amount` units at `price_per_unit` each.
    pub fn create_ask_order(
        &mut self,
        seller: AccountId,
        energy_amount: Balance,
        price_per_unit: Balance,
        grid_location: Vec<u8>,
        now: BlockNumber,
    ) -> (r: Result<Event, Error>)
        requires
            old(self).wf(),
        ensures
            final(self).wf(),
            match creation_error(energy_amount, price_per_unit) {
                Some(e) => r == Err::<Event, Error>(e) && *final(self) == *old(self),
                None => {
                    let id = order_id_of(
                        OrderType::Ask,
                        seller,
                        energy_amount,
                        price_per_unit,
                        (price_per_unit * energy_amount) as Balance,
                        grid_location@,
                        now,
                    );
                    &&& final(self).orders() == old(self).orders().insert(
                        id,
                        new_order(
                            OrderType::Ask,
                            seller,
                            energy_amount,
                            price_per_unit,
                            grid_location,
                            now,
                        ),
                    )
                    &&& final(self).user_orders_of(seller) == old(self).user_orders_of(seller).push(
                        id,
                    )
                    &&& forall|a: AccountId|
                        a != seller ==> #[trigger] final(self).user_orders_of(a)
                            == old(self).user_orders_of(a)
                    &&& r matches Ok(Event::AskOrderCreated { order_id, seller: s, amount, price, location })
                        && order_id@ == id && s == seller && amount == energy_amount && price
                        == price_per_unit * energy_amount && location@ == grid_location@
                },
            },
    {
        if energy_amount == 0 {
            return Err(Error::InvalidAmount);
        }
        if price_per_unit == 0 {
            return Err(Error::InvalidPrice);
        }
        let total_price = match price_per_unit.checked_mul(energy_amount) {
            Some(t) => t,
            None => {
                return Err(Error::InvalidPrice);
            },
        };
        let location = copy_bytes(grid_location.as_slice());
        let order_id = self.create_order(
            OrderType::Ask,
            seller,
            energy_amount,
            price_per_unit,
            grid_location,
            now,
        );
        Ok(
            Event::AskOrderCreated {
                order_id,
                seller,
                amount: energy_amount,
                price: total_price,
                location,
            },
        )
    }

    /// A buyer bids for `energy_amount` units at `price_per_unit` each. The
    /// buyer's token balance must cover the total at this moment; nothing is
    /// reserved.
    pub fn create_bid_order(
        &mut self,
        token: &energy_token::Pallet,
        buyer: AccountId,
        energy_amount: Balance,
        price_per_unit: Balance,
        grid_location: Vec<u8>,
        now: BlockNumber,
    ) -> (r: Result<Event, Error>)
        requires
            old(self).wf(),
            token.wf(),
        ensures
            final(self).wf(),
            match creation_error(energy_amount, price_per_unit) {
                Some(e) => r == Err::<Event, Error>(e) && *final(self) == *old(self),
                None => if token.balance(buyer) < price_per_unit * energy_amount {
                    r == Err::<Event, Error>(Error::InsufficientBalance) && *final(self) == *old(
                        self,
                    )
                } else {
                    let id = order_id_of(
                        OrderType::Bid,
                        buyer,
                        energy_amount,
                        price_per_unit,
                        (price_per_unit * energy_amount) as Balance,
                        grid_location@,
                        now,
                    );
                    &&& final(self).orders() == old(self).orders().insert(
                        id,
                        new_order(
                            OrderType::Bid,
                            buyer,
                            energy_amount,
                            price_per_unit,
                            grid_location,
                            now,
                        ),
                    )
                    &&& final(self).user_orders_of(buyer) == old(self).user_orders_of(buyer).push(
                        id,
                    )
                    &&& forall|a: AccountId|
                        a != buyer ==> #[trigger] final(self).user_orders_of(a)
                            == old(self).user_orders_of(a)
                    &&& r matches Ok(Event::BidOrderCreated { order_id, buyer: b, amount, price, location })
                        && order_id@ == id && b == buyer && amount == energy_amount && price
                        == price_per_unit * energy_amount && location@ == grid_location@
                },
            },
    {
        if energy_amount == 0 {
            return Err(Error::InvalidAmount);
        }
        if price_per_unit == 0 {
            return Err(Error::InvalidPrice);
        }
        let total_price = match price_per_unit.checked_mul(energy_amount) {
            Some(t) => t,
            None => {
                return Err(Error::InvalidPrice);
            },
        };
        if token.token_balance(buyer) < total_price {
            return Err(Error::InsufficientBalance);
        }
        let location = copy_bytes(grid_location.as_slice());
        let order_id = self.create_order(
            OrderType::Bid,
            buyer,
            energy_amount,
            price_per_unit,
            grid_location,
            now,
        );
        Ok(
            Event::BidOrderCreated {
                order_id,
                buyer,
                amount: energy_amount,
                price: total_price,
                location,
            },
        )
    }

    /// Why `match_orders(ask_id, bid_id)` is refused here, if it is.
    pub open spec fn match_error(&self, ask_id: Seq<u8>, bid_id: Seq<u8>) -> Option<Error> {
        let m = self.orders();
        if !m.contains_key(ask_id) || !m.contains_key(bid_id) {
            Some(Error::OrderNotFound)
        } else if m[ask_id].status != OrderStatus::Open || m[bid_id].status != OrderStatus::Open {
            Some(Error::InvalidOrderStatus)
        } else if m[ask_id].energy_amount != m[bid_id].energy_amount {
            Some(Error::OrderMismatch)
        } else if m[ask_id].price_per_unit > m[bid_id].price_per_unit {
            Some(Error::OrderMismatch)
        } else {
            None
        }
    }

    /// Pairs an open ask with an open bid for the same amount whose price per
    /// unit is at least the ask's. Both become `Matched`, each naming the
    /// other's creator. The trade settles at the ask's total price.
    pub fn match_orders(&mut self, ask_id: &Hash256, bid_id: &Hash256, now: BlockNumber) -> (r: Result<Event, Error>)
        requires
            old(self).wf(),
        ensures
            final(self).wf(),
            order_steps_allowed(old(self).orders(), final(self).orders()),
            match old(self).match_error(ask_id@, bid_id@) {
                Some(e) => r == Err::<Event, Error>(e) && *final(self) == *old(self),
                None => {
                    let ask = old(self).orders()[ask_id@];
                    let bid = old(self).orders()[bid_id@];
                    &&& final(self).orders() == old(self).orders().insert(
                        ask_id@,
                        matched(ask, bid.creator, now),
                    ).insert(bid_id@, matched(bid, ask.creator, now))
                    &&& forall|a: AccountId| #[trigger] final(self).user_orders_of(a) == old(self).user_orders_of(a)
                    &&& r == Ok::<Event, Error>(
                        Event::OrdersMatched {
                            ask_id: *ask_id,
                            bid_id: *bid_id,
                            seller: ask.creator,
                            buyer: bid.creator,
                            amount: ask.energy_amount,
                            price: ask.total_price,
                        },
                    )
                },
            },
    {
        let ia = match self.orders.position(ask_id) {
            Some(i) => i,
            None => {
                return Err(Error::OrderNotFound);
            },
        };
        let ib = match self.orders.position(bid_id) {
            Some(i) => i,
            None => {
                return Err(Error::OrderNotFound);
            },
        };
        let ask = &self.orders.entry(ia).1;
        let bid = &self.orders.entry(ib).1;
        if ask.status != OrderStatus::Open || bid.status != OrderStatus::Open {
            return Err(Error::InvalidOrderStatus);
        }
        if ask.energy_amount != bid.energy_amount || ask.price_per_unit > bid.price_per_unit {
            return Err(Error::OrderMismatch);
        }
        let seller = ask.creator;
        let buyer = bid.creator;
        let amount = ask.energy_amount;
        let price = ask.total_price;
        let o = self.orders.value_mut(ia);
        o.status = OrderStatus::Matched;
        o.counterparty = Some(buyer);
        o.matched_at = Some(now);
        let o = self.orders.value_mut(ib);
        o.status = OrderStatus::Matched;
        o.counterparty = Some(seller);
        o.matched_at = Some(now);
        Ok(
            Event::OrdersMatched {
                ask_id: *ask_id,
                bid_id: *bid_id,
                seller,
                buyer,
                amount,
                price,
            },
        )
    }

    /// Why `verify_transfer(order_id, ..)` is refused here, if it is.
    pub open spec fn verify_error(&self, order_id: Seq<u8>) -> Option<Error> {
        if !self.orders().contains_key(order_id) {
            Some(Error::OrderNotFound)
        } else if self.orders()[order_id].status != OrderStatus::Matched {
            Some(Error::InvalidOrderStatus)
        } else {
            None
        }
    }

    /// Records the hash of the delivery evidence on a matched order and moves
    /// it to `InTransfer`.
    pub fn verify_transfer(&mut self, order_id: &Hash256, verification_data: &Vec<u8>) -> (r: Result<Event, Error>)
        requires
            old(self).wf(),
        ensures
            final(self).wf(),
            order_steps_allowed(old(self).orders(), final(self).orders()),
            forall|a: AccountId| #[trigger] final(self).user_orders_of(a) == old(self).user_orders_of(a),
            match old(self).verify_error(order_id@) {
                Some(e) => r == Err::<Event, Error>(e) && *final(self) == *old(self),
                None => r matches Ok(Event::TransferVerified { order_id: id, verification_hash: h })
                    && id == *order_id && h@ == verification_hash_of(verification_data@)
                    && final(self).orders() == old(self).orders().insert(
                        order_id@,
                        verified(old(self).orders()[order_id@], h),
                    ),
            },
    {
        let i = match self.orders.position(order_id) {
            Some(i) => i,
            None => {
                return Err(Error::OrderNotFound);
            },
        };
        if self.orders.entry(i).1.status != OrderStatus::Matched {
            return Err(Error::InvalidOrderStatus);
        }
        let h = blake2_256(&encode_bytes(verification_data.as_slice()));
        let o = self.orders.value_mut(i);
        o.transfer_verification = Some(h);
        o.status = OrderStatus::InTransfer;
        Ok(Event::TransferVerified { order_id: *order_id, verification_hash: h })
    }

    /// Why `complete_trade(order_id)` is refused before the ledger is asked, if it is.
    pub open spec fn completion_error(&self, order_id: Seq<u8>) -> Option<Error> {
        if !self.orders().contains_key(order_id) {
            Some(Error::OrderNotFound)
        } else if self.orders()[order_id].status != OrderStatus::InTransfer {
            Some(Error::InvalidOrderStatus)
        } else if self.orders()[order_id].transfer_verification is None {
            Some(Error::TransferVerificationFailed)
        } else if self.orders()[order_id].counterparty is None {
            Some(Error::OrderMismatch)
        } else {
            None
        }
    }

    /// Settles a verified order: its total price moves from the counterparty
    /// (the buyer) to the creator (the seller) on the token ledger, and the
    /// order becomes `Completed`. A ledger failure aborts the whole step.
    pub fn complete_trade(
        &mut self,
        token: &mut energy_token::Pallet,
        order_id: &Hash256,
        now: BlockNumber,
    ) -> (r: Result<Event, Error>)
        requires
            old(self).wf(),
            old(token).wf(),
        ensures
            final(self).wf(),
            final(token).wf(),
            order_steps_allowed(old(self).orders(), final(self).orders()),
            forall|a: AccountId| #[trigger] final(self).user_orders_of(a) == old(self).user_orders_of(a),
            match old(self).completion_error(order_id@) {
                Some(e) => r == Err::<Event, Error>(e) && *final(self) == *old(self) && *final(token)
                    == *old(token),
                None => {
                    let o = old(self).orders()[order_id@];
                    let buyer = o.counterparty.unwrap();
                    match old(token).transfer_error(buyer, o.creator, o.total_price) {
                        Some(e) => r == Err::<Event, Error>(Error::Token(e)) && *final(self) == *old(
                            self,
                        ) && *final(token) == *old(token),
                        None => {
                            &&& old(token).moved_to(&*final(token), buyer, o.creator, o.total_price)
                            &&& final(self).orders() == old(self).orders().insert(
                                order_id@,
                                completed(o, now),
                            )
                            &&& r == Ok::<Event, Error>(
                                Event::OrderCompleted {
                                    order_id: *order_id,
                                    seller: o.creator,
                                    buyer,
                                    amount: o.energy_amount,
                                    price: o.total_price,
                                },
                            )
                        },
                    }
                },
            },
    {
        let i = match self.orders.position(order_id) {
            Some(i) => i,
            None => {
                return Err(Error::OrderNotFound);
            },
        };
        let o = &self.orders.entry(i).1;
        if o.status != OrderStatus::InTransfer {
            return Err(Error::InvalidOrderStatus);
        }
        if o.transfer_verification.is_none() {
            return Err(Error::TransferVerificationFailed);
        }
        let buyer = match o.counterparty {
            Some(b) => b,
            None => {
                return Err(Error::OrderMismatch);
            },
        };
        let seller = o.creator;
        let amount = o.energy_amount;
        let price = o.total_price;
        match token.transfer(buyer, seller, price) {
            Err(e) => {
                return Err(Error::Token(e));
            },
            Ok(_) => {},
        }
        let o = self.orders.value_mut(i);
        o.status = OrderStatus::Completed;
        o.completed_at = Some(now);
        Ok(Event::OrderCompleted { order_id: *order_id, seller, buyer, amount, price })
    }
}

} // verus!
