//! Settlement of completed orders: payments in the native token or by
//! external means, and exchange rates between tokens.
use vstd::prelude::*;

use crate::encoding::{
    blake2_256, blake2_256_of, copy_bytes, opt_bytes_field, push_opt_bytes, push_u128,
    push_u64, u128_field, u64_field,
};
use crate::energy_token;
use crate::energy_trade;
use crate::table::Table;
use crate::{saturated_product, saturating_mul, AccountId, Balance, BlockNumber, Hash256};

verus! {

#[derive(Clone, Copy, Debug, PartialEq, Eq, Structural)]
pub enum PaymentMethod {
    /// The platform's own token.
    Native,
    /// Traditional currency.
    Fiat,
    /// A currency-pegged token.
    Stablecoin,
    /// Another token.
    ExternalToken,
}

#[derive(Clone, Copy, Debug, PartialEq, Eq, Structural)]
pub enum PaymentStatus {
    Pending,
    Processing,
    Completed,
    Failed,
    Refunded,
}

#[derive(Clone, Debug, PartialEq, Eq)]
pub struct ExchangeRate {
    pub from_token: Vec<u8>,
    pub to_token: Vec<u8>,
    pub rate: u128,
    pub timestamp: u64,
}

/// A payment for an order. Payee and amount are taken from the order when the
/// payment is created, and are not revised afterwards.
#[derive(Clone, Debug, PartialEq, Eq)]
pub struct Payment {
    pub order_id: Hash256,
    pub payer: AccountId,
    pub payee: AccountId,
    pub amount: Balance,
    pub payment_method: PaymentMethod,
    pub status: PaymentStatus,
    pub external_reference: Option<Vec<u8>>,
    pub timestamp: BlockNumber,
}

#[derive(Clone, Debug, PartialEq, Eq)]
pub enum Event {
    PaymentCreated {
        payment_id: Hash256,
        order_id: Hash256,
        amount: Balance,
        method: PaymentMethod,
    },
    PaymentCompleted { payment_id: Hash256, order_id: Hash256 },
    PaymentFailed { payment_id: Hash256, reason: Vec<u8> },
    ExchangeRateUpdated { from_token: Vec<u8>, to_token: Vec<u8>, rate: u128 },
}

#[derive(Clone, Copy, Debug, PartialEq, Eq, Structural)]
pub enum Error {
    PaymentNotFound,
    InvalidPaymentStatus,
    InvalidAmount,
    PaymentMethodNotSupported,
    ExchangeRateNotFound,
    InsufficientBalance,
    ExternalPaymentFailed,
    /// The transfer on the token ledger failed.
    Token(energy_token::Error),
}

pub open spec fn method_field(m: PaymentMethod) -> Seq<u8> {
    match m {
        PaymentMethod::Native => seq![0u8],
        PaymentMethod::Fiat => seq![1u8],
        PaymentMethod::Stablecoin => seq![2u8],
        PaymentMethod::ExternalToken => seq![3u8],
    }
}

pub open spec fn bytes_view(o: Option<Vec<u8>>) -> Option<Seq<u8>> {
    match o {
        None => None,
        Some(b) => Some(b@),
    }
}

/// The canonical encoding of the fields a payment is created with.
pub open spec fn payment_encoding(
    order_id: Seq<u8>,
    payer: AccountId,
    payee: AccountId,
    amount: Balance,
    method: PaymentMethod,
    external_reference: Option<Seq<u8>>,
    timestamp: BlockNumber,
) -> Seq<u8> {
    order_id + (u64_field(payer) + (u64_field(payee) + (u128_field(amount) + (method_field(method)
        + (opt_bytes_field(external_reference) + u64_field(timestamp))))))
}

/// Whether an external payment proof is accepted: any non-empty proof is.
pub open spec fn proof_accepted(proof: Seq<u8>) -> bool {
    proof.len() > 0
}

fn verify_external_payment(proof: &[u8]) -> (r: bool)
    ensures
        r == proof_accepted(proof@),
{
    proof.len() > 0
}

/// The canonical encoding of a payment's creation fields.
pub fn encode_payment(
    order_id: &Hash256,
    payer: AccountId,
    payee: AccountId,
    amount: Balance,
    method: PaymentMethod,
    external_reference: &Option<Vec<u8>>,
    timestamp: BlockNumber,
) -> (r: Vec<u8>)
    ensures
        r@ == payment_encoding(
            order_id@,
            payer,
            payee,
            amount,
            method,
            bytes_view(*external_reference),
            timestamp,
        ),
{
    let mut out: Vec<u8> = Vec::new();
    let mut i: usize = 0;
    while i < 32
        invariant
            0 <= i <= 32,
            order_id@.len() == 32,
            out@ == order_id@.subrange(0, i as int),
        decreases 32 - i,
    {
        out.push(order_id[i]);
        i = i + 1;
        assert(out@ =~= order_id@.subrange(0, i as int));
    }
    assert(out@ =~= order_id@);
    push_u64(&mut out, payer);
    push_u64(&mut out, payee);
    push_u128(&mut out, amount);
    match method {
        PaymentMethod::Native => out.push(0u8),
        PaymentMethod::Fiat => out.push(1u8),
        PaymentMethod::Stablecoin => out.push(2u8),
        PaymentMethod::ExternalToken => out.push(3u8),
    }
    push_opt_bytes(&mut out, external_reference);
    push_u64(&mut out, timestamp);
    assert(out@ =~= payment_encoding(
        order_id@,
        payer,
        payee,
        amount,
        method,
        bytes_view(*external_reference),
        timestamp,
    ));
    out
}

/// The moves of a payment that processing makes: `Pending -> Completed`;
/// staying put is always allowed.
pub open spec fn payment_step_allowed(from: PaymentStatus, to: PaymentStatus) -> bool {
    from == to || (from == PaymentStatus::Pending && to == PaymentStatus::Completed)
}

/// Every payment present before and after kept its status or took an allowed step.
pub open spec fn payment_steps_allowed(before: Map<Seq<u8>, Payment>, after: Map<Seq<u8>, Payment>) -> bool {
    forall|k: Seq<u8>|
        #[trigger] before.contains_key(k) && after.contains_key(k) ==> payment_step_allowed(
            before[k].status,
            after[k].status,
        )
}

/// Payments by identifier, and exchange rates by (from, to) token pair.
pub struct Pallet {
    payments: Table<Hash256, Payment>,
    exchange_rates: Table<(Vec<u8>, Vec<u8>), ExchangeRate>,
}

impl Pallet {
    pub closed spec fn wf(&self) -> bool {
        self.payments.wf() && self.exchange_rates.wf()
    }

    /// Payments by identifier.
    pub closed spec fn payment_map(&self) -> Map<Seq<u8>, Payment> {
        self.payments@
    }

    /// Exchange rates by (from, to) token pair.
    pub closed spec fn rates(&self) -> Map<(Seq<u8>, Seq<u8>), ExchangeRate> {
        self.exchange_rates@
    }

    pub fn new() -> (r: Self)
        ensures
            r.wf(),
            r.payment_map() == Map::<Seq<u8>, Payment>::empty(),
            r.rates() == Map::<(Seq<u8>, Seq<u8>), ExchangeRate>::empty(),
    {
        Pallet { payments: Table::new(), exchange_rates: Table::new() }
    }

    /// The payment stored under `id`, if any.
    pub fn payments(&self, id: &Hash256) -> (r: Option<&Payment>)
        requires
            self.wf(),
        ensures
            match r {
                Some(p) => self.payment_map().contains_key(id@) && *p == self.payment_map()[id@],
                None => !self.payment_map().contains_key(id@),
            },
    {
        self.payments.get(id)
    }

    /// The exchange rate stored for a token pair, if any.
    pub fn exchange_rates(&self, from_token: &[u8], to_token: &[u8]) -> (r: Option<&ExchangeRate>)
        requires
            self.wf(),
        ensures
            match r {
                Some(x) => self.rates().contains_key((from_token@, to_token@)) && *x == self.rates()[(
                    from_token@,
                    to_token@,
                )],
                None => !self.rates().contains_key((from_token@, to_token@)),
            },
    {
        let key = (copy_bytes(from_token), copy_bytes(to_token));
        self.exchange_rates.get(&key)
    }

    /// Creates a pending payment by `payer` for an order: the payee is the
    /// order's creator and the amount its total price, as they are now.
    pub fn create_payment(
        &mut self,
        trade: &energy_trade::Pallet,
        payer: AccountId,
        order_id: &Hash256,
        payment_method: PaymentMethod,
        external_reference: Option<Vec<u8>>,
        now: BlockNumber,
    ) -> (r: Result<Event, Error>)
        requires
            old(self).wf(),
            trade.wf(),
        ensures
            final(self).wf(),
            final(self).rates() == old(self).rates(),
            !trade.orders().contains_key(order_id@) ==> r == Err::<Event, Error>(Error::PaymentNotFound)
                && *final(self) == *old(self),
            trade.orders().contains_key(order_id@) ==> {
                let o = trade.orders()[order_id@];
                let id = blake2_256_of(
                    payment_encoding(
                        order_id@,
                        payer,
                        o.creator,
                        o.total_price,
                        payment_method,
                        bytes_view(external_reference),
                        now,
                    ),
                );
                &&& final(self).payment_map() == old(self).payment_map().insert(
                    id,
                    Payment {
                        order_id: *order_id,
                        payer,
                        payee: o.creator,
                        amount: o.total_price,
                        payment_method,
                        status: PaymentStatus::Pending,
                        external_reference,
                        timestamp: now,
                    },
                )
                &&& r matches Ok(Event::PaymentCreated { payment_id, order_id: oid, amount, method })
                    && payment_id@ == id && oid == *order_id && amount == o.total_price && method
                    == payment_method
            },
    {
        let (payee, amount) = match trade.trade_orders(order_id) {
            Some(o) => (o.creator, o.total_price),
            None => {
                return Err(Error::PaymentNotFound);
            },
        };
        let enc = encode_payment(
            order_id,
            payer,
            payee,
            amount,
            payment_method,
            &external_reference,
            now,
        );
        let payment_id = blake2_256(&enc);
        let payment = Payment {
            order_id: *order_id,
            payer,
            payee,
            amount,
            payment_method,
            status: PaymentStatus::Pending,
            external_reference,
            timestamp: now,
        };
        self.payments.insert(payment_id, payment);
        Ok(Event::PaymentCreated { payment_id, order_id: *order_id, amount, method: payment_method })
    }

    /// Why `process_native_payment(payment_id)` is refused before the ledger is asked, if it is.
    pub open spec fn native_error(&self, payment_id: Seq<u8>) -> Option<Error> {
        if !self.payment_map().contains_key(payment_id) {
            Some(Error::PaymentNotFound)
        } else if self.payment_map()[payment_id].status != PaymentStatus::Pending {
            Some(Error::InvalidPaymentStatus)
        } else if self.payment_map()[payment_id].payment_method != PaymentMethod::Native {
            Some(Error::PaymentMethodNotSupported)
        } else {
            None
        }
    }

    /// Pays a pending native payment on the token ledger, payer to payee.
    pub fn process_native_payment(&mut self, token: &mut energy_token::Pallet, payment_id: &Hash256) -> (r: Result<Event, Error>)
        requires
            old(self).wf(),
            old(token).wf(),
        ensures
            final(self).wf(),
            final(token).wf(),
            final(self).rates() == old(self).rates(),
            payment_steps_allowed(old(self).payment_map(), final(self).payment_map()),
            match old(self).native_error(payment_id@) {
                Some(e) => r == Err::<Event, Error>(e) && *final(self) == *old(self) && *final(token)
                    == *old(token),
                None => {
                    let p = old(self).payment_map()[payment_id@];
                    match old(token).transfer_error(p.payer, p.payee, p.amount) {
                        Some(e) => r == Err::<Event, Error>(Error::Token(e)) && *final(self) == *old(
                            self,
                        ) && *final(token) == *old(token),
                        None => {
                            &&& old(token).moved_to(&*final(token), p.payer, p.payee, p.amount)
                            &&& final(self).payment_map() == old(self).payment_map().insert(
                                payment_id@,
                                Payment { status: PaymentStatus::Completed, ..p },
                            )
                            &&& r == Ok::<Event, Error>(
                                Event::PaymentCompleted { payment_id: *payment_id, order_id: p.order_id },
                            )
                        },
                    }
                },
            },
    {
        let i = match self.payments.position(payment_id) {
            Some(i) => i,
            None => {
                return Err(Error::PaymentNotFound);
            },
        };
        let p = &self.payments.entry(i).1;
        if p.status != PaymentStatus::Pending {
            return Err(Error::InvalidPaymentStatus);
        }
        if p.payment_method != PaymentMethod::Native {
            return Err(Error::PaymentMethodNotSupported);
        }
        let order_id = p.order_id;
        match token.transfer(p.payer, p.payee, p.amount) {
            Err(e) => {
                return Err(Error::Token(e));
            },
            Ok(_) => {},
        }
        let p = self.payments.value_mut(i);
        p.status = PaymentStatus::Completed;
        Ok(Event::PaymentCompleted { payment_id: *payment_id, order_id })
    }

    /// Why `process_external_payment(payment_id, proof)` is refused here, if it is.
    pub open spec fn external_error(&self, payment_id: Seq<u8>, proof: Seq<u8>) -> Option<Error> {
        if !self.payment_map().contains_key(payment_id) {
            Some(Error::PaymentNotFound)
        } else if self.payment_map()[payment_id].status != PaymentStatus::Pending {
            Some(Error::InvalidPaymentStatus)
        } else if self.payment_map()[payment_id].payment_method == PaymentMethod::Native {
            Some(Error::PaymentMethodNotSupported)
        } else if !proof_accepted(proof) {
            Some(Error::ExternalPaymentFailed)
        } else {
            None
        }
    }

    /// Completes a pending fiat, stablecoin or external-token payment whose
    /// proof is accepted. A rejected proof fails the call and, like every
    /// failure, leaves the payment as it was.
    pub fn process_external_payment(&mut self, payment_id: &Hash256, proof: &Vec<u8>) -> (r: Result<Event, Error>)
        requires
            old(self).wf(),
        ensures
            final(self).wf(),
            final(self).rates() == old(self).rates(),
            payment_steps_allowed(old(self).payment_map(), final(self).payment_map()),
            match old(self).external_error(payment_id@, proof@) {
                Some(e) => r == Err::<Event, Error>(e) && *final(self) == *old(self),
                None => {
                    let p = old(self).payment_map()[payment_id@];
                    &&& final(self).payment_map() == old(self).payment_map().insert(
                        payment_id@,
                        Payment { status: PaymentStatus::Completed, ..p },
                    )
                    &&& r == Ok::<Event, Error>(
                        Event::PaymentCompleted { payment_id: *payment_id, order_id: p.order_id },
                    )
                },
            },
    {
        let i = match self.payments.position(payment_id) {
            Some(i) => i,
            None => {
                return Err(Error::PaymentNotFound);
            },
        };
        let p = &self.payments.entry(i).1;
        if p.status != PaymentStatus::Pending {
            return Err(Error::InvalidPaymentStatus);
        }
        match p.payment_method {
            PaymentMethod::Fiat | PaymentMethod::Stablecoin | PaymentMethod::ExternalToken => {},
            PaymentMethod::Native => {
                return Err(Error::PaymentMethodNotSupported);
            },
        }
        if !verify_external_payment(proof.as_slice()) {
            return Err(Error::ExternalPaymentFailed);
        }
        let order_id = p.order_id;
        let p = self.payments.value_mut(i);
        p.status = PaymentStatus::Completed;
        Ok(Event::PaymentCompleted { payment_id: *payment_id, order_id })
    }

    /// Stores the rate from one token to another as given, replacing any earlier one.
    pub fn update_exchange_rate(
        &mut self,
        from_token: Vec<u8>,
        to_token: Vec<u8>,
        rate: u128,
        timestamp: u64,
    ) -> (r: Event)
        requires
            old(self).wf(),
        ensures
            final(self).wf(),
            final(self).payment_map() == old(self).payment_map(),
            final(self).rates().dom() == old(self).rates().dom().insert((from_token@, to_token@)),
            forall|k: (Seq<u8>, Seq<u8>)|
                k != (from_token@, to_token@) && #[trigger] old(self).rates().contains_key(k)
                    ==> final(self).rates()[k] == old(self).rates()[k],
            final(self).rates()[(from_token@, to_token@)].from_token@ == from_token@,
            final(self).rates()[(from_token@, to_token@)].to_token@ == to_token@,
            final(self).rates()[(from_token@, to_token@)].rate == rate,
            final(self).rates()[(from_token@, to_token@)].timestamp == timestamp,
            r == (Event::ExchangeRateUpdated { from_token, to_token, rate }),
    {
        let record = ExchangeRate {
            from_token: copy_bytes(from_token.as_slice()),
            to_token: copy_bytes(to_token.as_slice()),
            rate,
            timestamp,
        };
        let key = (copy_bytes(from_token.as_slice()), copy_bytes(to_token.as_slice()));
        self.exchange_rates.insert(key, record);
        Event::ExchangeRateUpdated { from_token, to_token, rate }
    }

    /// Converts `amount` at the stored rate for exactly this (from, to)
    /// pair, saturating at the largest balance.
    pub fn convert_amount(&self, amount: Balance, from_token: &[u8], to_token: &[u8]) -> (r: Result<Balance, Error>)
        requires
            self.wf(),
        ensures
            !self.rates().contains_key((from_token@, to_token@)) ==> r == Err::<Balance, Error>(
                Error::ExchangeRateNotFound,
            ),
            self.rates().contains_key((from_token@, to_token@)) ==> r == Ok::<Balance, Error>(
                saturated_product(amount, self.rates()[(from_token@, to_token@)].rate),
            ),
    {
        match self.exchange_rates(from_token, to_token) {
            Some(x) => Ok(saturating_mul(amount, x.rate)),
            None => Err(Error::ExchangeRateNotFound),
        }
    }
}

} // verus!
