//! Price discovery: an adjusted price from market and grid conditions, and a
//! scored search for the best counter-order.
use vstd::prelude::*;
use vstd::arithmetic::div_mod::lemma_fundamental_div_mod_converse;

use crate::encoding::copy_bytes;
use crate::energy_trade::{self, OrderStatus, OrderType, TradeOrder};
use crate::table::Table;
use crate::{saturated_product, saturating_mul, Balance, BlockNumber, Hash256};

verus! {

/// The most recent price points kept per location.
pub const HISTORY_LIMIT: usize = 24;

#[derive(Clone, Debug, PartialEq, Eq)]
pub struct PricePoint {
    pub price: Balance,
    pub timestamp: BlockNumber,
    pub volume: Balance,
    pub location: Vec<u8>,
}

#[derive(Clone, Debug, PartialEq, Eq)]
pub struct MarketData {
    pub current_price: Balance,
    pub daily_high: Balance,
    pub daily_low: Balance,
    pub daily_volume: Balance,
    pub price_history: Vec<PricePoint>,
}

/// Grid conditions at a location, each in `0..=100`.
#[derive(Clone, Copy, Debug, PartialEq, Eq, Structural)]
pub struct GridMetrics {
    pub congestion_level: u8,
    pub loss_factor: u8,
    pub stability_index: u8,
}

/// How much a source location prefers a target location; both fields in `0..=100`.
#[derive(Clone, Debug, PartialEq, Eq)]
pub struct LocationPriority {
    pub location: Vec<u8>,
    pub priority: u8,
    pub distance_factor: u8,
}

#[derive(Clone, Debug, PartialEq, Eq)]
pub enum Event {
    PriceUpdated { location: Vec<u8>, new_price: Balance },
    GridMetricsUpdated { location: Vec<u8>, congestion: u8, loss_factor: u8 },
    OptimalMatchFound { ask_id: Hash256, bid_id: Hash256, matched_price: Balance },
}

#[derive(Clone, Copy, Debug, PartialEq, Eq, Structural)]
pub enum Error {
    InvalidPrice,
    InvalidMetrics,
    NoMarketData,
    PriceOutOfRange,
}

pub open spec fn metrics_bounded(g: GridMetrics) -> bool {
    g.congestion_level <= 100 && g.loss_factor <= 100 && g.stability_index <= 100
}

/// `price` raised by `factor` percent, saturating; unchanged for a zero factor.
pub open spec fn adjusted(price: Balance, factor: u8) -> Balance {
    if factor == 0 {
        price
    } else {
        (saturated_product(price, (100 + factor) as u128) / 100) as Balance
    }
}

/// The base price raised by the congestion, then by the loss factor.
pub open spec fn optimal_price(base_price: Balance, g: GridMetrics) -> Balance {
    adjusted(adjusted(base_price, g.congestion_level), g.loss_factor)
}

/// `n / d` rounded to the nearest integer, halves up.
pub open spec fn round_div(n: nat, d: nat) -> nat {
    ((2 * n + d) / (2 * d)) as nat
}

/// 100 for equal prices, less the further apart they are, relative to the larger.
pub open spec fn price_closeness(a: Balance, b: Balance) -> int {
    if a == b {
        100
    } else if a > b {
        100 - round_div((100 * (a - b)) as nat, a as nat)
    } else {
        100 - round_div((100 * (b - a)) as nat, b as nat)
    }
}

/// The score that the first priority entry for `target` gives, or 0 without one.
pub open spec fn priority_score(ps: Seq<LocationPriority>, target: Seq<u8>) -> nat
    decreases ps.len(),
{
    if ps.len() == 0 {
        0
    } else if ps[0].location@ == target {
        (2 * ps[0].priority + ps[0].distance_factor) as nat
    } else {
        priority_score(ps.drop_first(), target)
    }
}

/// The grid score of a pair of locations' metrics: the congestion, stability
/// and loss sub-scores, each divided by 3 (rounding down), summed.
pub open spec fn metrics_score(s: GridMetrics, t: GridMetrics) -> int {
    let congestion = 100 - (if s.congestion_level > t.congestion_level {
        s.congestion_level
    } else {
        t.congestion_level
    });
    let stability = 2 * (if s.stability_index < t.stability_index {
        s.stability_index
    } else {
        t.stability_index
    });
    let loss = 100 - (s.loss_factor + t.loss_factor) / 2;
    congestion / 3 + stability / 3 + loss / 3
}

/// Whether `c` is a candidate counter-order for an order `o` looking for orders
/// not of type `order_type`.
pub open spec fn is_candidate(o: TradeOrder, order_type: OrderType, c: TradeOrder) -> bool {
    c.order_type != order_type && c.energy_amount == o.energy_amount && c.status
        == OrderStatus::Open
}

/// Market data, grid metrics and location priorities, each by location.
pub struct Pallet {
    market_data: Table<Vec<u8>, MarketData>,
    grid_metrics: Table<Vec<u8>, GridMetrics>,
    location_priorities: Table<Vec<u8>, Vec<LocationPriority>>,
}

impl Pallet {
    pub closed spec fn wf(&self) -> bool {
        &&& self.market_data.wf()
        &&& self.grid_metrics.wf()
        &&& self.location_priorities.wf()
        &&& forall|k: Seq<u8>|
            #[trigger] self.grid_metrics@.contains_key(k) ==> metrics_bounded(self.grid_metrics@[k])
        &&& forall|k: Seq<u8>|
            #[trigger] self.market_data@.contains_key(k) ==> self.market_data@[k].price_history@.len()
                <= HISTORY_LIMIT
    }

    pub closed spec fn market_map(&self) -> Map<Seq<u8>, MarketData> {
        self.market_data@
    }

    pub closed spec fn metrics_map(&self) -> Map<Seq<u8>, GridMetrics> {
        self.grid_metrics@
    }

    /// The priorities of a source location; none where none were set.
    pub closed spec fn priorities_of(&self, source: Seq<u8>) -> Seq<LocationPriority> {
        if self.location_priorities@.contains_key(source) {
            self.location_priorities@[source]@
        } else {
            Seq::empty()
        }
    }

    /// The grid score of two locations: 0 unless both have metrics.
    pub open spec fn grid_match(&self, source: Seq<u8>, target: Seq<u8>) -> int {
        if self.metrics_map().contains_key(source) && self.metrics_map().contains_key(target) {
            metrics_score(self.metrics_map()[source], self.metrics_map()[target])
        } else {
            0
        }
    }

    /// The score of candidate `c` for order `o`.
    pub open spec fn match_score(&self, o: TradeOrder, c: TradeOrder) -> int {
        priority_score(self.priorities_of(o.grid_location@), c.grid_location@) + price_closeness(
            o.price_per_unit,
            c.price_per_unit,
        ) + self.grid_match(o.grid_location@, c.grid_location@)
    }

    pub fn new() -> (r: Self)
        ensures
            r.wf(),
            r.market_map() == Map::<Seq<u8>, MarketData>::empty(),
            r.metrics_map() == Map::<Seq<u8>, GridMetrics>::empty(),
            forall|k: Seq<u8>| r.priorities_of(k) == Seq::<LocationPriority>::empty(),
    {
        Pallet {
            market_data: Table::new(),
            grid_metrics: Table::new(),
            location_priorities: Table::new(),
        }
    }

    pub fn market_data(&self, location: &Vec<u8>) -> (r: Option<&MarketData>)
        requires
            self.wf(),
        ensures
            match r {
                Some(d) => self.market_map().contains_key(location@) && *d == self.market_map()[location@]
                    && d.price_history@.len() <= HISTORY_LIMIT,
                None => !self.market_map().contains_key(location@),
            },
    {
        self.market_data.get(location)
    }

    pub fn grid_metrics(&self, location: &Vec<u8>) -> (r: Option<GridMetrics>)
        requires
            self.wf(),
        ensures
            match r {
                Some(g) => self.metrics_map().contains_key(location@) && g == self.metrics_map()[location@]
                    && metrics_bounded(g),
                None => !self.metrics_map().contains_key(location@),
            },
    {
        match self.grid_metrics.get(location) {
            Some(g) => Some(*g),
            None => None,
        }
    }

    pub fn location_priorities(&self, source: &Vec<u8>) -> (r: &[LocationPriority])
        requires
            self.wf(),
        ensures
            r@ == self.priorities_of(source@),
    {
        match self.location_priorities.get(source) {
            Some(ps) => ps.as_slice(),
            None => &[],
        }
    }

    /// The score that the first priority entry for `target` gives:
    /// `2 * priority + distance_factor`, or 0 without an entry.
    pub fn calculate_location_score(priorities: &[LocationPriority], target: &[u8]) -> (r: u32)
        ensures
            r == priority_score(priorities@, target@),
            r <= 765,
    {
        assert(priorities@.subrange(0, priorities@.len() as int) =~= priorities@);
        let mut i: usize = 0;
        while i < priorities.len()
            invariant
                0 <= i <= priorities@.len(),
                priority_score(priorities@, target@) == priority_score(
                    priorities@.subrange(i as int, priorities@.len() as int),
                    target@,
                ),
            decreases priorities@.len() - i,
        {
            let p = &priorities[i];
            assert(priorities@.subrange(i as int, priorities@.len() as int).drop_first() =~= priorities@.subrange(
                i + 1,
                priorities@.len() as int,
            ));
            if crate::table::bytes_equal(p.location.as_slice(), target) {
                return 2 * (p.priority as u32) + p.distance_factor as u32;
            }
            i = i + 1;
        }
        0
    }

    /// 100 for equal prices; otherwise 100 less the price difference as a
    /// percentage of the larger price, rounded to the nearest integer.
    pub fn calculate_price_score(a: Balance, b: Balance) -> (r: u32)
        ensures
            r == price_closeness(a, b),
            r <= 100,
    {
        if a == b {
            return 100;
        }
        let (diff, m) = if a > b {
            (a - b, a)
        } else {
            (b - a, b)
        };
        // Long division of 100 * diff by m, one addition of diff at a time.
        let mut q: u32 = 0;
        let mut rem: u128 = 0;
        let mut k: u32 = 0;
        while k < 100
            invariant
                0 <= k <= 100,
                0 < diff <= m,
                rem < m,
                q <= k,
                q as int * m + rem == k as int * diff,
            decreases 100 - k,
        {
            assert((k + 1) as int * diff == k as int * diff + diff) by (nonlinear_arith);
            assert((q + 1) as int * m == q as int * m + m) by (nonlinear_arith);
            if rem >= m - diff {
                rem = rem - (m - diff);
                q = q + 1;
            } else {
                rem = rem + diff;
            }
            k = k + 1;
        }
        let ghost n = 100 * diff as int;
        assert(q == 100 ==> rem == 0) by (nonlinear_arith)
            requires
                q as int * m + rem == n,
                n == 100 * diff as int,
                diff <= m,
                rem >= 0,
        ;
        let rounded = if rem >= m - rem {
            q + 1
        } else {
            q
        };
        proof {
            assert(2 * n + m == (q + 1) * (2 * m as int) + (2 * rem - m)) by (nonlinear_arith)
                requires
                    q as int * m + rem == n,
            ;
            assert(2 * n + m == q * (2 * m as int) + (2 * rem + m)) by (nonlinear_arith)
                requires
                    q as int * m + rem == n,
            ;
            if rem >= m - rem {
                lemma_fundamental_div_mod_converse(
                    2 * n + m,
                    2 * m as int,
                    q + 1,
                    2 * rem - m,
                );
            } else {
                lemma_fundamental_div_mod_converse(2 * n + m, 2 * m as int, q as int, 2 * rem + m);
            }
        }
        100 - rounded
    }

    /// The grid score of two locations: 0 unless both have metrics; otherwise
    /// the congestion, stability and loss sub-scores, each divided by 3, summed.
    pub fn calculate_grid_score(&self, source: &Vec<u8>, target: &Vec<u8>) -> (r: u32)
        requires
            self.wf(),
        ensures
            r == self.grid_match(source@, target@),
            r <= 133,
    {
        match (self.grid_metrics(source), self.grid_metrics(target)) {
            (Some(s), Some(t)) => {
                let congestion = 100 - (if s.congestion_level > t.congestion_level {
                    s.congestion_level
                } else {
                    t.congestion_level
                }) as u32;
                let stability = 2 * (if s.stability_index < t.stability_index {
                    s.stability_index
                } else {
                    t.stability_index
                }) as u32;
                let loss = 100 - ((s.loss_factor as u32 + t.loss_factor as u32) / 2);
                congestion / 3 + stability / 3 + loss / 3
            },
            _ => 0,
        }
    }

    /// Why `calculate_optimal_price(location, base_price)` is refused here, if it is.
    pub open spec fn pricing_error(&self, location: Seq<u8>, base_price: Balance) -> Option<Error> {
        if !self.market_map().contains_key(location) || !self.metrics_map().contains_key(location) {
            Some(Error::NoMarketData)
        } else {
            let p = optimal_price(base_price, self.metrics_map()[location]);
            let d = self.market_map()[location];
            if p < d.daily_low || p > d.daily_high {
                Some(Error::PriceOutOfRange)
            } else {
                None
            }
        }
    }

    /// The base price raised by the location's congestion and then by its
    /// loss factor, each as a percentage with saturating arithmetic; it must
    /// lie within the location's daily range.
    pub fn calculate_optimal_price(&self, location: &Vec<u8>, base_price: Balance) -> (r: Result<Balance, Error>)
        requires
            self.wf(),
        ensures
            match self.pricing_error(location@, base_price) {
                Some(e) => r == Err::<Balance, Error>(e),
                None => r == Ok::<Balance, Error>(optimal_price(base_price, self.metrics_map()[location@])),
            },
    {
        let market = match self.market_data(location) {
            Some(d) => d,
            None => {
                return Err(Error::NoMarketData);
            },
        };
        let metrics = match self.grid_metrics(location) {
            Some(g) => g,
            None => {
                return Err(Error::NoMarketData);
            },
        };
        let mut price = base_price;
        if metrics.congestion_level > 0 {
            price = saturating_mul(price, 100 + metrics.congestion_level as u128) / 100;
        }
        if metrics.loss_factor > 0 {
            price = saturating_mul(price, 100 + metrics.loss_factor as u128) / 100;
        }
        if price < market.daily_low || price > market.daily_high {
            return Err(Error::PriceOutOfRange);
        }
        Ok(price)
    }

    /// The best counter-order for the order `order_id`: among the open orders
    /// not of type `order_type` with the same energy amount, the one with the
    /// highest score, the first met in the scan order on a tie. Gives its
    /// identifier and price per unit.
    pub fn find_optimal_match(
        &self,
        trade: &energy_trade::Pallet,
        order_id: &Hash256,
        order_type: OrderType,
    ) -> (r: Option<(Hash256, Balance)>)
        requires
            self.wf(),
            trade.wf(),
        ensures
            !trade.orders().contains_key(order_id@) ==> r is None,
            trade.orders().contains_key(order_id@) ==> {
                let o = trade.orders()[order_id@];
                let s = trade.order_sequence();
                &&& r is None <==> forall|k: int| 0 <= k < s.len() ==> !is_candidate(o, order_type, #[trigger] s[k].1)
                &&& r matches Some((id, price)) ==> exists|j: int|
                    {
                        &&& 0 <= j < s.len()
                        &&& s[j].0 == id
                        &&& s[j].1.price_per_unit == price
                        &&& is_candidate(o, order_type, s[j].1)
                        &&& forall|k: int|
                            0 <= k < s.len() && is_candidate(o, order_type, #[trigger] s[k].1) ==> self.match_score(o, s[k].1) <= self.match_score(o, s[j].1)
                        &&& forall|k: int|
                            0 <= k < j && is_candidate(o, order_type, #[trigger] s[k].1) ==> self.match_score(o, s[k].1) < self.match_score(o, s[j].1)
                    }
            },
    {
        let order = match trade.trade_orders(order_id) {
            Some(o) => o,
            None => {
                return None;
            },
        };
        let ghost o = *order;
        let ghost s = trade.order_sequence();
        let priorities = self.location_priorities(&order.grid_location);
        let mut best: Option<(usize, u32)> = None;
        let n = trade.order_count();
        let mut i: usize = 0;
        while i < n
            invariant
                self.wf(),
                trade.wf(),
                n == s.len(),
                s == trade.order_sequence(),
                o == *order,
                priorities@ == self.priorities_of(o.grid_location@),
                0 <= i <= n,
                best is None ==> forall|k: int| 0 <= k < i ==> !is_candidate(o, order_type, #[trigger] s[k].1),
                best matches Some((j, bs)) ==> {
                    &&& j < i
                    &&& is_candidate(o, order_type, s[j as int].1)
                    &&& bs == self.match_score(o, s[j as int].1)
                    &&& forall|k: int|
                        0 <= k < i && is_candidate(o, order_type, #[trigger] s[k].1) ==> self.match_score(o, s[k].1) <= bs
                    &&& forall|k: int|
                        0 <= k < j && is_candidate(o, order_type, #[trigger] s[k].1) ==> self.match_score(o, s[k].1) < bs
                },
            decreases n - i,
        {
            let (_, c) = trade.order_at(i);
            if c.order_type != order_type && c.energy_amount == order.energy_amount && c.status
                == OrderStatus::Open {
                let score = Self::calculate_location_score(priorities, c.grid_location.as_slice())
                    + Self::calculate_price_score(order.price_per_unit, c.price_per_unit)
                    + self.calculate_grid_score(&order.grid_location, &c.grid_location);
                match best {
                    None => {
                        best = Some((i, score));
                    },
                    Some((_, bs)) => {
                        if score > bs {
                            best = Some((i, score));
                        }
                    },
                }
            }
            i = i + 1;
        }
        match best {
            None => None,
            Some((j, _)) => {
                let (id, c) = trade.order_at(j);
                Some((*id, c.price_per_unit))
            },
        }
    }

    /// Records a trade price at a location: the current price, the high and
    /// low, the (saturating) volume, and a bounded history in which the
    /// oldest point leaves once the limit is passed. A location's first
    /// update creates its record from this price and volume alone.
    pub fn update_market_data(
        &mut self,
        location: Vec<u8>,
        price: Balance,
        volume: Balance,
        now: BlockNumber,
    ) -> (r: Result<Event, Error>)
        requires
            old(self).wf(),
        ensures
            final(self).wf(),
            final(self).metrics_map() == old(self).metrics_map(),
            forall|k: Seq<u8>| #[trigger] final(self).priorities_of(k) == old(self).priorities_of(k),
            price == 0 ==> r == Err::<Event, Error>(Error::InvalidPrice) && *final(self) == *old(self),
            price != 0 ==> {
                let known = old(self).market_map().contains_key(location@);
                let d0 = old(self).market_map()[location@];
                let high0 = if known { d0.daily_high } else { price };
                let low0 = if known { d0.daily_low } else { price };
                let history0 = if known { d0.price_history@ } else { Seq::<PricePoint>::empty() };
                let d = final(self).market_map()[location@];
                &&& r matches Ok(Event::PriceUpdated { location: l, new_price }) && l@ == location@
                    && new_price == price
                &&& final(self).market_map().dom() == old(self).market_map().dom().insert(location@)
                &&& forall|k: Seq<u8>|
                    k != location@ && #[trigger] old(self).market_map().contains_key(k)
                        ==> final(self).market_map()[k] == old(self).market_map()[k]
                &&& d.current_price == price
                &&& d.daily_high == if high0 > price { high0 } else { price }
                &&& d.daily_low == if low0 < price { low0 } else { price }
                &&& d.daily_volume == if !known {
                    volume
                } else if d0.daily_volume + volume > u128::MAX {
                    u128::MAX
                } else {
                    (d0.daily_volume + volume) as u128
                }
                &&& 0 < d.price_history@.len() <= HISTORY_LIMIT
                &&& d.price_history@.drop_last() == if history0.len() >= HISTORY_LIMIT {
                    history0.drop_first()
                } else {
                    history0
                }
                &&& d.price_history@.last().price == price
                &&& d.price_history@.last().timestamp == now
                &&& d.price_history@.last().volume == volume
                &&& d.price_history@.last().location@ == location@
            },
    {
        if price == 0 {
            return Err(Error::InvalidPrice);
        }
        let point = PricePoint { price, timestamp: now, volume, location: copy_bytes(location.as_slice()) };
        match self.market_data.position(&location) {
            Some(i) => {
                let ghost h0 = self.market_data.entry_seq()[i as int].1.price_history@;
                let d = self.market_data.value_mut(i);
                d.current_price = price;
                if price > d.daily_high {
                    d.daily_high = price;
                }
                if price < d.daily_low {
                    d.daily_low = price;
                }
                d.daily_volume = d.daily_volume.saturating_add(volume);
                d.price_history.push(point);
                if d.price_history.len() > HISTORY_LIMIT {
                    d.price_history.remove(0);
                    assert(d.price_history@.drop_last() =~= h0.drop_first());
                } else {
                    assert(d.price_history@.drop_last() =~= h0);
                }
            },
            None => {
                let mut history: Vec<PricePoint> = Vec::new();
                history.push(point);
                let d = MarketData {
                    current_price: price,
                    daily_high: price,
                    daily_low: price,
                    daily_volume: volume,
                    price_history: history,
                };
                assert(d.price_history@.drop_last() =~= Seq::<PricePoint>::empty());
                self.market_data.insert(copy_bytes(location.as_slice()), d);
            },
        }
        Ok(Event::PriceUpdated { location, new_price: price })
    }

    /// Stores a location's grid metrics; each must be at most 100.
    pub fn update_grid_metrics(
        &mut self,
        location: Vec<u8>,
        congestion: u8,
        loss_factor: u8,
        stability: u8,
    ) -> (r: Result<Event, Error>)
        requires
            old(self).wf(),
        ensures
            final(self).wf(),
            final(self).market_map() == old(self).market_map(),
            forall|k: Seq<u8>| #[trigger] final(self).priorities_of(k) == old(self).priorities_of(k),
            congestion > 100 || loss_factor > 100 || stability > 100 ==> r == Err::<Event, Error>(
                Error::InvalidMetrics,
            ) && *final(self) == *old(self),
            congestion <= 100 && loss_factor <= 100 && stability <= 100 ==> {
                &&& final(self).metrics_map() == old(self).metrics_map().insert(
                    location@,
                    GridMetrics { congestion_level: congestion, loss_factor, stability_index: stability },
                )
                &&& r matches Ok(Event::GridMetricsUpdated { location: l, congestion: c, loss_factor: lf })
                    && l@ == location@ && c == congestion && lf == loss_factor
            },
    {
        if congestion > 100 || loss_factor > 100 || stability > 100 {
            return Err(Error::InvalidMetrics);
        }
        let metrics = GridMetrics { congestion_level: congestion, loss_factor, stability_index: stability };
        self.grid_metrics.insert(copy_bytes(location.as_slice()), metrics);
        Ok(Event::GridMetricsUpdated { location, congestion, loss_factor })
    }

    /// Replaces the priorities of a source location; every priority and
    /// distance factor must be at most 100.
    pub fn update_location_priorities(&mut self, source: Vec<u8>, priorities: Vec<LocationPriority>) -> (r: Result<(), Error>)
        requires
            old(self).wf(),
        ensures
            final(self).wf(),
            final(self).market_map() == old(self).market_map(),
            final(self).metrics_map() == old(self).metrics_map(),
            (exists|i: int|
                0 <= i < priorities@.len() && (#[trigger] priorities@[i].priority > 100
                    || priorities@[i].distance_factor > 100)) ==> r == Err::<(), Error>(
                Error::InvalidMetrics,
            ) && *final(self) == *old(self),
            (forall|i: int|
                0 <= i < priorities@.len() ==> #[trigger] priorities@[i].priority <= 100
                    && priorities@[i].distance_factor <= 100) ==> {
                &&& r == Ok::<(), Error>(())
                &&& final(self).priorities_of(source@) == priorities@
                &&& forall|k: Seq<u8>|
                    k != source@ ==> #[trigger] final(self).priorities_of(k) == old(self).priorities_of(k)
            },
    {
        let mut i: usize = 0;
        while i < priorities.len()
            invariant
                *self == *old(self),
                self.wf(),
                0 <= i <= priorities@.len(),
                forall|j: int|
                    0 <= j < i ==> #[trigger] priorities@[j].priority <= 100
                        && priorities@[j].distance_factor <= 100,
            decreases priorities@.len() - i,
        {
            if priorities[i].priority > 100 || priorities[i].distance_factor > 100 {
                return Err(Error::InvalidMetrics);
            }
            i = i + 1;
        }
        let ghost before = self.location_priorities@;
        let ghost ps = priorities@;
        self.location_priorities.insert(source, priorities);
        proof {
            let post = self.location_priorities@;
            assert(post[source@]@ == ps);
            assert forall|k: Seq<u8>| k != source@ implies #[trigger] self.priorities_of(k)
                == old(self).priorities_of(k) by {
                assert(post.contains_key(k) == before.contains_key(k));
            }
        }
        Ok(())
    }
}

} // verus!
