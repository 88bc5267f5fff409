//! The price oracle: per-exchange quotes pushed by operators, their
//! aggregation into one quote, its freshness, and conversions between
//! quote and base units.
use vstd::prelude::*;
use crate::errors::OracleError;
use crate::model::Address;

verus! {

/// Oldest accepted age of a price, in seconds (fifteen minutes).
pub const MAX_PRICE_AGE_SECS: u64 = 900;

/// Largest accepted deviation of a new price from the reference, in basis
/// points (ten percent).
pub const MAX_PRICE_DEVIATION_BPS: i128 = 1000;

/// Decimals of a price.
pub const PRICE_DECIMALS: u32 = 7;

/// One unit at `PRICE_DECIMALS` decimals.
pub const ONE_UNIT: i128 = 10_000_000;

/// Fewest exchanges that an aggregation needs.
pub const MIN_EXCHANGES_FOR_AGGREGATION: u32 = 2;

/// Largest accepted price: the largest whose scaling to basis points stays
/// within `i128`, as the deviation and spread computations need.
pub const MAX_PRICE: i128 = 17014118346046923173168730371588410;

/// The exchanges that quotes are taken from.
#[derive(Clone, Copy, Debug, PartialEq, Eq, Structural)]
pub enum Exchange {
    Binance,
    Bybit,
    Bitget,
}

/// A quote from one exchange, with prices at `PRICE_DECIMALS` decimals.
#[derive(Clone, Copy, Debug, PartialEq, Eq, Structural)]
pub struct ExchangePrice {
    pub exchange: Exchange,
    /// Price of buying the quote currency.
    pub ask: i128,
    /// Price of selling the quote currency.
    pub bid: i128,
    /// Unix time of the quote at its source.
    pub timestamp: u64,
    /// Ledger height at which it was stored.
    pub ledger: u32,
}

/// An aggregated quote, with prices at `PRICE_DECIMALS` decimals.
#[derive(Clone, Copy, Debug, PartialEq, Eq, Structural)]
pub struct AggregatedPrice {
    pub ask: i128,
    pub bid: i128,
    pub mid: i128,
    pub spread_bps: i128,
    pub num_sources: u32,
    /// Unix time of the aggregation.
    pub timestamp: u64,
    pub ledger: u32,
}

/// Oracle configuration.
#[derive(Clone, Copy, Debug, PartialEq, Eq, Structural)]
pub struct OracleConfig {
    pub max_price_age_secs: u64,
    pub max_deviation_bps: i128,
    pub min_sources: u32,
}

/// Division rounding toward zero, as integer division does at run time.
pub open spec fn trunc_div(a: int, b: int) -> int {
    let q = (if a >= 0 {
        a
    } else {
        -a
    }) / (if b >= 0 {
        b
    } else {
        -b
    });
    if (a >= 0) == (b >= 0) {
        q
    } else {
        -q
    }
}

/// Absolute deviation of `new_price` from `reference_price`, in basis
/// points of the reference, rounded toward zero.
pub open spec fn deviation_bps(new_price: int, reference_price: int) -> int {
    let diff = if new_price > reference_price {
        new_price - reference_price
    } else {
        reference_price - new_price
    };
    trunc_div(diff * 10000, reference_price)
}

/// Whether `new_price` deviates from `reference_price` by at most
/// `max_deviation_bps`; any price is accepted against a zero reference.
pub fn validate_price_deviation(new_price: i128, reference_price: i128, max_deviation_bps: i128) -> (r:
    bool)
    requires
        reference_price != 0 ==> (new_price - reference_price) * 10000 <= i128::MAX,
        reference_price != 0 ==> (reference_price - new_price) * 10000 <= i128::MAX,
    ensures
        r == (reference_price == 0 || deviation_bps(new_price as int, reference_price as int)
            <= max_deviation_bps),
{
    if reference_price == 0 {
        return true;
    }
    let diff_bps = if new_price > reference_price {
        (new_price - reference_price) * 10000
    } else {
        (reference_price - new_price) * 10000
    };
    let deviation = diff_bps / reference_price;
    assert(diff_bps >= 0);
    if reference_price > 0 {
        assert(deviation == diff_bps as int / reference_price as int);
    } else {
        let ghost a = diff_bps as int;
        let ghost b = reference_price as int;
        assert(a / b == -(a / -b)) by (nonlinear_arith)
            requires
                a >= 0,
                b < 0,
        ;
        assert(deviation == -(diff_bps as int / -(reference_price as int)));
    }
    assert(deviation == trunc_div(diff_bps as int, reference_price as int));
    deviation <= max_deviation_bps
}

/// The price was aggregated at most `MAX_PRICE_AGE_SECS` before `now`.
pub open spec fn fresh(price: AggregatedPrice, now: u64) -> bool {
    now <= price.timestamp + MAX_PRICE_AGE_SECS
}

/// Base units for `usdt_amount` quote units at bid price `bid`, rounded
/// toward zero.
pub open spec fn quote_to_base(usdt_amount: int, bid: int) -> int {
    trunc_div(usdt_amount * bid, ONE_UNIT as int)
}

/// Quote units for `bobt_amount` base units at ask price `ask`, rounded
/// toward zero.
pub open spec fn base_to_quote(bobt_amount: int, ask: int) -> int {
    trunc_div(bobt_amount * ONE_UNIT, ask)
}

pub open spec fn price_in_range(p: i128) -> bool {
    0 < p <= MAX_PRICE
}

/// The quote held in a slot counts towards an aggregation at unix time
/// `now`: it is at most `MAX_PRICE_AGE_SECS` old.
pub open spec fn counts(slot: Option<ExchangePrice>, now: u64) -> bool {
    slot matches Some(p) && now <= p.timestamp + MAX_PRICE_AGE_SECS
}

pub open spec fn count_of(slot: Option<ExchangePrice>, now: u64) -> int {
    if counts(slot, now) {
        1
    } else {
        0
    }
}

pub open spec fn ask_of(slot: Option<ExchangePrice>, now: u64) -> int {
    if counts(slot, now) {
        slot->0.ask as int
    } else {
        0
    }
}

pub open spec fn bid_of(slot: Option<ExchangePrice>, now: u64) -> int {
    if counts(slot, now) {
        slot->0.bid as int
    } else {
        0
    }
}

/// The aggregation of the quotes that count at `now`: averages of ask and
/// bid rounded down, their mid rounded down, and the spread in basis points
/// of the mid; none when fewer than `MIN_EXCHANGES_FOR_AGGREGATION` count.
pub open spec fn aggregate(
    binance: Option<ExchangePrice>,
    bybit: Option<ExchangePrice>,
    bitget: Option<ExchangePrice>,
    now: u64,
    ledger: u32,
) -> Option<AggregatedPrice> {
    let n = count_of(binance, now) + count_of(bybit, now) + count_of(bitget, now);
    let ask = (ask_of(binance, now) + ask_of(bybit, now) + ask_of(bitget, now)) / n;
    let bid = (bid_of(binance, now) + bid_of(bybit, now) + bid_of(bitget, now)) / n;
    let mid = (ask + bid) / 2;
    if n < MIN_EXCHANGES_FOR_AGGREGATION {
        None
    } else {
        Some(
            AggregatedPrice {
                ask: ask as i128,
                bid: bid as i128,
                mid: mid as i128,
                spread_bps: (if mid > 0 {
                    trunc_div((ask - bid) * 10000, mid)
                } else {
                    0
                }) as i128,
                num_sources: n as u32,
                timestamp: now,
                ledger,
            },
        )
    }
}

pub open spec fn slot_in_range(slot: Option<ExchangePrice>) -> bool {
    slot matches Some(p) ==> price_in_range(p.ask) && price_in_range(p.bid)
}

/// Aggregates the quotes of the three exchanges that are fresh at unix time
/// `now`.
pub fn calculate_aggregated_price(
    binance: &Option<ExchangePrice>,
    bybit: &Option<ExchangePrice>,
    bitget: &Option<ExchangePrice>,
    now: u64,
    ledger: u32,
) -> (r: Option<AggregatedPrice>)
    requires
        slot_in_range(*binance),
        slot_in_range(*bybit),
        slot_in_range(*bitget),
    ensures
        r == aggregate(*binance, *bybit, *bitget, now, ledger),
        r matches Some(a) ==> price_in_range(a.ask) && price_in_range(a.bid),
{
    let mut n: u32 = 0;
    let mut total_ask: i128 = 0;
    let mut total_bid: i128 = 0;
    if let Some(p) = binance {
        if now <= p.timestamp || now - p.timestamp <= MAX_PRICE_AGE_SECS {
            n = n + 1;
            total_ask = total_ask + p.ask;
            total_bid = total_bid + p.bid;
        }
    }
    if let Some(p) = bybit {
        if now <= p.timestamp || now - p.timestamp <= MAX_PRICE_AGE_SECS {
            n = n + 1;
            total_ask = total_ask + p.ask;
            total_bid = total_bid + p.bid;
        }
    }
    if let Some(p) = bitget {
        if now <= p.timestamp || now - p.timestamp <= MAX_PRICE_AGE_SECS {
            n = n + 1;
            total_ask = total_ask + p.ask;
            total_bid = total_bid + p.bid;
        }
    }
    assert(n == count_of(*binance, now) + count_of(*bybit, now) + count_of(*bitget, now));
    assert(total_ask == ask_of(*binance, now) + ask_of(*bybit, now) + ask_of(*bitget, now));
    assert(total_bid == bid_of(*binance, now) + bid_of(*bybit, now) + bid_of(*bitget, now));
    if n < MIN_EXCHANGES_FOR_AGGREGATION {
        return None;
    }
    let avg_ask = total_ask / (n as i128);
    let avg_bid = total_bid / (n as i128);
    assert(1 <= avg_ask <= MAX_PRICE && 1 <= avg_bid <= MAX_PRICE) by {
        if n == 2 {
            assert(2 <= total_ask <= 2 * MAX_PRICE && 2 <= total_bid <= 2 * MAX_PRICE);
            assert(1 <= total_ask / 2 <= MAX_PRICE) by (nonlinear_arith)
                requires
                    2 <= total_ask <= 2 * MAX_PRICE,
            ;
            assert(1 <= total_bid / 2 <= MAX_PRICE) by (nonlinear_arith)
                requires
                    2 <= total_bid <= 2 * MAX_PRICE,
            ;
        } else {
            assert(n == 3);
            assert(3 <= total_ask <= 3 * MAX_PRICE && 3 <= total_bid <= 3 * MAX_PRICE);
            assert(1 <= total_ask / 3 <= MAX_PRICE) by (nonlinear_arith)
                requires
                    3 <= total_ask <= 3 * MAX_PRICE,
            ;
            assert(1 <= total_bid / 3 <= MAX_PRICE) by (nonlinear_arith)
                requires
                    3 <= total_bid <= 3 * MAX_PRICE,
            ;
        }
    }
    let mid = (avg_ask + avg_bid) / 2;
    let spread_bps = if mid > 0 {
        if avg_ask >= avg_bid {
            ((avg_ask - avg_bid) * 10000) / mid
        } else {
            -(((avg_bid - avg_ask) * 10000) / mid)
        }
    } else {
        0
    };
    Some(
        AggregatedPrice {
            ask: avg_ask,
            bid: avg_bid,
            mid,
            spread_bps,
            num_sources: n,
            timestamp: now,
            ledger,
        },
    )
}

/// The abstract state of an oracle.
pub struct OracleState {
    pub admin: Address,
    pub operators: Seq<Address>,
    pub binance: Option<ExchangePrice>,
    pub bybit: Option<ExchangePrice>,
    pub bitget: Option<ExchangePrice>,
    pub aggregated: Option<AggregatedPrice>,
}

impl OracleState {
    /// Stored quotes and the aggregate hold prices in range.
    pub open spec fn valid(self) -> bool {
        &&& slot_in_range(self.binance)
        &&& slot_in_range(self.bybit)
        &&& slot_in_range(self.bitget)
        &&& self.aggregated matches Some(a) ==> price_in_range(a.ask) && price_in_range(a.bid)
    }

    /// `caller` may push quotes: the admin or an operator.
    pub open spec fn may_update(self, caller: Address) -> bool {
        caller == self.admin || self.operators.contains(caller)
    }

    pub open spec fn slot(self, exchange: Exchange) -> Option<ExchangePrice> {
        match exchange {
            Exchange::Binance => self.binance,
            Exchange::Bybit => self.bybit,
            Exchange::Bitget => self.bitget,
        }
    }

    pub open spec fn with_slot(self, exchange: Exchange, p: ExchangePrice) -> OracleState {
        match exchange {
            Exchange::Binance => OracleState { binance: Some(p), ..self },
            Exchange::Bybit => OracleState { bybit: Some(p), ..self },
            Exchange::Bitget => OracleState { bitget: Some(p), ..self },
        }
    }

    /// The state with the aggregate recomputed at `now`; an aggregation
    /// that finds too few fresh quotes keeps the previous aggregate.
    pub open spec fn reaggregated(self, now: u64, ledger: u32) -> OracleState {
        match aggregate(self.binance, self.bybit, self.bitget, now, ledger) {
            Some(a) => OracleState { aggregated: Some(a), ..self },
            None => self,
        }
    }

    /// Why `operator` cannot push this quote, if it cannot.
    pub open spec fn update_error(self, operator: Address, ask: i128, bid: i128) -> Option<
        OracleError,
    > {
        if !self.may_update(operator) {
            Some(OracleError::NotAnOperator)
        } else if !price_in_range(ask) || !price_in_range(bid) || ask < bid {
            Some(OracleError::InvalidPrice)
        } else if self.aggregated matches Some(a) && deviation_bps(ask as int, a.ask as int)
            > MAX_PRICE_DEVIATION_BPS {
            Some(OracleError::PriceDeviationTooHigh)
        } else {
            None
        }
    }

    /// The state after a batch push at `ledger`: each pair with both prices
    /// in range replaces its exchange's quote, the others are skipped.
    pub open spec fn with_batch(
        self,
        pairs: (i128, i128, i128, i128, i128, i128),
        timestamp: u64,
        ledger: u32,
    ) -> OracleState {
        let (ba, bb, ya, yb, ga, gb) = pairs;
        let s1 = if price_in_range(ba) && price_in_range(bb) {
            self.with_slot(
                Exchange::Binance,
                ExchangePrice { exchange: Exchange::Binance, ask: ba, bid: bb, timestamp, ledger },
            )
        } else {
            self
        };
        let s2 = if price_in_range(ya) && price_in_range(yb) {
            s1.with_slot(
                Exchange::Bybit,
                ExchangePrice { exchange: Exchange::Bybit, ask: ya, bid: yb, timestamp, ledger },
            )
        } else {
            s1
        };
        if price_in_range(ga) && price_in_range(gb) {
            s2.with_slot(
                Exchange::Bitget,
                ExchangePrice { exchange: Exchange::Bitget, ask: ga, bid: gb, timestamp, ledger },
            )
        } else {
            s2
        }
    }

    /// The aggregate as served at unix time `now`: missing or stale
    /// aggregates are refused.
    pub open spec fn price_at(self, now: u64) -> Result<AggregatedPrice, OracleError> {
        match self.aggregated {
            None => Err(OracleError::InsufficientSources),
            Some(p) => if fresh(p, now) {
                Ok(p)
            } else {
                Err(OracleError::PriceStale)
            },
        }
    }
}

/// The price oracle: its admin, its operators, the latest quote of each
/// exchange, and the latest aggregate.
pub struct PriceOracle {
    admin: Address,
    operators: Vec<Address>,
    binance: Option<ExchangePrice>,
    bybit: Option<ExchangePrice>,
    bitget: Option<ExchangePrice>,
    aggregated: Option<AggregatedPrice>,
}

impl View for PriceOracle {
    type V = OracleState;

    closed spec fn view(&self) -> OracleState {
        OracleState {
            admin: self.admin,
            operators: self.operators@,
            binance: self.binance,
            bybit: self.bybit,
            bitget: self.bitget,
            aggregated: self.aggregated,
        }
    }
}

impl PriceOracle {
    pub open spec fn wf(&self) -> bool {
        self@.valid()
    }

    /// An oracle run by `admin`, with `operators` allowed to push quotes and
    /// no quote yet.
    pub fn initialize(admin: Address, operators: Vec<Address>) -> (r: PriceOracle)
        ensures
            r.wf(),
            r@ == (OracleState {
                admin,
                operators: operators@,
                binance: None,
                bybit: None,
                bitget: None,
                aggregated: None,
            }),
    {
        PriceOracle { admin, operators, binance: None, bybit: None, bitget: None, aggregated: None }
    }

    /// Whether `address` is listed as an operator.
    pub fn is_operator(&self, address: Address) -> (r: bool)
        ensures
            r == self@.operators.contains(address),
    {
        let mut i: usize = 0;
        while i < self.operators.len()
            invariant
                i <= self.operators@.len(),
                forall|j: int| 0 <= j < i ==> self.operators@[j] != address,
            decreases self.operators.len() - i,
        {
            if self.operators[i] == address {
                assert(self.operators@[i as int] == address);
                return true;
            }
            i += 1;
        }
        false
    }

    fn require_operator(&self, caller: Address) -> (r: Result<(), OracleError>)
        ensures
            r is Ok <==> self@.may_update(caller),
            r is Err ==> r == Err::<(), OracleError>(OracleError::NotAnOperator),
    {
        if caller == self.admin {
            return Ok(());
        }
        if !self.is_operator(caller) {
            return Err(OracleError::NotAnOperator);
        }
        Ok(())
    }

    fn store(&mut self, p: ExchangePrice)
        ensures
            final(self)@ == old(self)@.with_slot(p.exchange, p),
    {
        match p.exchange {
            Exchange::Binance => self.binance = Some(p),
            Exchange::Bybit => self.bybit = Some(p),
            Exchange::Bitget => self.bitget = Some(p),
        }
    }

    fn reaggregate(&mut self, now: u64, ledger: u32)
        requires
            old(self).wf(),
        ensures
            final(self).wf(),
            final(self)@ == old(self)@.reaggregated(now, ledger),
    {
        match calculate_aggregated_price(&self.binance, &self.bybit, &self.bitget, now, ledger) {
            Some(a) => self.aggregated = Some(a),
            None => {},
        }
    }

    /// Pushes a quote of `exchange` taken at unix time `timestamp`, then
    /// recomputes the aggregate at unix time `now` and ledger height
    /// `ledger`.
    pub fn update_price(
        &mut self,
        operator: Address,
        exchange: Exchange,
        ask: i128,
        bid: i128,
        timestamp: u64,
        now: u64,
        ledger: u32,
    ) -> (r: Result<(), OracleError>)
        requires
            old(self).wf(),
        ensures
            final(self).wf(),
            match old(self)@.update_error(operator, ask, bid) {
                Some(e) => r == Err::<(), OracleError>(e) && final(self)@ == old(self)@,
                None => r is Ok && final(self)@ == old(self)@.with_slot(
                    exchange,
                    ExchangePrice { exchange, ask, bid, timestamp, ledger },
                ).reaggregated(now, ledger),
            },
    {
        match self.require_operator(operator) {
            Ok(()) => {},
            Err(e) => return Err(e),
        }
        if ask <= 0 || bid <= 0 || ask > MAX_PRICE || bid > MAX_PRICE || ask < bid {
            return Err(OracleError::InvalidPrice);
        }
        if let Some(agg) = self.aggregated {
            if !validate_price_deviation(ask, agg.ask, MAX_PRICE_DEVIATION_BPS) {
                return Err(OracleError::PriceDeviationTooHigh);
            }
        }
        self.store(ExchangePrice { exchange, ask, bid, timestamp, ledger });
        self.reaggregate(now, ledger);
        Ok(())
    }

    /// Pushes quotes of the three exchanges at once; a pair with a price out
    /// of range is skipped. Then recomputes the aggregate.
    pub fn update_prices_batch(
        &mut self,
        operator: Address,
        binance_ask: i128,
        binance_bid: i128,
        bybit_ask: i128,
        bybit_bid: i128,
        bitget_ask: i128,
        bitget_bid: i128,
        timestamp: u64,
        now: u64,
        ledger: u32,
    ) -> (r: Result<(), OracleError>)
        requires
            old(self).wf(),
        ensures
            final(self).wf(),
            old(self)@.may_update(operator) ==> r is Ok && final(self)@ == old(self)@.with_batch(
                (binance_ask, binance_bid, bybit_ask, bybit_bid, bitget_ask, bitget_bid),
                timestamp,
                ledger,
            ).reaggregated(now, ledger),
            !old(self)@.may_update(operator) ==> r == Err::<(), OracleError>(
                OracleError::NotAnOperator,
            ) && final(self)@ == old(self)@,
    {
        match self.require_operator(operator) {
            Ok(()) => {},
            Err(e) => return Err(e),
        }
        if binance_ask > 0 && binance_bid > 0 && binance_ask <= MAX_PRICE && binance_bid <= MAX_PRICE {
            self.store(
                ExchangePrice {
                    exchange: Exchange::Binance,
                    ask: binance_ask,
                    bid: binance_bid,
                    timestamp,
                    ledger,
                },
            );
        }
        if bybit_ask > 0 && bybit_bid > 0 && bybit_ask <= MAX_PRICE && bybit_bid <= MAX_PRICE {
            self.store(
                ExchangePrice {
                    exchange: Exchange::Bybit,
                    ask: bybit_ask,
                    bid: bybit_bid,
                    timestamp,
                    ledger,
                },
            );
        }
        if bitget_ask > 0 && bitget_bid > 0 && bitget_ask <= MAX_PRICE && bitget_bid <= MAX_PRICE {
            self.store(
                ExchangePrice {
                    exchange: Exchange::Bitget,
                    ask: bitget_ask,
                    bid: bitget_bid,
                    timestamp,
                    ledger,
                },
            );
        }
        self.reaggregate(now, ledger);
        Ok(())
    }

    /// The current aggregate at unix time `now`.
    pub fn get_price(&self, now: u64) -> (r: Result<AggregatedPrice, OracleError>)
        ensures
            r == self@.price_at(now),
    {
        match self.aggregated {
            None => Err(OracleError::InsufficientSources),
            Some(p) => if now >= p.timestamp && now - p.timestamp > MAX_PRICE_AGE_SECS {
                Err(OracleError::PriceStale)
            } else {
                Ok(p)
            },
        }
    }

    /// The latest quote of `exchange`.
    pub fn get_exchange_price(&self, exchange: Exchange) -> (r: Result<ExchangePrice, OracleError>)
        ensures
            match self@.slot(exchange) {
                Some(p) => r == Ok::<ExchangePrice, OracleError>(p),
                None => r == Err::<ExchangePrice, OracleError>(OracleError::InsufficientSources),
            },
    {
        let slot = match exchange {
            Exchange::Binance => self.binance,
            Exchange::Bybit => self.bybit,
            Exchange::Bitget => self.bitget,
        };
        match slot {
            Some(p) => Ok(p),
            None => Err(OracleError::InsufficientSources),
        }
    }

    /// The mid price at unix time `now`.
    pub fn get_mid_price(&self, now: u64) -> (r: Result<i128, OracleError>)
        ensures
            match self@.price_at(now) {
                Ok(p) => r == Ok::<i128, OracleError>(p.mid),
                Err(e) => r == Err::<i128, OracleError>(e),
            },
    {
        match self.get_price(now) {
            Ok(p) => Ok(p.mid),
            Err(e) => Err(e),
        }
    }

    /// The ask price at unix time `now`.
    pub fn get_ask_price(&self, now: u64) -> (r: Result<i128, OracleError>)
        ensures
            match self@.price_at(now) {
                Ok(p) => r == Ok::<i128, OracleError>(p.ask),
                Err(e) => r == Err::<i128, OracleError>(e),
            },
    {
        match self.get_price(now) {
            Ok(p) => Ok(p.ask),
            Err(e) => Err(e),
        }
    }

    /// The bid price at unix time `now`.
    pub fn get_bid_price(&self, now: u64) -> (r: Result<i128, OracleError>)
        ensures
            match self@.price_at(now) {
                Ok(p) => r == Ok::<i128, OracleError>(p.bid),
                Err(e) => r == Err::<i128, OracleError>(e),
            },
    {
        match self.get_price(now) {
            Ok(p) => Ok(p.bid),
            Err(e) => Err(e),
        }
    }

    /// Whether a fresh aggregate is available at unix time `now`.
    pub fn is_price_valid(&self, now: u64) -> (r: bool)
        ensures
            r == self@.price_at(now) is Ok,
    {
        self.get_price(now).is_ok()
    }

    /// How many exchanges the fresh aggregate was computed from; zero when
    /// there is none.
    pub fn get_num_sources(&self, now: u64) -> (r: u32)
        ensures
            match self@.price_at(now) {
                Ok(p) => r == p.num_sources,
                Err(_) => r == 0,
            },
    {
        match self.get_price(now) {
            Ok(p) => p.num_sources,
            Err(_) => 0,
        }
    }

    /// Converts `usdt_amount` quote units to base units at the bid price.
    pub fn usdt_to_bobt(&self, usdt_amount: i128, now: u64) -> (r: Result<i128, OracleError>)
        requires
            self.wf(),
            self@.price_at(now) matches Ok(p) ==> i128::MIN <= usdt_amount * p.bid <= i128::MAX,
        ensures
            match self@.price_at(now) {
                Ok(p) => r == Ok::<i128, OracleError>(
                    quote_to_base(usdt_amount as int, p.bid as int) as i128,
                ),
                Err(e) => r == Err::<i128, OracleError>(e),
            },
    {
        match self.get_price(now) {
            Ok(p) => {
                Ok((usdt_amount * p.bid) / ONE_UNIT)
            },
            Err(e) => Err(e),
        }
    }

    /// Converts `bobt_amount` base units to quote units at the ask price.
    pub fn bobt_to_usdt(&self, bobt_amount: i128, now: u64) -> (r: Result<i128, OracleError>)
        requires
            self.wf(),
            i128::MIN <= bobt_amount * ONE_UNIT <= i128::MAX,
        ensures
            match self@.price_at(now) {
                Ok(p) => r == Ok::<i128, OracleError>(
                    base_to_quote(bobt_amount as int, p.ask as int) as i128,
                ),
                Err(e) => r == Err::<i128, OracleError>(e),
            },
    {
        match self.get_price(now) {
            Ok(p) => Ok((bobt_amount * ONE_UNIT) / p.ask),
            Err(e) => Err(e),
        }
    }

    /// Lists `new_operator` as an operator, on the admin's behalf.
    pub fn add_operator(&mut self, admin: Address, new_operator: Address) -> (r: Result<
        (),
        OracleError,
    >)
        requires
            old(self).wf(),
        ensures
            final(self).wf(),
            admin != old(self)@.admin ==> r == Err::<(), OracleError>(OracleError::Unauthorized)
                && final(self)@ == old(self)@,
            admin == old(self)@.admin && old(self)@.operators.contains(new_operator) ==> r == Err::<
                (),
                OracleError,
            >(OracleError::OperatorAlreadyExists) && final(self)@ == old(self)@,
            admin == old(self)@.admin && !old(self)@.operators.contains(new_operator) ==> r is Ok
                && final(self)@ == (OracleState {
                operators: old(self)@.operators.push(new_operator),
                ..old(self)@
            }),
    {
        if admin != self.admin {
            return Err(OracleError::Unauthorized);
        }
        if self.is_operator(new_operator) {
            return Err(OracleError::OperatorAlreadyExists);
        }
        self.operators.push(new_operator);
        Ok(())
    }

    /// Delists `operator`, on the admin's behalf.
    pub fn remove_operator(&mut self, admin: Address, operator: Address) -> (r: Result<
        (),
        OracleError,
    >)
        requires
            old(self).wf(),
        ensures
            final(self).wf(),
            admin != old(self)@.admin ==> r == Err::<(), OracleError>(OracleError::Unauthorized)
                && final(self)@ == old(self)@,
            admin == old(self)@.admin && !old(self)@.operators.contains(operator) ==> r == Err::<
                (),
                OracleError,
            >(OracleError::OperatorNotFound) && final(self)@ == old(self)@,
            admin == old(self)@.admin && old(self)@.operators.contains(operator) ==> r is Ok
                && final(self)@ == (OracleState {
                operators: old(self)@.operators.filter(|o: Address| o != operator),
                ..old(self)@
            }),
    {
        if admin != self.admin {
            return Err(OracleError::Unauthorized);
        }
        let ghost keep = |o: Address| o != operator;
        let mut kept: Vec<Address> = Vec::new();
        let mut found = false;
        let mut i: usize = 0;
        while i < self.operators.len()
            invariant
                i <= self.operators@.len(),
                keep == (|o: Address| o != operator),
                kept@ == self.operators@.subrange(0, i as int).filter(keep),
                found <==> self.operators@.subrange(0, i as int).contains(operator),
            decreases self.operators.len() - i,
        {
            let op = self.operators[i];
            let ghost prev = self.operators@.subrange(0, i as int);
            let ghost next = self.operators@.subrange(0, i as int + 1);
            if op != operator {
                kept.push(op);
            } else {
                found = true;
            }
            proof {
                assert(next.drop_last() =~= prev);
                assert(next.last() == op);
                reveal_with_fuel(Seq::filter, 1);
                assert(kept@ =~= next.filter(keep));
                if next.contains(operator) && !prev.contains(operator) {
                    let j = choose|j: int| 0 <= j < next.len() && next[j] == operator;
                    if j < i {
                        assert(prev[j] == operator);
                    }
                }
                if prev.contains(operator) {
                    let j = choose|j: int| 0 <= j < i && prev[j] == operator;
                    assert(next[j] == operator);
                }
                if op == operator {
                    assert(next[i as int] == operator);
                }
            }
            i += 1;
        }
        assert(self.operators@.subrange(0, self.operators@.len() as int) =~= self.operators@);
        if !found {
            return Err(OracleError::OperatorNotFound);
        }
        self.operators = kept;
        Ok(())
    }

    /// The listed operators.
    pub fn get_operators(&self) -> (r: &Vec<Address>)
        ensures
            r@ == self@.operators,
    {
        &self.operators
    }

    pub fn get_admin(&self) -> (r: Address)
        ensures
            r == self@.admin,
    {
        self.admin
    }
}

} // verus!
