//! Trade ticks and the decoding of venue rows (prices, sizes, sides) into
//! fixed-point values.
use vstd::prelude::*;
use crate::decimal::{all_digits, digits_value, fits_u64, parse_digits, parse_fixed, spec_fixed};
use crate::ladder::Quote;
use crate::text::text_eq;

verus! {

#[derive(Clone, Copy, Debug, PartialEq, Eq, Structural)]
pub enum OrderDirection {
    Buy,
    Sell,
}

/// One executed trade. Price and size are fixed-point (10^-8 units).
#[derive(Clone, Copy, Debug, PartialEq, Eq, Structural)]
pub struct Ticker {
    /// Local receive time.
    pub lts: i64,
    /// Venue trade time.
    pub ts: i64,
    pub price: u64,
    pub amount: u64,
    pub direction: OrderDirection,
    pub id: u64,
}

/// A trade row of a Crypto.com batch, as text fields.
#[derive(Clone, Debug)]
pub struct TradeRow {
    pub side: String,
    pub price: String,
    pub quantity: String,
    pub trade_time: i64,
    pub trade_id: String,
}

pub open spec fn spec_side(s: Seq<char>) -> Option<OrderDirection> {
    if s == "BUY"@ {
        Some(OrderDirection::Buy)
    } else if s == "SELL"@ {
        Some(OrderDirection::Sell)
    } else {
        None
    }
}

/// Reads a Crypto.com side: `"BUY"` or `"SELL"`.
pub fn crypto_side(side: &str) -> (r: Option<OrderDirection>)
    ensures
        r == spec_side(side@),
{
    if text_eq(side, "BUY") {
        Some(OrderDirection::Buy)
    } else if text_eq(side, "SELL") {
        Some(OrderDirection::Sell)
    } else {
        None
    }
}

pub open spec fn spec_id(s: Seq<char>) -> Option<u64> {
    if s.len() > 0 && all_digits(s) {
        fits_u64(Some(digits_value(s)))
    } else {
        None
    }
}

/// The tick of a Crypto.com trade row received at `now`, if every field
/// decodes.
pub open spec fn spec_crypto_tick(row: TradeRow, now: i64) -> Option<Ticker> {
    match (spec_side(row.side@), fits_u64(spec_fixed(row.price@)), fits_u64(spec_fixed(row.quantity@)), spec_id(row.trade_id@)) {
        (Some(direction), Some(price), Some(amount), Some(id)) => Some(
            Ticker { lts: now, ts: row.trade_time, price, amount, direction, id },
        ),
        _ => None,
    }
}

pub fn crypto_tick(row: &TradeRow, now: i64) -> (r: Option<Ticker>)
    ensures
        r == spec_crypto_tick(*row, now),
{
    let direction = crypto_side(row.side.as_str());
    let price = parse_fixed(row.price.as_str());
    let amount = parse_fixed(row.quantity.as_str());
    let id = parse_digits(row.trade_id.as_str());
    match (direction, price, amount, id) {
        (Some(direction), Some(price), Some(amount), Some(id)) => Some(
            Ticker { lts: now, ts: row.trade_time, price, amount, direction, id },
        ),
        _ => None,
    }
}

/// The ticks of the rows that decode, in input order.
pub open spec fn spec_crypto_ticks(rows: Seq<TradeRow>, now: i64) -> Seq<Ticker>
    decreases rows.len(),
{
    if rows.len() == 0 {
        Seq::empty()
    } else {
        let prev = spec_crypto_ticks(rows.drop_last(), now);
        match spec_crypto_tick(rows.last(), now) {
            Some(t) => prev.push(t),
            None => prev,
        }
    }
}

/// Decodes a Crypto.com trade batch: rows that do not decode are skipped;
/// `None` when none decodes.
pub fn crypto_ticks(rows: &Vec<TradeRow>, now: i64) -> (r: Option<Vec<Ticker>>)
    ensures
        spec_crypto_ticks(rows@, now).len() == 0 ==> r.is_none(),
        spec_crypto_ticks(rows@, now).len() > 0 ==> (r matches Some(v) && v@ == spec_crypto_ticks(
            rows@,
            now,
        )),
{
    let mut ticks: Vec<Ticker> = Vec::new();
    let mut i: usize = 0;
    while i < rows.len()
        invariant
            i <= rows@.len(),
            ticks@ == spec_crypto_ticks(rows@.subrange(0, i as int), now),
        decreases rows@.len() - i,
    {
        assert(rows@.subrange(0, i + 1).drop_last() =~= rows@.subrange(0, i as int));
        match crypto_tick(&rows[i], now) {
            Some(t) => ticks.push(t),
            None => {},
        }
        i = i + 1;
    }
    assert(rows@.subrange(0, rows@.len() as int) =~= rows@);
    if ticks.len() > 0 {
        Some(ticks)
    } else {
        None
    }
}

/// The tick of a Binance trade received at `now`: the buyer being the maker
/// marks a sell.
pub open spec fn spec_binance_tick(price: Seq<char>, amount: Seq<char>, trade_time: i64, trade_id: i64, buyer_is_maker: bool, now: i64) -> Option<Ticker> {
    match (fits_u64(spec_fixed(price)), fits_u64(spec_fixed(amount))) {
        (Some(p), Some(a)) => if trade_id >= 0 {
            Some(
                Ticker {
                    lts: now,
                    ts: trade_time,
                    price: p,
                    amount: a,
                    direction: if buyer_is_maker {
                        OrderDirection::Sell
                    } else {
                        OrderDirection::Buy
                    },
                    id: trade_id as u64,
                },
            )
        } else {
            None
        },
        _ => None,
    }
}

/// Decodes a Binance trade message into its one tick; `None` when a field
/// does not decode.
pub fn binance_ticks(price: &str, amount: &str, trade_time: i64, trade_id: i64, buyer_is_maker: bool, now: i64) -> (r: Option<Vec<Ticker>>)
    ensures
        spec_binance_tick(price@, amount@, trade_time, trade_id, buyer_is_maker, now) matches Some(t) ==> (r matches Some(v) && v@ == seq![t]),
        spec_binance_tick(price@, amount@, trade_time, trade_id, buyer_is_maker, now).is_none() ==> r.is_none(),
{
    let p = parse_fixed(price);
    let a = parse_fixed(amount);
    match (p, a) {
        (Some(p), Some(a)) => {
            if trade_id < 0 {
                return None;
            }
            let direction = if buyer_is_maker {
                OrderDirection::Sell
            } else {
                OrderDirection::Buy
            };
            let t = Ticker { lts: now, ts: trade_time, price: p, amount: a, direction, id: trade_id as u64 };
            let v = vec![t];
            assert(v@ =~= seq![t]);
            Some(v)
        },
        _ => None,
    }
}

/// A price level from its price and size texts.
pub open spec fn spec_quote(price: Seq<char>, amount: Seq<char>) -> Option<Quote> {
    match (fits_u64(spec_fixed(price)), fits_u64(spec_fixed(amount))) {
        (Some(p), Some(a)) => Some(Quote { price: p, amount: a }),
        _ => None,
    }
}

pub fn parse_quote(price: &str, amount: &str) -> (r: Option<Quote>)
    ensures
        r == spec_quote(price@, amount@),
{
    match (parse_fixed(price), parse_fixed(amount)) {
        (Some(p), Some(a)) => Some(Quote { price: p, amount: a }),
        _ => None,
    }
}

/// Decodes `[price, size]` text rows; `None` if any row does not decode.
pub fn parse_quotes(rows: &Vec<(String, String)>) -> (r: Option<Vec<Quote>>)
    ensures
        r.is_some() == (forall|i: int| 0 <= i < rows@.len() ==> spec_quote(#[trigger] rows@[i].0@, rows@[i].1@).is_some()),
        r matches Some(v) ==> v@.len() == rows@.len() && forall|i: int| 0 <= i < rows@.len() ==> spec_quote(#[trigger] rows@[i].0@, rows@[i].1@) == Some(v@[i]),
{
    let mut out: Vec<Quote> = Vec::new();
    let mut i: usize = 0;
    while i < rows.len()
        invariant
            i <= rows@.len(),
            out@.len() == i,
            forall|j: int| 0 <= j < i ==> spec_quote(#[trigger] rows@[j].0@, rows@[j].1@) == Some(out@[j]),
        decreases rows@.len() - i,
    {
        match parse_quote(rows[i].0.as_str(), rows[i].1.as_str()) {
            Some(q) => out.push(q),
            None => return None,
        }
        i = i + 1;
    }
    Some(out)
}

} // verus!
