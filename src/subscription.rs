//! Per-subscription state: the synchronisation machines of a depth
//! subscription, the trade stream holders, and the resolution of a
//! manager's configuration.
use vstd::prelude::*;
use crate::book::{Depth, depth_wf};
use crate::config::{
    ConfigError, DepthConfig, ExchangeType, Method, TickerConfig, spec_addresses, depth_config_from, depth_supported,
    spec_exchange, spec_symbol, supported, ticker_config_from, ticker_supported,
};
use crate::protocol::ProductClass;
use crate::sync::{DepthSync, LevelSync, Phase, exports};

verus! {

/// The book state of one depth subscription: the bootstrap machine for the
/// incremental stream and the replacement machine for the top-N stream.
pub struct BookState {
    pub symbol: String,
    pub sync: DepthSync,
    pub level: LevelSync,
}

impl BookState {
    pub open spec fn wf(&self) -> bool {
        self.sync.wf() && self.level.wf()
    }

    pub fn new(class: ProductClass) -> (r: BookState)
        ensures
            r.wf(),
            r.symbol@.len() == 0,
            r.sync.class == class,
            r.sync.phase == Phase::Buffering,
            r.sync.last_emitted.is_none(),
            r.sync.book.bids.map() == Map::<u64, u64>::empty(),
            r.sync.book.asks.map() == Map::<u64, u64>::empty(),
            r.sync.book.sequence_id == 0,
            !r.level.ready,
            r.level.last_emitted.is_none(),
            r.level.book.bids.map() == Map::<u64, u64>::empty(),
            r.level.book.asks.map() == Map::<u64, u64>::empty(),
            r.level.book.sequence_id == 0,
    {
        BookState { symbol: String::new(), sync: DepthSync::new(class), level: LevelSync::new() }
    }

    pub fn set_symbol(&mut self, symbol: String)
        ensures
            final(self).symbol@ == symbol@,
            final(self).sync == old(self).sync,
            final(self).level == old(self).level,
    {
        self.symbol = symbol;
    }

    /// The latest depth of whichever stream is Ready, the incremental one
    /// first; `None` while neither is.
    pub fn snapshot(&self) -> (r: Option<Depth>)
        requires
            self.wf(),
        ensures
            r.is_some() == (self.sync.phase == Phase::Ready || self.level.ready),
            r matches Some(d) ==> depth_wf(d) && (if self.sync.phase == Phase::Ready {
                exports(d, self.sync.book)
            } else {
                exports(d, self.level.book)
            }),
    {
        if self.sync.is_ready() {
            self.sync.latest_depth()
        } else {
            self.level.latest_depth()
        }
    }
}

/// Depth subscription state of a Binance spot symbol.
pub struct BinanceOrderBookSpot {
    pub state: BookState,
}

impl BinanceOrderBookSpot {
    pub fn new() -> (r: Self)
        ensures
            r.state.wf(),
            r.state.sync.class == ProductClass::Spot,
            r.state.sync.phase == Phase::Buffering,
            r.state.sync.last_emitted.is_none(),
            r.state.sync.book.bids.map() == Map::<u64, u64>::empty(),
            r.state.sync.book.asks.map() == Map::<u64, u64>::empty(),
            r.state.sync.book.sequence_id == 0,
            !r.state.level.ready,
            r.state.level.last_emitted.is_none(),
            r.state.level.book.bids.map() == Map::<u64, u64>::empty(),
            r.state.level.book.asks.map() == Map::<u64, u64>::empty(),
            r.state.level.book.sequence_id == 0,
    {
        BinanceOrderBookSpot { state: BookState::new(ProductClass::Spot) }
    }

    pub fn set_symbol(&mut self, symbol: String)
        ensures
            final(self).state.symbol@ == symbol@,
            final(self).state.sync == old(self).state.sync,
            final(self).state.level == old(self).state.level,
    {
        self.state.set_symbol(symbol);
    }
}

/// Depth subscription state of a Binance linear (USDT) perpetual.
pub struct BinanceSpotOrderBookPerpetualUSDT {
    pub state: BookState,
}

impl BinanceSpotOrderBookPerpetualUSDT {
    pub fn new() -> (r: Self)
        ensures
            r.state.wf(),
            r.state.sync.class == ProductClass::LinearPerp,
            r.state.sync.phase == Phase::Buffering,
            r.state.sync.last_emitted.is_none(),
            r.state.sync.book.bids.map() == Map::<u64, u64>::empty(),
            r.state.sync.book.asks.map() == Map::<u64, u64>::empty(),
            r.state.sync.book.sequence_id == 0,
            !r.state.level.ready,
            r.state.level.last_emitted.is_none(),
            r.state.level.book.bids.map() == Map::<u64, u64>::empty(),
            r.state.level.book.asks.map() == Map::<u64, u64>::empty(),
            r.state.level.book.sequence_id == 0,
    {
        BinanceSpotOrderBookPerpetualUSDT { state: BookState::new(ProductClass::LinearPerp) }
    }

    pub fn set_symbol(&mut self, symbol: String)
        ensures
            final(self).state.symbol@ == symbol@,
            final(self).state.sync == old(self).state.sync,
            final(self).state.level == old(self).state.level,
    {
        self.state.set_symbol(symbol);
    }
}

/// Depth subscription state of a Binance inverse (coin) perpetual.
pub struct BinanceSpotOrderBookPerpetualCoin {
    pub state: BookState,
}

impl BinanceSpotOrderBookPerpetualCoin {
    pub fn new() -> (r: Self)
        ensures
            r.state.wf(),
            r.state.sync.class == ProductClass::InversePerp,
            r.state.sync.phase == Phase::Buffering,
            r.state.sync.last_emitted.is_none(),
            r.state.sync.book.bids.map() == Map::<u64, u64>::empty(),
            r.state.sync.book.asks.map() == Map::<u64, u64>::empty(),
            r.state.sync.book.sequence_id == 0,
            !r.state.level.ready,
            r.state.level.last_emitted.is_none(),
            r.state.level.book.bids.map() == Map::<u64, u64>::empty(),
            r.state.level.book.asks.map() == Map::<u64, u64>::empty(),
            r.state.level.book.sequence_id == 0,
    {
        BinanceSpotOrderBookPerpetualCoin { state: BookState::new(ProductClass::InversePerp) }
    }

    pub fn set_symbol(&mut self, symbol: String)
        ensures
            final(self).state.symbol@ == symbol@,
            final(self).state.sync == old(self).state.sync,
            final(self).state.level == old(self).state.level,
    {
        self.state.set_symbol(symbol);
    }
}

/// Depth subscription state on Crypto.com, which publishes top-N books only.
pub struct CryptoDepth {
    pub level: LevelSync,
}

impl CryptoDepth {
    pub fn new() -> (r: Self)
        ensures
            r.level.wf(),
            !r.level.ready,
            r.level.last_emitted.is_none(),
            r.level.book.bids.map() == Map::<u64, u64>::empty(),
            r.level.book.asks.map() == Map::<u64, u64>::empty(),
            r.level.book.sequence_id == 0,
    {
        CryptoDepth { level: LevelSync::new() }
    }

    pub fn snapshot(&self) -> (r: Option<Depth>)
        requires
            self.level.wf(),
        ensures
            r.is_some() == self.level.ready,
            r matches Some(d) ==> depth_wf(d) && exports(d, self.level.book),
    {
        self.level.latest_depth()
    }
}

/// Trade stream state on Binance: whether the stream is connected.
#[derive(Clone, Copy, Debug, PartialEq, Eq, Structural)]
pub struct BinanceTicker {
    pub connected: bool,
}

impl BinanceTicker {
    pub fn new() -> (r: Self)
        ensures
            !r.connected,
    {
        BinanceTicker { connected: false }
    }
}

/// Trade stream state on Crypto.com: whether the stream is connected.
#[derive(Clone, Copy, Debug, PartialEq, Eq, Structural)]
pub struct CryptoTicker {
    pub connected: bool,
}

impl CryptoTicker {
    pub fn new() -> (r: Self)
        ensures
            !r.connected,
    {
        CryptoTicker { connected: false }
    }
}

#[derive(Clone, Copy, Debug, PartialEq, Eq, Structural)]
pub enum TickerConnection {
    Binance(BinanceTicker),
    Crypto(CryptoTicker),
}

/// The configuration of a depth manager: supported exchange and symbol, and
/// a product class the exchange offers.
pub fn depth_manager_config(exchange: &str, symbol: &str, limit: Option<i32>) -> (r: Result<DepthConfig, ConfigError>)
    ensures
        r is Ok <==> supported(exchange@, symbol@, limit) && depth_supported(
            spec_exchange(exchange@).unwrap(),
            spec_symbol(spec_exchange(exchange@).unwrap(), symbol@, limit).unwrap().0,
        ),
        r matches Ok(c) ==> spec_exchange(exchange@) == Some(c.exchange_type) && spec_symbol(
            c.exchange_type,
            symbol@,
            limit,
        ) == Some(c.symbol_type@),
{
    match depth_config_from(exchange, symbol, limit) {
        Ok(c) => {
            if c.is_correct() {
                Ok(c)
            } else {
                Err(ConfigError::UnsupportedCombination)
            }
        },
        Err(e) => Err(e),
    }
}

/// The configuration of a trade manager, as for depth.
pub fn ticker_manager_config(exchange: &str, symbol: &str) -> (r: Result<TickerConfig, ConfigError>)
    ensures
        r is Ok <==> supported(exchange@, symbol@, None) && ticker_supported(
            spec_exchange(exchange@).unwrap(),
            spec_symbol(spec_exchange(exchange@).unwrap(), symbol@, None).unwrap().0,
        ),
        r matches Ok(c) ==> spec_exchange(exchange@) == Some(c.exchange_type) && spec_symbol(
            c.exchange_type,
            symbol@,
            None,
        ) == Some(c.symbol_type@) && spec_addresses(c.exchange_type, c.symbol_type@, None, Method::Ticker).2
            == Some(c.ticker_url@),
{
    match ticker_config_from(exchange, symbol, None) {
        Ok(c) => {
            if c.is_correct() {
                Ok(c)
            } else {
                Err(ConfigError::UnsupportedCombination)
            }
        },
        Err(e) => Err(e),
    }
}

/// A trade subscription: its configuration and stream state.
pub struct TickerManager {
    pub config: TickerConfig,
    pub connection: TickerConnection,
}

impl TickerManager {
    /// The manager of a supported exchange and spot (or, on Crypto.com,
    /// linear perpetual) symbol.
    pub fn new(exchange: &str, symbol: &str) -> (r: Self)
        requires
            supported(exchange@, symbol@, None),
            ticker_supported(
                spec_exchange(exchange@).unwrap(),
                spec_symbol(spec_exchange(exchange@).unwrap(), symbol@, None).unwrap().0,
            ),
        ensures
            spec_exchange(exchange@) == Some(r.config.exchange_type),
            spec_symbol(r.config.exchange_type, symbol@, None) == Some(r.config.symbol_type@),
            spec_addresses(r.config.exchange_type, r.config.symbol_type@, None, Method::Ticker).2 == Some(
                r.config.ticker_url@,
            ),
            r.connection == (match r.config.exchange_type {
                ExchangeType::Binance => TickerConnection::Binance(BinanceTicker { connected: false }),
                ExchangeType::Crypto => TickerConnection::Crypto(CryptoTicker { connected: false }),
            }),
    {
        let config = ticker_manager_config(exchange, symbol).unwrap();
        let connection = match config.exchange_type {
            ExchangeType::Binance => TickerConnection::Binance(BinanceTicker::new()),
            ExchangeType::Crypto => TickerConnection::Crypto(CryptoTicker::new()),
        };
        TickerManager { config, connection }
    }
}

} // verus!
