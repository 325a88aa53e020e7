use snapshot::config::{
    config_from, depth_config_from, parse_exchange, set_addr_for_binance, set_addr_for_crypto,
    validate_symbol_binance, validate_symbol_crypto, ConfigError, DepthType, Method, SymbolType,
};
use snapshot::ladder::Ladder;
use snapshot::protocol::{ProductClass, SeqHeader};
use snapshot::subscription::{
    depth_manager_config, ticker_manager_config, BinanceSpotOrderBookPerpetualCoin, TickerManager,
};
use snapshot::{ExchangeType, Quote};

fn h(first: i64, last: i64, prev: i64) -> SeqHeader {
    SeqHeader { first_update_id: first, last_update_id: last, prev_last_update_id: prev }
}

#[test]
fn exactly_one_relation_holds() {
    for class in [ProductClass::Spot, ProductClass::LinearPerp, ProductClass::InversePerp] {
        for s in 90..130 {
            let e = h(100, 120, 99);
            let n = [class.behind(&e, s), class.matches(&e, s), class.ahead(&e, s)]
                .iter()
                .filter(|b| **b)
                .count();
            assert_eq!(n, 1);
        }
    }
    let e = h(111, 120, 110);
    assert!(ProductClass::Spot.matches(&e, 115));
    assert!(ProductClass::Spot.behind(&h(100, 110, 99), 115));
    assert!(ProductClass::Spot.ahead(&h(200, 210, 199), 150));
    assert!(ProductClass::InversePerp.behind(&h(100, 114, 99), 115));
    assert!(ProductClass::InversePerp.matches(&h(100, 115, 99), 115));
    assert!(ProductClass::InversePerp.ahead(&h(116, 120, 115), 115));
    assert!(!ProductClass::Spot.matches(&h(100, i64::MAX, 0), i64::MAX));
}

#[test]
fn continuing_event_is_current() {
    let e = h(121, 130, 120);
    assert!(ProductClass::Spot.continues(&e, 120));
    assert!(!ProductClass::Spot.behind(&e, 120));
    assert!(!ProductClass::Spot.ahead(&e, 120));
    let e = h(118, 130, 120);
    assert!(ProductClass::InversePerp.continues(&e, 120));
    assert!(!ProductClass::InversePerp.behind(&e, 120));
    assert!(!ProductClass::InversePerp.ahead(&e, 120));
    assert!(!ProductClass::LinearPerp.continues(&h(122, 130, 120), 120));
}

#[test]
fn ladder_keeps_order_and_sizes() {
    let mut l = Ladder::new();
    for (p, a) in [(5, 1), (3, 1), (9, 2), (3, 4), (7, 0), (9, 0), (1, 1)] {
        l.apply(Quote { price: p, amount: a });
    }
    assert_eq!(
        l.ascending_levels(),
        vec![Quote { price: 1, amount: 1 }, Quote { price: 3, amount: 4 }, Quote { price: 5, amount: 1 }]
    );
    assert_eq!(
        l.descending_levels(),
        vec![Quote { price: 5, amount: 1 }, Quote { price: 3, amount: 4 }, Quote { price: 1, amount: 1 }]
    );
    assert_eq!(l.len(), 3);
}

#[test]
fn binance_addresses() {
    let (rest, depth, level) =
        set_addr_for_binance(SymbolType::Spot(String::from("bnbbtc")), Some(1000), Method::Depth);
    assert_eq!(rest.unwrap(), "https://api.binance.com/api/v3/depth?symbol=BNBBTC&limit=1000");
    assert_eq!(depth.unwrap(), "wss://stream.binance.com:9443/ws/bnbbtc@depth@100ms");
    assert!(level.is_none());

    let (rest, depth, level) =
        set_addr_for_binance(SymbolType::ContractCoin(String::from("btcusd_221230")), None, Method::Depth);
    assert!(rest.is_none() && depth.is_none());
    assert_eq!(level.unwrap(), "wss://dstream.binance.com/stream?streams=btcusd_221230@depth20@100ms");

    let (rest, _, _) =
        set_addr_for_binance(SymbolType::ContractUSDT(String::from("btcusdt")), Some(500), Method::Depth);
    assert_eq!(rest.unwrap(), "https://fapi.binance.com/fapi/v1/depth?symbol=BTCUSDT&limit=500");

    let (_, _, trade) = set_addr_for_binance(SymbolType::Spot(String::from("bnbbtc")), None, Method::Ticker);
    assert_eq!(trade.unwrap(), "wss://stream.binance.com:9443/ws/bnbbtc@trade");

    let (a, b, c) = set_addr_for_crypto("BTC_USDT.50", None);
    assert!(a.is_none() && b.is_none());
    assert_eq!(c.unwrap(), "wss://stream.crypto.com/v2/market");
}

#[test]
fn symbol_forms() {
    assert_eq!(
        validate_symbol_binance("ETH_BTC_X").unwrap(),
        SymbolType::Spot(String::from("ethbtc_x"))
    );
    assert_eq!(validate_symbol_binance("BTC_SWAP"), Err(ConfigError::UnsupportedSymbol));
    assert_eq!(validate_symbol_binance("BTC_USTD_221230_ABC"), Err(ConfigError::UnsupportedSymbol));
    assert_eq!(validate_symbol_crypto("BTC_USTD_221230_ABC", None), Err(ConfigError::UnsupportedSymbol));
    assert_eq!(validate_symbol_binance("BTC"), Err(ConfigError::UnsupportedSymbol));
    assert_eq!(validate_symbol_crypto("ETH_BTC_SWAP", Some(5)).unwrap(), SymbolType::ContractUSDT(String::from("ETHBTC-PERP.5")));
    assert_eq!(validate_symbol_crypto("BTC_SWAP", None), Err(ConfigError::UnsupportedSymbol));
    assert_eq!(
        validate_symbol_crypto("BTC_USDT", Some(i32::MIN)).unwrap(),
        SymbolType::Spot(String::from("BTC_USDT.-2147483648"))
    );
}

#[test]
fn configuration_errors() {
    assert_eq!(parse_exchange("binanc"), Err(ConfigError::UnsupportedExchange));
    assert_eq!(parse_exchange("crypto"), Ok(ExchangeType::Crypto));
    assert_eq!(config_from("binanc", "BTC_USDT", None).unwrap_err(), ConfigError::UnsupportedExchange);
    assert_eq!(config_from("binance", "BTC_USTD_221230SWAP", None).unwrap_err(), ConfigError::UnsupportedSymbol);
    assert_eq!(
        depth_manager_config("crypto", "BTC_USDT_221230_SWAP", None).unwrap_err(),
        ConfigError::UnsupportedSymbol
    );
    assert_eq!(
        ticker_manager_config("binance", "BTC_USDT_SWAP").unwrap_err(),
        ConfigError::UnsupportedCombination
    );
    let c = config_from("binance", "BTC_USDT", None).unwrap();
    assert_eq!(c.get_channel(), Err(ConfigError::UnsupportedChannel));
    let c = config_from("crypto", "BTC_USDT_SWAP", None).unwrap();
    assert_eq!(c.get_channel(), Err(ConfigError::UnsupportedChannel));
    let c = depth_config_from("crypto", "BTC_USDT_SWAP", None).unwrap();
    assert_eq!(c.get_channel().unwrap(), "BTCUSD-PERP.50");
}

#[test]
fn depth_modes() {
    let c = depth_config_from("binance", "BTC_USDT_SWAP", Some(1000)).unwrap();
    assert!(c.is_depth_snapshot());
    let (rest, depth) = c.get_depth_snapshot_addresses();
    assert_eq!(rest, "https://fapi.binance.com/fapi/v1/depth?symbol=BTCUSDT&limit=1000");
    assert_eq!(depth, "wss://fstream.binance.com/stream?streams=btcusdt@depth@100ms");
    let c = depth_config_from("binance", "BTC_USDT", None).unwrap();
    assert!(c.is_depth());
    assert_eq!(c.get_depth_addresses(), "wss://stream.binance.com:9443/ws/btcusdt@depth20@100ms");
    assert!(DepthType::new(None, None, None).is_none());
    assert!(DepthType::new(Some(String::from("a")), None, Some(String::from("b"))).is_none());
}

#[test]
fn managers() {
    let m = TickerManager::new("crypto", "BTC_USDT_SWAP");
    assert!(m.config.is_crypto());
    assert!(m.config.is_correct());
    assert_eq!(m.config.ticker_url, "wss://stream.crypto.com/v2/market");
    let m = TickerManager::new("binance", "BNB_BTC");
    assert_eq!(m.config.ticker_url, "wss://stream.binance.com:9443/ws/bnbbtc@trade");
    let mut b = BinanceSpotOrderBookPerpetualCoin::new();
    b.set_symbol(String::from("btcusd_221230"));
    assert_eq!(b.state.symbol, "btcusd_221230");
    assert!(b.state.snapshot().is_none());
}
