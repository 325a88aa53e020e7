use snapshot::decimal::{parse_digits, parse_fixed};
use snapshot::frames::{
    book_channel, classify_frame, heartbeat_respond, merge_book_entries, subscribe_frame,
    subscribe_message, trade_channel, BookEntry, FrameKind,
};
use snapshot::trade::{binance_ticks, crypto_side, crypto_ticks, parse_quote, parse_quotes, TradeRow};
use snapshot::{OrderDirection, Quote};

#[test]
fn fixed_point_values() {
    assert_eq!(parse_fixed("16850.12"), Some(1_685_012_000_000));
    assert_eq!(parse_fixed("0.00100000"), Some(100_000));
    assert_eq!(parse_fixed("7"), Some(700_000_000));
    assert_eq!(parse_fixed("3."), Some(300_000_000));
    assert_eq!(parse_fixed("0.12345678"), Some(12_345_678));
    assert_eq!(parse_fixed("184467440737.09551615"), Some(u64::MAX));
}

#[test]
fn fixed_point_rejects() {
    assert_eq!(parse_fixed(""), None);
    assert_eq!(parse_fixed(".5"), None);
    assert_eq!(parse_fixed("1.123456789"), None);
    assert_eq!(parse_fixed("1.2.3"), None);
    assert_eq!(parse_fixed("-1"), None);
    assert_eq!(parse_fixed("NaN"), None);
    assert_eq!(parse_fixed("184467440737.09551616"), None);
    assert_eq!(parse_fixed("99999999999999999999999"), None);
}

#[test]
fn digit_ids() {
    assert_eq!(parse_digits("0"), Some(0));
    assert_eq!(parse_digits("2205003004"), Some(2_205_003_004));
    assert_eq!(parse_digits("18446744073709551615"), Some(u64::MAX));
    assert_eq!(parse_digits("18446744073709551616"), None);
    assert_eq!(parse_digits(""), None);
    assert_eq!(parse_digits("12a"), None);
}

#[test]
fn quotes_from_rows() {
    assert_eq!(parse_quote("101.5", "2"), Some(Quote { price: 10_150_000_000, amount: 200_000_000 }));
    assert_eq!(parse_quote("101.5", "x"), None);
    let rows = vec![
        (String::from("1.5"), String::from("0.25")),
        (String::from("2"), String::from("0")),
    ];
    assert_eq!(
        parse_quotes(&rows),
        Some(vec![
            Quote { price: 150_000_000, amount: 25_000_000 },
            Quote { price: 200_000_000, amount: 0 },
        ])
    );
    let bad = vec![(String::from("1.5"), String::from("oops"))];
    assert_eq!(parse_quotes(&bad), None);
}

fn row(side: &str, price: &str, qty: &str, t: i64, id: &str) -> TradeRow {
    TradeRow {
        side: side.to_string(),
        price: price.to_string(),
        quantity: qty.to_string(),
        trade_time: t,
        trade_id: id.to_string(),
    }
}

#[test]
fn crypto_trade_batch() {
    let rows = vec![
        row("BUY", "16850.5", "0.01", 100, "11"),
        row("SELL", "16851", "0.2", 101, "12"),
        row("BUY", "16849.75", "1", 102, "13"),
    ];
    let ticks = crypto_ticks(&rows, 500).unwrap();
    assert_eq!(ticks.len(), 3);
    assert_eq!(ticks[0].price, 1_685_050_000_000);
    assert_eq!(ticks[0].amount, 1_000_000);
    assert_eq!(ticks[0].direction, OrderDirection::Buy);
    assert_eq!(ticks[1].direction, OrderDirection::Sell);
    assert_eq!(ticks[1].price, 1_685_100_000_000);
    assert_eq!(ticks[2].amount, 100_000_000);
    assert_eq!(ticks.iter().map(|t| t.id).collect::<Vec<_>>(), vec![11, 12, 13]);
    assert_eq!(ticks.iter().map(|t| t.ts).collect::<Vec<_>>(), vec![100, 101, 102]);
    assert!(ticks.iter().all(|t| t.lts == 500));
}

#[test]
fn crypto_trade_batch_skips_bad_rows() {
    let rows = vec![row("HOLD", "1", "1", 1, "1"), row("SELL", "2", "1", 2, "2")];
    let ticks = crypto_ticks(&rows, 3).unwrap();
    assert_eq!(ticks.len(), 1);
    assert_eq!(ticks[0].id, 2);
    let rows = vec![row("BUY", "bad", "1", 1, "1")];
    assert!(crypto_ticks(&rows, 3).is_none());
    assert!(crypto_ticks(&Vec::new(), 3).is_none());
}

#[test]
fn sides() {
    assert_eq!(crypto_side("BUY"), Some(OrderDirection::Buy));
    assert_eq!(crypto_side("SELL"), Some(OrderDirection::Sell));
    assert_eq!(crypto_side("buy"), None);
}

#[test]
fn binance_trade_message() {
    let ticks = binance_ticks("0.0015", "12.5", 77, 9, true, 80).unwrap();
    assert_eq!(ticks.len(), 1);
    assert_eq!(ticks[0].price, 150_000);
    assert_eq!(ticks[0].amount, 1_250_000_000);
    assert_eq!(ticks[0].direction, OrderDirection::Sell);
    assert_eq!(ticks[0].id, 9);
    assert_eq!(ticks[0].ts, 77);
    assert_eq!(ticks[0].lts, 80);
    let ticks = binance_ticks("1", "1", 1, 1, false, 1).unwrap();
    assert_eq!(ticks[0].direction, OrderDirection::Buy);
    assert!(binance_ticks("x", "1", 1, 1, false, 1).is_none());
}

#[test]
fn heartbeat_reply() {
    assert_eq!(classify_frame("public/heartbeat", 42), FrameKind::Heartbeat);
    assert_eq!(heartbeat_respond(42), "{\"id\":42,\"method\":\"public/respond-heartbeat\"}");
    assert_eq!(heartbeat_respond(-7), "{\"id\":-7,\"method\":\"public/respond-heartbeat\"}");
}

#[test]
fn frame_kinds() {
    assert_eq!(classify_frame("subscribe", 1), FrameKind::SubscribeAck);
    assert_eq!(classify_frame("subscribe", -1), FrameKind::Data);
    assert_eq!(classify_frame("subscribe", 5), FrameKind::Unknown);
    assert_eq!(classify_frame("public/auth", 1), FrameKind::Unknown);
}

#[test]
fn subscribe_frames() {
    let channel = book_channel("BTC_USDT.50");
    assert_eq!(channel, "book.BTC_USDT.50");
    assert_eq!(
        subscribe_message(channel),
        "{\"id\":1,\"method\":\"subscribe\",\"params\":{\"channels\":[\"book.BTC_USDT.50\"]}}"
    );
    assert_eq!(trade_channel("BTCUSD-PERP"), "trade.BTCUSD-PERP");
    assert_eq!(
        subscribe_message(String::from("a\"b\\c\n\u{1}")),
        "{\"id\":1,\"method\":\"subscribe\",\"params\":{\"channels\":[\"a\\\"b\\\\c\\n\\u0001\"]}}"
    );
}

#[test]
fn heartbeat_extreme_ids() {
    assert_eq!(
        heartbeat_respond(i64::MIN),
        "{\"id\":-9223372036854775808,\"method\":\"public/respond-heartbeat\"}"
    );
    assert_eq!(heartbeat_respond(0), "{\"id\":0,\"method\":\"public/respond-heartbeat\"}");
}

#[test]
fn subscribe_frame_wraps_quoted_channel() {
    assert_eq!(
        subscribe_frame("\"trade.X\""),
        "{\"id\":1,\"method\":\"subscribe\",\"params\":{\"channels\":[\"trade.X\"]}}"
    );
}

fn entry(t: i64, u: i64, bids: Vec<Quote>, asks: Vec<Quote>) -> BookEntry {
    BookEntry { publish_time: t, update_id: u, bids, asks }
}

#[test]
fn book_frame_entries_merge() {
    let q = |p: u64, a: u64| Quote { price: p, amount: a };
    let entries = vec![
        entry(100, 7, vec![q(10, 1)], vec![q(20, 1)]),
        entry(103, 9, vec![q(9, 2)], vec![q(21, 3), q(22, 1)]),
    ];
    let l = merge_book_entries(&entries).unwrap();
    assert_eq!(l.last_update_id, 9);
    assert_eq!(l.event_time, 101);
    assert_eq!(l.bids, vec![q(10, 1), q(9, 2)]);
    assert_eq!(l.asks, vec![q(20, 1), q(21, 3), q(22, 1)]);
    let l = merge_book_entries(&vec![entry(-3, 1, vec![], vec![]), entry(-4, 2, vec![], vec![])]).unwrap();
    assert_eq!(l.event_time, -3);
    assert!(merge_book_entries(&Vec::new()).is_none());
}
