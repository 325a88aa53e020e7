use snapshot::book::{Depth, DepthEvent, LevelEvent, RestSnapshot};
use snapshot::protocol::{ProductClass, SeqHeader};
use snapshot::sync::{Command, DepthSync, LevelSync, Phase, MAX_ATTEMPTS, MAX_BUFFER_EVENTS};
use snapshot::Quote;

fn q(price: u64, amount: u64) -> Quote {
    Quote { price, amount }
}

fn event(first: i64, last: i64, ts: i64, bids: Vec<Quote>, asks: Vec<Quote>) -> DepthEvent {
    DepthEvent {
        header: SeqHeader { first_update_id: first, last_update_id: last, prev_last_update_id: first - 1 },
        event_time: ts,
        transaction_time: ts,
        bids,
        asks,
    }
}

fn plain(first: i64, last: i64) -> DepthEvent {
    event(first, last, 1_000 + last, vec![], vec![])
}

fn rest(id: i64) -> RestSnapshot {
    RestSnapshot {
        last_update_id: id,
        event_time: 0,
        transaction_time: 0,
        bids: vec![q(99, 5), q(98, 7), q(97, 0)],
        asks: vec![q(101, 3), q(102, 4)],
    }
}

fn ids(v: &[Depth]) -> Vec<i64> {
    v.iter().map(|d| d.id).collect()
}

fn check_depth(d: &Depth) {
    for w in d.bids.windows(2) {
        assert!(w[0].price > w[1].price);
    }
    for w in d.asks.windows(2) {
        assert!(w[0].price < w[1].price);
    }
    assert!(d.bids.iter().chain(d.asks.iter()).all(|l| l.amount > 0));
    assert!(d.lts >= d.ts);
}

#[test]
fn clean_spot_bootstrap() {
    let mut s = DepthSync::new(ProductClass::Spot);
    for (f, l) in [(100, 110), (111, 120), (121, 130)] {
        let step = s.on_event(plain(f, l), 5_000);
        assert!(step.emitted.is_empty());
        assert_eq!(step.command, Command::Continue);
    }
    assert!(s.latest_depth().is_none());
    let step = s.on_snapshot(rest(115), 5_000);
    assert_eq!(step.command, Command::Continue);
    assert_eq!(ids(&step.emitted), vec![120, 130]);
    assert!(s.is_ready());
    let first = &step.emitted[0];
    assert_eq!(first.bids, vec![q(99, 5), q(98, 7)]);
    assert_eq!(first.asks, vec![q(101, 3), q(102, 4)]);
    let step = s.on_event(plain(131, 140), 5_000);
    assert_eq!(ids(&step.emitted), vec![140]);
    for d in &step.emitted {
        check_depth(d);
    }
    assert_eq!(s.latest_depth().unwrap().id, 140);
}

#[test]
fn snapshot_requested_when_buffer_full() {
    let mut s = DepthSync::new(ProductClass::Spot);
    for k in 0..MAX_BUFFER_EVENTS as i64 {
        let step = s.on_event(plain(10 * k + 1, 10 * k + 10), 1);
        if k + 1 == MAX_BUFFER_EVENTS as i64 {
            assert_eq!(step.command, Command::FetchSnapshot);
            assert_eq!(s.phase, Phase::Fetching);
        } else {
            assert_eq!(step.command, Command::Continue);
        }
    }
    assert_eq!(s.buffer.len(), MAX_BUFFER_EVENTS);
}

#[test]
fn stale_rest_restarts() {
    let mut s = DepthSync::new(ProductClass::Spot);
    s.on_event(plain(200, 210), 1);
    s.on_event(plain(211, 220), 1);
    let step = s.on_snapshot(rest(150), 1);
    assert_eq!(step.command, Command::Restart);
    assert!(step.emitted.is_empty());
    assert_eq!(s.attempts, 1);
    assert!(s.buffer.is_empty());
    assert!(s.latest_depth().is_none());

    s.on_event(plain(200, 210), 1);
    s.on_event(plain(211, 220), 1);
    let step = s.on_snapshot(rest(205), 1);
    assert_eq!(step.command, Command::Continue);
    assert!(s.is_ready());
    assert_eq!(ids(&step.emitted), vec![210, 220]);
    assert!(step.emitted.iter().all(|d| d.id > 205));
}

#[test]
fn steady_state_gap_resyncs() {
    let mut s = DepthSync::new(ProductClass::Spot);
    s.on_event(plain(490, 500), 1);
    let step = s.on_snapshot(rest(495), 1);
    assert_eq!(ids(&step.emitted), vec![500]);

    let step = s.on_event(plain(502, 510), 1);
    assert_eq!(step.command, Command::Restart);
    assert!(step.emitted.is_empty());
    assert!(!s.is_ready());
    assert!(s.latest_depth().is_none());

    let step = s.on_event(plain(519, 530), 1);
    assert!(step.emitted.is_empty());
    let step = s.on_snapshot(rest(520), 1);
    assert!(s.is_ready());
    assert_eq!(ids(&step.emitted), vec![530]);
}

#[test]
fn catch_up_after_buffer_behind() {
    let mut s = DepthSync::new(ProductClass::Spot);
    s.on_event(plain(1, 10), 1);
    let step = s.on_snapshot(rest(50), 1);
    assert_eq!(s.phase, Phase::CatchUp);
    assert!(step.emitted.is_empty());
    let step = s.on_event(plain(40, 50), 1);
    assert!(step.emitted.is_empty());
    let step = s.on_event(plain(51, 60), 1);
    assert_eq!(ids(&step.emitted), vec![60]);
}

#[test]
fn resync_below_watermark_is_dropped() {
    let mut s = DepthSync::new(ProductClass::Spot);
    s.on_event(plain(490, 500), 1);
    s.on_snapshot(rest(495), 1);
    s.on_event(plain(502, 510), 1);
    s.on_event(plain(300, 310), 1);
    let step = s.on_snapshot(rest(305), 1);
    assert!(s.is_ready());
    assert!(step.emitted.is_empty());
    let step = s.on_event(plain(311, 320), 1);
    assert!(step.emitted.is_empty());
}

#[test]
fn deltas_apply_and_remove_levels() {
    let mut s = DepthSync::new(ProductClass::Spot);
    s.on_event(event(1, 10, 700, vec![q(99, 0), q(100, 2)], vec![q(102, 9), q(103, 1)]), 900);
    let step = s.on_snapshot(rest(5), 800);
    let d = &step.emitted[0];
    assert_eq!(d.bids, vec![q(100, 2), q(98, 7)]);
    assert_eq!(d.asks, vec![q(101, 3), q(102, 9), q(103, 1)]);
    assert_eq!(d.ts, 700);
    assert_eq!(d.lts, 800);
    check_depth(d);
}

#[test]
fn local_time_not_before_venue_time() {
    let mut s = DepthSync::new(ProductClass::Spot);
    s.on_event(event(1, 10, 5_000, vec![], vec![]), 4_000);
    let step = s.on_snapshot(rest(5), 4_000);
    let d = &step.emitted[0];
    assert_eq!(d.ts, 5_000);
    assert_eq!(d.lts, 5_000);
}

#[test]
fn inverse_perp_continues_by_previous_id() {
    let mut s = DepthSync::new(ProductClass::InversePerp);
    let mut e = plain(95, 105);
    e.header.prev_last_update_id = 90;
    s.on_event(e, 1);
    let step = s.on_snapshot(rest(100), 1);
    assert_eq!(ids(&step.emitted), vec![105]);
    let mut e = plain(108, 120);
    e.header.prev_last_update_id = 105;
    let step = s.on_event(e, 1);
    assert_eq!(ids(&step.emitted), vec![120]);
    let mut e = plain(121, 130);
    e.header.prev_last_update_id = 119;
    let step = s.on_event(e, 1);
    assert_eq!(step.command, Command::Restart);
}

#[test]
fn repeated_failures_are_fatal() {
    let mut s = DepthSync::new(ProductClass::Spot);
    for k in 1..=MAX_ATTEMPTS {
        let step = s.on_snapshot_failed();
        if k < MAX_ATTEMPTS {
            assert_eq!(step.command, Command::Restart);
        } else {
            assert_eq!(step.command, Command::Fatal);
        }
    }
    assert_eq!(s.phase, Phase::Failed);
    let step = s.on_event(plain(1, 2), 1);
    assert_eq!(step.command, Command::Fatal);
    assert!(s.latest_depth().is_none());
}

#[test]
fn disconnect_clears_ready() {
    let mut s = DepthSync::new(ProductClass::Spot);
    s.on_event(plain(1, 10), 1);
    s.on_snapshot(rest(5), 1);
    assert!(s.is_ready());
    let step = s.on_disconnect();
    assert_eq!(step.command, Command::Restart);
    assert!(!s.is_ready());
    assert_eq!(s.attempts, 0);
}

fn level(id: i64, n: u64) -> LevelEvent {
    LevelEvent {
        last_update_id: id,
        event_time: 10,
        bids: (0..n).map(|k| q(1_000 - k, k + 1)).collect(),
        asks: (0..n).map(|k| q(2_000 + k, k + 1)).collect(),
    }
}

#[test]
fn level_event_stream() {
    let mut s = LevelSync::new();
    assert!(s.latest_depth().is_none());
    let d = s.on_level_event(&level(1000, 20), 20).unwrap();
    assert_eq!(d.id, 1000);
    assert_eq!(d.bids.len(), 20);
    assert_eq!(d.asks.len(), 20);
    check_depth(&d);
    let d = s.on_level_event(&level(1001, 20), 21).unwrap();
    assert_eq!(d.id, 1001);
    assert_eq!(d.bids.len(), 20);
    assert_eq!(d.asks.len(), 20);
    assert_eq!(s.latest_depth().unwrap().id, 1001);
    assert!(s.on_level_event(&level(999, 20), 22).is_none());
}
