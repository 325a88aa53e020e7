//! The order book of one subscription: a bid and an ask ladder, the id of
//! the last update applied, and the venue and local timestamps.
use vstd::prelude::*;
use crate::ladder::{Ladder, Quote, apply_rows, ascending, descending, positive};
use crate::protocol::SeqHeader;

verus! {

/// An incremental depth event: a sequence header and delta rows per side.
#[derive(Clone, Debug)]
pub struct DepthEvent {
    pub header: SeqHeader,
    /// Venue event time.
    pub event_time: i64,
    /// Venue transaction time.
    pub transaction_time: i64,
    pub bids: Vec<Quote>,
    pub asks: Vec<Quote>,
}

/// A REST bootstrap snapshot.
#[derive(Clone, Debug)]
pub struct RestSnapshot {
    pub last_update_id: i64,
    /// Venue event time, zero where the venue sends none.
    pub event_time: i64,
    /// Venue transaction time, zero where the venue sends none.
    pub transaction_time: i64,
    pub bids: Vec<Quote>,
    pub asks: Vec<Quote>,
}

/// A full top-N replacement of the book.
#[derive(Clone, Debug)]
pub struct LevelEvent {
    pub last_update_id: i64,
    pub event_time: i64,
    pub bids: Vec<Quote>,
    pub asks: Vec<Quote>,
}

/// A depth snapshot as emitted to consumers.
#[derive(Clone, Debug)]
pub struct Depth {
    /// Venue time of the last update.
    pub ts: i64,
    /// Local time at which the last update was applied.
    pub lts: i64,
    /// Id of the last update applied.
    pub id: i64,
    /// Ascending by price.
    pub asks: Vec<Quote>,
    /// Descending by price.
    pub bids: Vec<Quote>,
}

/// The invariants of an emitted depth snapshot: both sides strictly ordered
/// in their canonical direction, positive sizes, and a local time that does
/// not precede the venue time.
pub open spec fn depth_wf(d: Depth) -> bool {
    &&& ascending(d.asks@)
    &&& descending(d.bids@)
    &&& positive(d.asks@)
    &&& positive(d.bids@)
    &&& d.lts >= d.ts
}

/// The local stamp of an update: the local clock, raised to the venue time
/// where the clock lags behind it.
pub open spec fn stamp(now: i64, venue_ts: i64) -> i64 {
    if now >= venue_ts {
        now
    } else {
        venue_ts
    }
}

/// The local stamp never precedes the venue time, so a positive venue time
/// gives a positive local time as well.
pub proof fn lemma_stamp_not_before_venue(now: i64, venue_ts: i64)
    ensures
        stamp(now, venue_ts) >= venue_ts,
        venue_ts > 0 ==> stamp(now, venue_ts) > 0,
{
}

fn local_stamp(now: i64, venue_ts: i64) -> (r: i64)
    ensures
        r == stamp(now, venue_ts),
{
    if now >= venue_ts {
        now
    } else {
        venue_ts
    }
}

pub struct BookLadder {
    pub bids: Ladder,
    pub asks: Ladder,
    pub sequence_id: i64,
    pub venue_ts: i64,
    pub venue_tx_ts: i64,
    pub local_ts: i64,
}

impl BookLadder {
    pub open spec fn wf(&self) -> bool {
        &&& self.bids.wf()
        &&& self.asks.wf()
        &&& self.local_ts >= self.venue_ts
    }

    pub fn new() -> (r: BookLadder)
        ensures
            r.wf(),
            r.bids.map() == Map::<u64, u64>::empty(),
            r.asks.map() == Map::<u64, u64>::empty(),
            r.sequence_id == 0,
            r.venue_ts == 0,
            r.venue_tx_ts == 0,
            r.local_ts == 0,
    {
        BookLadder {
            bids: Ladder::new(),
            asks: Ladder::new(),
            sequence_id: 0,
            venue_ts: 0,
            venue_tx_ts: 0,
            local_ts: 0,
        }
    }

    pub fn sequence_id(&self) -> (r: i64)
        ensures
            r == self.sequence_id,
    {
        self.sequence_id
    }

    /// Replaces both sides with the levels of a REST snapshot (zero sizes
    /// are dropped) and takes its id and times.
    pub fn load_from_snapshot(&mut self, snap: &RestSnapshot, now: i64)
        requires
            old(self).wf(),
        ensures
            final(self).wf(),
            final(self).bids.map() == apply_rows(Map::empty(), snap.bids@),
            final(self).asks.map() == apply_rows(Map::empty(), snap.asks@),
            final(self).sequence_id == snap.last_update_id,
            final(self).venue_ts == snap.event_time,
            final(self).venue_tx_ts == snap.transaction_time,
            final(self).local_ts == stamp(now, snap.event_time),
    {
        self.bids.clear();
        self.bids.apply_all(&snap.bids);
        self.asks.clear();
        self.asks.apply_all(&snap.asks);
        self.sequence_id = snap.last_update_id;
        self.venue_ts = snap.event_time;
        self.venue_tx_ts = snap.transaction_time;
        self.local_ts = local_stamp(now, snap.event_time);
    }

    /// Applies the delta rows of an incremental event and takes its last id
    /// and times.
    pub fn apply_event(&mut self, e: &DepthEvent, now: i64)
        requires
            old(self).wf(),
        ensures
            final(self).wf(),
            final(self).bids.map() == apply_rows(old(self).bids.map(), e.bids@),
            final(self).asks.map() == apply_rows(old(self).asks.map(), e.asks@),
            final(self).sequence_id == e.header.last_update_id,
            final(self).venue_ts == e.event_time,
            final(self).venue_tx_ts == e.transaction_time,
            final(self).local_ts == stamp(now, e.event_time),
    {
        self.bids.apply_all(&e.bids);
        self.asks.apply_all(&e.asks);
        self.sequence_id = e.header.last_update_id;
        self.venue_ts = e.event_time;
        self.venue_tx_ts = e.transaction_time;
        self.local_ts = local_stamp(now, e.event_time);
    }

    /// Replaces both sides with the levels of a top-N message.
    pub fn set_from_level_event(&mut self, l: &LevelEvent, now: i64)
        requires
            old(self).wf(),
        ensures
            final(self).wf(),
            final(self).bids.map() == apply_rows(Map::empty(), l.bids@),
            final(self).asks.map() == apply_rows(Map::empty(), l.asks@),
            final(self).sequence_id == l.last_update_id,
            final(self).venue_ts == l.event_time,
            final(self).venue_tx_ts == old(self).venue_tx_ts,
            final(self).local_ts == stamp(now, l.event_time),
    {
        self.bids.clear();
        self.bids.apply_all(&l.bids);
        self.asks.clear();
        self.asks.apply_all(&l.asks);
        self.sequence_id = l.last_update_id;
        self.venue_ts = l.event_time;
        self.local_ts = local_stamp(now, l.event_time);
    }

    /// Materialises both sides in canonical order.
    pub fn export_depth(&self) -> (d: Depth)
        requires
            self.wf(),
        ensures
            depth_wf(d),
            d.asks@ == self.asks@,
            d.bids@ == self.bids@.reverse(),
            d.id == self.sequence_id,
            d.ts == self.venue_ts,
            d.lts == self.local_ts,
    {
        Depth {
            ts: self.venue_ts,
            lts: self.local_ts,
            id: self.sequence_id,
            asks: self.asks.ascending_levels(),
            bids: self.bids.descending_levels(),
        }
    }
}

} // verus!
