//! Bootstrap, resync and steady-state application for incremental depth
//! streams, and the simpler replacement path for top-N streams.
//!
//! The state machines take one input at a time (a live event, the REST
//! snapshot, a fetch failure, a lost connection) together with the local
//! clock, and answer with the snapshots to emit and the next command for the
//! transport that drives them.
use vstd::prelude::*;
use crate::book::{BookLadder, Depth, DepthEvent, LevelEvent, RestSnapshot, depth_wf, stamp};
use crate::ladder::apply_rows;
use crate::protocol::{ProductClass, spec_behind, spec_continues, spec_matches};

verus! {

/// Live events buffered before the REST snapshot is requested.
pub const MAX_BUFFER_EVENTS: usize = 5;

/// Consecutive failed bootstrap attempts after which the subscription gives up.
pub const MAX_ATTEMPTS: u32 = 20;

#[derive(Clone, Copy, Debug, PartialEq, Eq, Structural)]
pub enum Phase {
    /// Collecting the first live events.
    Buffering,
    /// The REST snapshot has been requested; events are still buffered.
    Fetching,
    /// The snapshot is known and no live event has matched it yet.
    CatchUp,
    /// The book follows the stream and is published.
    Ready,
    /// Bootstrap failed too often; the subscription has stopped.
    Failed,
}

/// What the transport is asked to do next.
#[derive(Clone, Copy, Debug, PartialEq, Eq, Structural)]
pub enum Command {
    /// Keep reading live events.
    Continue,
    /// Fetch the REST snapshot.
    FetchSnapshot,
    /// Close the session and open a new one.
    Restart,
    /// Stop the subscription.
    Fatal,
}

/// The answer to one input: snapshots to publish, in order, and a command.
pub struct Step {
    pub emitted: Vec<Depth>,
    pub command: Command,
}

/// A snapshot with id `id` may follow emissions whose last id was `w`.
pub open spec fn may_emit(w: Option<i64>, id: i64) -> bool {
    match w {
        None => true,
        Some(x) => id >= x,
    }
}

/// Emitted ids never decrease, and none falls below the watermark `w`.
pub open spec fn ids_monotone(w: Option<i64>, es: Seq<Depth>) -> bool {
    &&& forall|i: int, j: int| 0 <= i < j < es.len() ==> es[i].id <= es[j].id
    &&& forall|i: int| 0 <= i < es.len() ==> may_emit(w, #[trigger] es[i].id)
}

/// The watermark after emitting `es` from watermark `w`.
pub open spec fn watermark_after(w: Option<i64>, es: Seq<Depth>) -> Option<i64> {
    if es.len() == 0 {
        w
    } else {
        Some(es.last().id)
    }
}

pub open spec fn all_depth_wf(es: Seq<Depth>) -> bool {
    forall|i: int| 0 <= i < es.len() ==> depth_wf(#[trigger] es[i])
}

/// `d` is the export of book `b`.
pub open spec fn exports(d: Depth, b: BookLadder) -> bool {
    &&& d.asks@ == b.asks@
    &&& d.bids@ == b.bids@.reverse()
    &&& d.id == b.sequence_id
    &&& d.ts == b.venue_ts
    &&& d.lts == b.local_ts
}

/// Index `i` is the first buffered event that is not behind snapshot `s`.
pub open spec fn first_live(class: ProductClass, buf: Seq<DepthEvent>, s: int, i: int) -> bool {
    &&& 0 <= i < buf.len()
    &&& !spec_behind(class, buf[i].header, s)
    &&& forall|j: int| 0 <= j < i ==> spec_behind(class, #[trigger] buf[j].header, s)
}

/// Every buffered event after index `i` continues the one before it.
pub open spec fn chained_after(class: ProductClass, buf: Seq<DepthEvent>, i: int) -> bool {
    forall|j: int|
        i < j < buf.len() ==> spec_continues(
            class,
            #[trigger] buf[j].header,
            buf[j - 1].header.last_update_id as int,
        )
}

/// The rows of one side applied event by event.
pub open spec fn replay_rows(m: Map<u64, u64>, evs: Seq<DepthEvent>, bids: bool) -> Map<u64, u64>
    decreases evs.len(),
{
    if evs.len() == 0 {
        m
    } else {
        apply_rows(
            replay_rows(m, evs.drop_last(), bids),
            if bids {
                evs.last().bids@
            } else {
                evs.last().asks@
            },
        )
    }
}

/// Book `b` is the snapshot with the buffered events `i..=k` applied in
/// order, stamped by the last of them.
pub open spec fn book_through(b: BookLadder, snap: RestSnapshot, buf: Seq<DepthEvent>, i: int, k: int, now: i64) -> bool {
    &&& b.wf()
    &&& b.bids.map() == replay_rows(apply_rows(Map::empty(), snap.bids@), buf.subrange(i, k + 1), true)
    &&& b.asks.map() == replay_rows(apply_rows(Map::empty(), snap.asks@), buf.subrange(i, k + 1), false)
    &&& b.sequence_id == buf[k].header.last_update_id
    &&& b.venue_ts == buf[k].event_time
    &&& b.venue_tx_ts == buf[k].transaction_time
    &&& b.local_ts == stamp(now, buf[k].event_time)
}

/// `d` is the export of the snapshot with buffered events `i..=k` applied.
pub open spec fn emitted_through(d: Depth, snap: RestSnapshot, buf: Seq<DepthEvent>, i: int, k: int, now: i64) -> bool {
    exists|b: BookLadder| book_through(b, snap, buf, i, k, now) && exports(d, b)
}

/// From index `i` on, the buffered ids never decrease and the first clears
/// the watermark `w`: every state reached is published.
pub open spec fn all_emittable(w: Option<i64>, buf: Seq<DepthEvent>, i: int) -> bool {
    &&& may_emit(w, buf[i].header.last_update_id)
    &&& forall|j: int|
        i < j < buf.len() ==> buf[j - 1].header.last_update_id <= #[trigger] buf[j].header.last_update_id
}

/// The book after a bootstrap on snapshot `snap` and event `e`.
pub open spec fn bootstrapped(b: BookLadder, snap: RestSnapshot, e: DepthEvent, now: i64) -> bool {
    &&& b.wf()
    &&& b.bids.map() == apply_rows(apply_rows(Map::empty(), snap.bids@), e.bids@)
    &&& b.asks.map() == apply_rows(apply_rows(Map::empty(), snap.asks@), e.asks@)
    &&& b.sequence_id == e.header.last_update_id
    &&& b.venue_ts == e.event_time
    &&& b.venue_tx_ts == e.transaction_time
    &&& b.local_ts == stamp(now, e.event_time)
}

/// The book after applying `e` on top of book `a`.
pub open spec fn advanced(b: BookLadder, a: BookLadder, e: DepthEvent, now: i64) -> bool {
    &&& b.wf()
    &&& b.bids.map() == apply_rows(a.bids.map(), e.bids@)
    &&& b.asks.map() == apply_rows(a.asks.map(), e.asks@)
    &&& b.sequence_id == e.header.last_update_id
    &&& b.venue_ts == e.event_time
    &&& b.venue_tx_ts == e.transaction_time
    &&& b.local_ts == stamp(now, e.event_time)
}

/// Incremental-plus-bootstrap synchronisation of one subscription.
pub struct DepthSync {
    pub class: ProductClass,
    pub phase: Phase,
    pub book: BookLadder,
    pub buffer: Vec<DepthEvent>,
    /// The REST snapshot awaiting a matching event (catch-up phase).
    pub snapshot: Option<RestSnapshot>,
    /// Consecutive failed bootstrap attempts.
    pub attempts: u32,
    /// Id of the last emitted snapshot.
    pub last_emitted: Option<i64>,
}

impl DepthSync {
    pub open spec fn wf(&self) -> bool {
        &&& self.book.wf()
        &&& self.attempts < MAX_ATTEMPTS || self.phase == Phase::Failed
        &&& self.attempts <= MAX_ATTEMPTS
        &&& self.phase == Phase::CatchUp ==> self.snapshot.is_some()
        &&& self.phase == Phase::Ready ==> (self.last_emitted matches Some(w) && w
            >= self.book.sequence_id)
    }

    pub open spec fn step_ok(&self, old_w: Option<i64>, step: Step) -> bool {
        &&& self.wf()
        &&& ids_monotone(old_w, step.emitted@)
        &&& self.last_emitted == watermark_after(old_w, step.emitted@)
        &&& all_depth_wf(step.emitted@)
    }

    pub fn new(class: ProductClass) -> (r: DepthSync)
        ensures
            r.wf(),
            r.class == class,
            r.phase == Phase::Buffering,
            r.buffer@.len() == 0,
            r.attempts == 0,
            r.last_emitted.is_none(),
            r.snapshot.is_none(),
            r.book.bids.map() == Map::<u64, u64>::empty(),
            r.book.asks.map() == Map::<u64, u64>::empty(),
            r.book.sequence_id == 0,
    {
        DepthSync {
            class,
            phase: Phase::Buffering,
            book: BookLadder::new(),
            buffer: Vec::new(),
            snapshot: None,
            attempts: 0,
            last_emitted: None,
        }
    }

    /// The subscription's Ready flag.
    pub fn is_ready(&self) -> (r: bool)
        ensures
            r == (self.phase == Phase::Ready),
    {
        self.phase == Phase::Ready
    }

    /// The current depth if the book is Ready, else `None`.
    pub fn latest_depth(&self) -> (r: Option<Depth>)
        requires
            self.wf(),
        ensures
            r.is_some() == (self.phase == Phase::Ready),
            r matches Some(d) ==> depth_wf(d) && exports(d, self.book),
    {
        if self.phase == Phase::Ready {
            Some(self.book.export_depth())
        } else {
            None
        }
    }

    /// Publishes the book unless its id is below the last emitted one.
    fn emit(&mut self, out: &mut Vec<Depth>)
        requires
            old(self).book.wf(),
        ensures
            final(self).book == old(self).book,
            final(self).phase == old(self).phase,
            final(self).buffer == old(self).buffer,
            final(self).snapshot == old(self).snapshot,
            final(self).attempts == old(self).attempts,
            final(self).class == old(self).class,
            may_emit(old(self).last_emitted, old(self).book.sequence_id) ==> {
                &&& final(out)@.len() == old(out)@.len() + 1
                &&& final(out)@.drop_last() == old(out)@
                &&& exports(final(out)@.last(), old(self).book)
                &&& depth_wf(final(out)@.last())
                &&& final(self).last_emitted == Some(old(self).book.sequence_id)
            },
            !may_emit(old(self).last_emitted, old(self).book.sequence_id) ==> {
                &&& final(out)@ == old(out)@
                &&& final(self).last_emitted == old(self).last_emitted
            },
    {
        let allowed = match self.last_emitted {
            None => true,
            Some(w) => self.book.sequence_id >= w,
        };
        if allowed {
            let d = self.book.export_depth();
            out.push(d);
            self.last_emitted = Some(self.book.sequence_id);
            assert(out@.drop_last() =~= old(out)@);
        }
    }
}


/// Emitting one more snapshot that the watermark allows keeps the emitted ids
/// monotone.
proof fn lemma_push_monotone(w: Option<i64>, es: Seq<Depth>, d: Depth)
    requires
        ids_monotone(w, es),
        may_emit(watermark_after(w, es), d.id),
    ensures
        ids_monotone(w, es.push(d)),
        watermark_after(w, es.push(d)) == Some(d.id),
{
    let t = es.push(d);
    assert forall|i: int, j: int| 0 <= i < j < t.len() implies t[i].id <= t[j].id by {
        if j == es.len() {
            assert(es[i].id <= es.last().id);
        }
    }
    assert forall|i: int| 0 <= i < t.len() implies may_emit(w, #[trigger] t[i].id) by {
        if i == es.len() && es.len() > 0 {
            assert(may_emit(w, es[es.len() - 1].id));
        }
    }
}

impl DepthSync {
    /// Abandons the current bootstrap: the buffer and any pending snapshot
    /// are dropped and the Ready flag is cleared. A failed attempt counts
    /// towards the limit; reaching it stops the subscription.
    fn restart(&mut self, failed: bool) -> (c: Command)
        requires
            old(self).book.wf(),
            old(self).attempts < MAX_ATTEMPTS,
        ensures
            final(self).wf(),
            final(self).book == old(self).book,
            final(self).class == old(self).class,
            final(self).last_emitted == old(self).last_emitted,
            final(self).buffer@.len() == 0,
            final(self).snapshot.is_none(),
            final(self).attempts == (if failed { old(self).attempts + 1 } else { old(self).attempts as int }),
            final(self).attempts >= MAX_ATTEMPTS ==> c == Command::Fatal && final(self).phase == Phase::Failed,
            final(self).attempts < MAX_ATTEMPTS ==> c == Command::Restart && final(self).phase == Phase::Buffering,
    {
        self.buffer = Vec::new();
        self.snapshot = None;
        if failed {
            self.attempts = self.attempts + 1;
        }
        if self.attempts >= MAX_ATTEMPTS {
            self.phase = Phase::Failed;
            Command::Fatal
        } else {
            self.phase = Phase::Buffering;
            Command::Restart
        }
    }

    /// Steady state: applies and publishes `e` if it continues the book.
    fn steady(&mut self, e: &DepthEvent, now: i64, out: &mut Vec<Depth>) -> (applied: bool)
        requires
            old(self).wf(),
            old(self).phase == Phase::Ready,
        ensures
            applied == spec_continues(old(self).class, e.header, old(self).book.sequence_id as int),
            final(self).wf(),
            final(self).phase == Phase::Ready,
            final(self).class == old(self).class,
            final(self).attempts == old(self).attempts,
            final(self).buffer == old(self).buffer,
            final(self).snapshot == old(self).snapshot,
            !applied ==> *final(self) == *old(self) && final(out)@ == old(out)@,
            applied ==> advanced(final(self).book, old(self).book, *e, now),
            applied && may_emit(old(self).last_emitted, e.header.last_update_id) ==> {
                &&& final(out)@.len() == old(out)@.len() + 1
                &&& final(out)@.drop_last() == old(out)@
                &&& exports(final(out)@.last(), final(self).book)
                &&& depth_wf(final(out)@.last())
                &&& final(self).last_emitted == Some(e.header.last_update_id)
            },
            applied && !may_emit(old(self).last_emitted, e.header.last_update_id) ==> {
                &&& final(out)@ == old(out)@
                &&& final(self).last_emitted == old(self).last_emitted
            },
    {
        if self.class.continues(&e.header, self.book.sequence_id()) {
            self.book.apply_event(e, now);
            self.emit(out);
            true
        } else {
            false
        }
    }
}

impl DepthSync {
    /// Handles one live incremental event.
    ///
    /// While buffering, the event is kept and the REST snapshot is requested
    /// once the buffer is full. In catch-up it is compared with the snapshot:
    /// behind is dropped, a match bootstraps the book, ahead restarts. When
    /// Ready, an event that continues the book is applied and published; any
    /// other is a gap, which clears the Ready flag and restarts.
    pub fn on_event(&mut self, e: DepthEvent, now: i64) -> (step: Step)
        requires
            old(self).wf(),
        ensures
            final(self).step_ok(old(self).last_emitted, step),
            final(self).class == old(self).class,
            old(self).phase == Phase::Failed ==> {
                &&& *final(self) == *old(self)
                &&& step.command == Command::Fatal
                &&& step.emitted@.len() == 0
            },
            old(self).phase == Phase::Buffering || old(self).phase == Phase::Fetching ==> {
                &&& final(self).buffer@ == old(self).buffer@.push(e)
                &&& final(self).book == old(self).book
                &&& final(self).attempts == old(self).attempts
                &&& final(self).last_emitted == old(self).last_emitted
                &&& step.emitted@.len() == 0
                &&& if old(self).phase == Phase::Buffering && final(self).buffer@.len()
                    >= MAX_BUFFER_EVENTS {
                    final(self).phase == Phase::Fetching && step.command == Command::FetchSnapshot
                } else {
                    final(self).phase == old(self).phase && step.command == Command::Continue
                }
            },
            old(self).phase == Phase::CatchUp ==> {
                let snap = old(self).snapshot.unwrap();
                let s = snap.last_update_id as int;
                &&& spec_behind(old(self).class, e.header, s) ==> {
                    &&& *final(self) == *old(self)
                    &&& step.command == Command::Continue
                    &&& step.emitted@.len() == 0
                }
                &&& !spec_behind(old(self).class, e.header, s) && spec_matches(
                    old(self).class,
                    e.header,
                    s,
                ) ==> {
                    &&& final(self).phase == Phase::Ready
                    &&& bootstrapped(final(self).book, snap, e, now)
                    &&& final(self).attempts == 0
                    &&& step.command == Command::Continue
                    &&& may_emit(old(self).last_emitted, e.header.last_update_id) ==> {
                        &&& step.emitted@.len() == 1
                        &&& exports(step.emitted@[0], final(self).book)
                    }
                    &&& !may_emit(old(self).last_emitted, e.header.last_update_id)
                        ==> step.emitted@.len() == 0
                }
                &&& !spec_behind(old(self).class, e.header, s) && !spec_matches(
                    old(self).class,
                    e.header,
                    s,
                ) ==> {
                    &&& step.emitted@.len() == 0
                    &&& final(self).attempts == old(self).attempts + 1
                    &&& final(self).buffer@.len() == 0
                    &&& final(self).book == old(self).book
                    &&& final(self).snapshot.is_none()
                    &&& final(self).attempts < MAX_ATTEMPTS ==> final(self).phase == Phase::Buffering
                        && step.command == Command::Restart
                    &&& final(self).attempts >= MAX_ATTEMPTS ==> final(self).phase == Phase::Failed
                        && step.command == Command::Fatal
                }
            },
            old(self).phase == Phase::Ready ==> {
                let p = old(self).book.sequence_id as int;
                &&& spec_continues(old(self).class, e.header, p) ==> {
                    &&& final(self).phase == Phase::Ready
                    &&& advanced(final(self).book, old(self).book, e, now)
                    &&& step.command == Command::Continue
                    &&& may_emit(old(self).last_emitted, e.header.last_update_id) ==> {
                        &&& step.emitted@.len() == 1
                        &&& exports(step.emitted@[0], final(self).book)
                    }
                    &&& !may_emit(old(self).last_emitted, e.header.last_update_id)
                        ==> step.emitted@.len() == 0
                }
                &&& !spec_continues(old(self).class, e.header, p) ==> {
                    &&& final(self).phase == Phase::Buffering
                    &&& final(self).buffer@.len() == 0
                    &&& final(self).book == old(self).book
                    &&& final(self).last_emitted == old(self).last_emitted
                    &&& step.command == Command::Restart
                    &&& step.emitted@.len() == 0
                }
            },
    {
        let mut out: Vec<Depth> = Vec::new();
        match self.phase {
            Phase::Failed => Step { emitted: out, command: Command::Fatal },
            Phase::Buffering => {
                self.buffer.push(e);
                if self.buffer.len() >= MAX_BUFFER_EVENTS {
                    self.phase = Phase::Fetching;
                    Step { emitted: out, command: Command::FetchSnapshot }
                } else {
                    Step { emitted: out, command: Command::Continue }
                }
            },
            Phase::Fetching => {
                self.buffer.push(e);
                Step { emitted: out, command: Command::Continue }
            },
            Phase::CatchUp => {
                let snap = self.snapshot.take().unwrap();
                let s = snap.last_update_id;
                if self.class.behind(&e.header, s) {
                    self.snapshot = Some(snap);
                    Step { emitted: out, command: Command::Continue }
                } else if self.class.matches(&e.header, s) {
                    self.book.load_from_snapshot(&snap, now);
                    self.book.apply_event(&e, now);
                    self.phase = Phase::Ready;
                    self.attempts = 0;
                    self.emit(&mut out);
                    Step { emitted: out, command: Command::Continue }
                } else {
                    let c = self.restart(true);
                    Step { emitted: out, command: c }
                }
            },
            Phase::Ready => {
                if self.steady(&e, now, &mut out) {
                    Step { emitted: out, command: Command::Continue }
                } else {
                    let c = self.restart(false);
                    Step { emitted: out, command: c }
                }
            },
        }
    }
}

impl DepthSync {
    /// Handles the REST snapshot: drains the buffer in order. Events behind
    /// the snapshot are dropped; the first other event either matches it,
    /// which loads the snapshot, applies the event, sets Ready and then
    /// applies the rest of the buffer as steady-state events, or is ahead of
    /// it, which restarts. If every buffered event is behind, the snapshot is
    /// kept for the live events that follow.
    pub fn on_snapshot(&mut self, snap: RestSnapshot, now: i64) -> (step: Step)
        requires
            old(self).wf(),
        ensures
            final(self).step_ok(old(self).last_emitted, step),
            final(self).class == old(self).class,
            old(self).phase == Phase::Failed || old(self).phase == Phase::Ready ==> {
                &&& *final(self) == *old(self)
                &&& step.emitted@.len() == 0
                &&& step.command == (if old(self).phase == Phase::Failed {
                    Command::Fatal
                } else {
                    Command::Continue
                })
            },
            old(self).phase != Phase::Failed && old(self).phase != Phase::Ready ==> {
                let buf = old(self).buffer@;
                let s = snap.last_update_id as int;
                &&& final(self).buffer@.len() == 0
                &&& (forall|j: int| 0 <= j < buf.len() ==> spec_behind(old(self).class, #[trigger] buf[j].header, s)) ==> {
                    &&& final(self).phase == Phase::CatchUp
                    &&& final(self).snapshot == Some(snap)
                    &&& final(self).book == old(self).book
                    &&& final(self).attempts == old(self).attempts
                    &&& step.command == Command::Continue
                    &&& step.emitted@.len() == 0
                }
                &&& forall|i: int| first_live(old(self).class, buf, s, i) && !spec_matches(old(self).class, buf[i].header, s) ==> {
                    &&& step.emitted@.len() == 0
                    &&& final(self).attempts == old(self).attempts + 1
                    &&& final(self).book == old(self).book
                    &&& final(self).snapshot.is_none()
                    &&& final(self).attempts < MAX_ATTEMPTS ==> final(self).phase == Phase::Buffering
                        && step.command == Command::Restart
                    &&& final(self).attempts >= MAX_ATTEMPTS ==> final(self).phase == Phase::Failed
                        && step.command == Command::Fatal
                }
                &&& forall|i: int| first_live(old(self).class, buf, s, i) && spec_matches(old(self).class, buf[i].header, s) ==> {
                    &&& final(self).attempts == 0
                    &&& chained_after(old(self).class, buf, i) ==> final(self).phase == Phase::Ready && step.command == Command::Continue
                    &&& !chained_after(old(self).class, buf, i) ==> final(self).phase == Phase::Buffering && step.command == Command::Restart
                    &&& may_emit(old(self).last_emitted, buf[i].header.last_update_id) ==> {
                        &&& step.emitted@.len() >= 1
                        &&& exists|b: BookLadder| bootstrapped(b, snap, buf[i], now) && exports(
                            #[trigger] step.emitted@[0],
                            b,
                        )
                    }
                    &&& chained_after(old(self).class, buf, i) ==> book_through(final(self).book, snap, buf, i, buf.len() - 1, now)
                    &&& chained_after(old(self).class, buf, i) && old(self).class != ProductClass::InversePerp
                        && (forall|j: int| 0 <= j < buf.len() ==> (#[trigger] buf[j].header).wf())
                        ==> final(self).book.sequence_id > s
                    &&& all_emittable(old(self).last_emitted, buf, i) ==> {
                        &&& step.emitted@.len() <= buf.len() - i
                        &&& chained_after(old(self).class, buf, i) ==> step.emitted@.len() == buf.len() - i
                        &&& forall|j: int| 0 <= j < step.emitted@.len() ==> emitted_through(#[trigger] step.emitted@[j], snap, buf, i, i + j, now)
                    }
                }
                &&& step.emitted@.len() > 0 ==> exists|i: int| first_live(old(self).class, buf, s, i) && spec_matches(old(self).class, buf[i].header, s)
            },
    {
        let mut out: Vec<Depth> = Vec::new();
        if self.phase == Phase::Failed {
            return Step { emitted: out, command: Command::Fatal };
        }
        if self.phase == Phase::Ready {
            return Step { emitted: out, command: Command::Continue };
        }
        let ghost w0 = self.last_emitted;
        let mut buf: Vec<DepthEvent> = Vec::new();
        std::mem::swap(&mut buf, &mut self.buffer);
        let ghost b = buf@;
        let s = snap.last_update_id;
        let n = buf.len();
        let mut i: usize = 0;
        while i < n && self.class.behind(&buf[i].header, s)
            invariant
                n == buf@.len(),
                buf@ == b,
                i <= n,
                forall|j: int| 0 <= j < i ==> spec_behind(self.class, #[trigger] b[j].header, s as int),
            decreases n - i,
        {
            i = i + 1;
        }
        if i == n {
            self.phase = Phase::CatchUp;
            self.snapshot = Some(snap);
            return Step { emitted: out, command: Command::Continue };
        }
        assert(first_live(self.class, b, s as int, i as int));
        assert forall|k: int| first_live(self.class, b, s as int, k) implies k == i by {
            if k < i {
                assert(spec_behind(self.class, b[k].header, s as int));
            } else if k > i {
                assert(spec_behind(self.class, b[i as int].header, s as int));
            }
        }
        if !self.class.matches(&buf[i].header, s) {
            let c = self.restart(true);
            return Step { emitted: out, command: c };
        }
        self.book.load_from_snapshot(&snap, now);
        self.book.apply_event(&buf[i], now);
        self.phase = Phase::Ready;
        self.attempts = 0;
        self.snapshot = None;
        let ghost booted = self.book;
        self.emit(&mut out);
        let ghost first_out = out@;
        let ghost ii = i as int;
        let ghost pass = all_emittable(w0, b, ii);
        let ghost inc = self.class != ProductClass::InversePerp && (forall|j: int| 0 <= j < b.len() ==> (#[trigger] b[j].header).wf());
        assert(bootstrapped(booted, snap, b[ii], now));
        proof {
            let one = b.subrange(ii, ii + 1);
            assert(one.drop_last() =~= Seq::<DepthEvent>::empty());
            assert(one.last() == b[ii]);
            assert(replay_rows(apply_rows(Map::empty(), snap.bids@), one.drop_last(), true) == apply_rows(Map::empty(), snap.bids@));
            assert(replay_rows(apply_rows(Map::empty(), snap.asks@), one.drop_last(), false) == apply_rows(Map::empty(), snap.asks@));
            assert(book_through(booted, snap, b, ii, ii, now));
            if pass {
                assert(exports(out@[0], booted));
                assert(emitted_through(out@[0], snap, b, ii, ii + 0, now));
                assert forall|j: int| 0 <= j < out@.len() implies emitted_through(#[trigger] out@[j], snap, b, ii, ii + j, now) by {
                    assert(j == 0);
                }
            }
            if inc {
                assert(b[ii].header.wf());
            }
        }
        let mut command = Command::Continue;
        let mut k: usize = i + 1;
        while k < n
            invariant_except_break
                self.phase == Phase::Ready,
                command == Command::Continue,
            invariant
                n == buf@.len(),
                buf@ == b,
                i < k <= n,
                self.book.sequence_id == b[k - 1].header.last_update_id,
                ii == i as int,
                pass == all_emittable(w0, b, ii),
                inc == (self.class != ProductClass::InversePerp && (forall|j: int| 0 <= j < b.len() ==> (#[trigger] b[j].header).wf())),
                book_through(self.book, snap, b, ii, k - 1, now),
                inc ==> self.book.sequence_id > s,
                pass ==> out@.len() == k - i && self.last_emitted == Some(b[k - 1].header.last_update_id),
                pass ==> forall|j: int| 0 <= j < out@.len() ==> emitted_through(#[trigger] out@[j], snap, b, ii, ii + j, now),
                out@.len() <= k - i,
                forall|j: int|
                    i < j < k ==> spec_continues(
                        self.class,
                        #[trigger] b[j].header,
                        b[j - 1].header.last_update_id as int,
                    ),
                self.wf(),
                self.class == old(self).class,
                self.attempts == 0,
                self.buffer@.len() == 0,
                ids_monotone(w0, out@),
                self.last_emitted == watermark_after(w0, out@),
                all_depth_wf(out@),
                out@.len() >= first_out.len(),
                forall|j: int| 0 <= j < first_out.len() ==> out@[j] == first_out[j],
            ensures
                (self.phase == Phase::Ready && command == Command::Continue && chained_after(
                    self.class,
                    b,
                    i as int,
                )) || (self.phase == Phase::Buffering && command == Command::Restart
                    && !chained_after(self.class, b, i as int)),
                self.phase == Phase::Ready ==> k == n,
            decreases n - k,
        {
            let ghost before = out@;
            if !self.steady(&buf[k], now, &mut out) {
                command = self.restart(false);
                break;
            }
            proof {
                if out@.len() > before.len() {
                    assert(out@ == before.push(out@.last()));
                    lemma_push_monotone(w0, before, out@.last());
                }
                let kk = k as int;
                let upto = b.subrange(ii, kk + 1);
                assert(upto.drop_last() =~= b.subrange(ii, kk));
                assert(upto.last() == b[kk]);
                assert(book_through(self.book, snap, b, ii, kk, now));
                if inc {
                    assert(b[kk].header.wf());
                }
                if pass {
                    assert(b[kk - 1].header.last_update_id <= b[kk].header.last_update_id);
                    assert(out@.len() == before.len() + 1);
                    assert forall|j: int| 0 <= j < out@.len() implies emitted_through(#[trigger] out@[j], snap, b, ii, ii + j, now) by {
                        if j < before.len() {
                            assert(out@[j] == before[j]);
                        } else {
                            assert(j == kk - ii);
                            assert(book_through(self.book, snap, b, ii, ii + j, now) && exports(out@[j], self.book));
                        }
                    }
                }
            }
            k = k + 1;
        }
        Step { emitted: out, command }
    }

    /// The REST fetch failed: the attempt is abandoned.
    pub fn on_snapshot_failed(&mut self) -> (step: Step)
        requires
            old(self).wf(),
        ensures
            final(self).step_ok(old(self).last_emitted, step),
            step.emitted@.len() == 0,
            final(self).class == old(self).class,
            final(self).book == old(self).book,
            old(self).phase == Phase::Failed ==> *final(self) == *old(self) && step.command == Command::Fatal,
            old(self).phase == Phase::Ready ==> *final(self) == *old(self) && step.command == Command::Continue,
            old(self).phase != Phase::Failed && old(self).phase != Phase::Ready ==> {
                &&& final(self).buffer@.len() == 0
                &&& final(self).attempts == old(self).attempts + 1
                &&& step.command == Command::Restart || step.command == Command::Fatal
                &&& step.command == Command::Restart <==> final(self).phase == Phase::Buffering
            },
    {
        let out: Vec<Depth> = Vec::new();
        match self.phase {
            Phase::Failed => Step { emitted: out, command: Command::Fatal },
            Phase::Ready => Step { emitted: out, command: Command::Continue },
            _ => {
                let c = self.restart(true);
                Step { emitted: out, command: c }
            },
        }
    }

    /// The transport dropped: the Ready flag is cleared and the session is
    /// reopened. A drop before Ready counts as a failed attempt.
    pub fn on_disconnect(&mut self) -> (step: Step)
        requires
            old(self).wf(),
        ensures
            final(self).step_ok(old(self).last_emitted, step),
            step.emitted@.len() == 0,
            final(self).class == old(self).class,
            final(self).book == old(self).book,
            final(self).phase != Phase::Ready,
            old(self).phase == Phase::Failed ==> *final(self) == *old(self) && step.command == Command::Fatal,
            old(self).phase == Phase::Ready ==> {
                &&& final(self).phase == Phase::Buffering
                &&& final(self).buffer@.len() == 0
                &&& final(self).attempts == old(self).attempts
                &&& step.command == Command::Restart
            },
            old(self).phase != Phase::Failed && old(self).phase != Phase::Ready ==> {
                &&& final(self).buffer@.len() == 0
                &&& final(self).attempts == old(self).attempts + 1
                &&& step.command == Command::Restart || step.command == Command::Fatal
            },
    {
        let out: Vec<Depth> = Vec::new();
        match self.phase {
            Phase::Failed => Step { emitted: out, command: Command::Fatal },
            Phase::Ready => {
                let c = self.restart(false);
                Step { emitted: out, command: c }
            },
            _ => {
                let c = self.restart(true);
                Step { emitted: out, command: c }
            },
        }
    }
}

/// Emissions stay non-decreasing across steps: if each step emits ids that
/// are monotone from the watermark the previous step left, the emissions of
/// both steps together are monotone from the first watermark.
pub proof fn lemma_emissions_monotone(w: Option<i64>, first: Seq<Depth>, second: Seq<Depth>)
    requires
        ids_monotone(w, first),
        ids_monotone(watermark_after(w, first), second),
    ensures
        ids_monotone(w, first + second),
        watermark_after(w, first + second) == watermark_after(watermark_after(w, first), second),
{
    let t = first + second;
    let n = first.len();
    assert forall|i: int, j: int| 0 <= i < j < t.len() implies t[i].id <= t[j].id by {
        if j >= n && i < n {
            assert(may_emit(watermark_after(w, first), second[j - n].id));
            assert(first[i].id <= first[n - 1].id || i == n - 1);
        }
    }
    assert forall|i: int| 0 <= i < t.len() implies may_emit(w, #[trigger] t[i].id) by {
        if i >= n {
            assert(may_emit(watermark_after(w, first), second[i - n].id));
            if n > 0 {
                assert(may_emit(w, first[n - 1].id));
            }
        }
    }
    if second.len() > 0 {
        assert(t.last() == second.last());
    }
}

/// After a gap detected at book id `g`, the watermark is at least `g`, so
/// every later emission carries an id of at least `g`; an update that would
/// go below it is dropped.
pub proof fn lemma_resync_floor(at_gap: DepthSync, after_gap: DepthSync, later: Seq<Depth>)
    requires
        at_gap.wf(),
        at_gap.phase == Phase::Ready,
        after_gap.last_emitted == at_gap.last_emitted,
        ids_monotone(after_gap.last_emitted, later),
    ensures
        forall|i: int| 0 <= i < later.len() ==> #[trigger] later[i].id >= at_gap.book.sequence_id,
{
    assert forall|i: int| 0 <= i < later.len() implies #[trigger] later[i].id >= at_gap.book.sequence_id by {
        assert(may_emit(after_gap.last_emitted, later[i].id));
    }
}

/// Top-N synchronisation: every message replaces the book; the first one
/// makes it Ready.
pub struct LevelSync {
    pub book: BookLadder,
    pub ready: bool,
    pub last_emitted: Option<i64>,
}

impl LevelSync {
    pub open spec fn wf(&self) -> bool {
        &&& self.book.wf()
        &&& self.ready ==> (self.last_emitted matches Some(w) && w >= self.book.sequence_id)
    }

    pub fn new() -> (r: LevelSync)
        ensures
            r.wf(),
            !r.ready,
            r.last_emitted.is_none(),
            r.book.bids.map() == Map::<u64, u64>::empty(),
            r.book.asks.map() == Map::<u64, u64>::empty(),
            r.book.sequence_id == 0,
    {
        LevelSync { book: BookLadder::new(), ready: false, last_emitted: None }
    }

    /// Replaces the book with a top-N message and publishes it unless its id
    /// is below the last one emitted.
    pub fn on_level_event(&mut self, l: &LevelEvent, now: i64) -> (r: Option<Depth>)
        requires
            old(self).wf(),
        ensures
            final(self).wf(),
            final(self).ready,
            final(self).book.bids.map() == apply_rows(Map::empty(), l.bids@),
            final(self).book.asks.map() == apply_rows(Map::empty(), l.asks@),
            final(self).book.sequence_id == l.last_update_id,
            final(self).book.venue_ts == l.event_time,
            final(self).book.local_ts == stamp(now, l.event_time),
            r.is_some() == may_emit(old(self).last_emitted, l.last_update_id),
            r matches Some(d) ==> depth_wf(d) && exports(d, final(self).book)
                && final(self).last_emitted == Some(d.id),
            r.is_none() ==> final(self).last_emitted == old(self).last_emitted,
    {
        self.book.set_from_level_event(l, now);
        self.ready = true;
        let allowed = match self.last_emitted {
            None => true,
            Some(w) => l.last_update_id >= w,
        };
        if allowed {
            self.last_emitted = Some(l.last_update_id);
            Some(self.book.export_depth())
        } else {
            None
        }
    }

    /// The current depth once the first message has arrived, else `None`.
    pub fn latest_depth(&self) -> (r: Option<Depth>)
        requires
            self.wf(),
        ensures
            r.is_some() == self.ready,
            r matches Some(d) ==> depth_wf(d) && exports(d, self.book),
    {
        if self.ready {
            Some(self.book.export_depth())
        } else {
            None
        }
    }
}

} // verus!
