//! Text frames of the Crypto.com market stream: the subscribe request, the
//! heartbeat reply, and the classification of inbound frames.
use vstd::prelude::*;
use crate::book::LevelEvent;
use crate::ladder::Quote;
use crate::text::{decimal_text, i64_text, text_eq};

verus! {

/// What serde_json writes for a JSON string holding the text: the quoted
/// literal with its escapes.
pub uninterp spec fn json_string_of(s: Seq<char>) -> Seq<char>;

/// Relies on serde_json's `Display` for `Value::String`: the compact JSON
/// text of a string value, quotes included.
#[verifier::external_body]
fn json_string(s: &str) -> (r: String)
    ensures
        r@ == json_string_of(s@),
{
    serde_json::Value::String(s.to_string()).to_string()
}

/// The subscription channel of an instrument's book.
pub fn book_channel(instrument: &str) -> (r: String)
    ensures
        r@ == "book."@ + instrument@,
{
    let mut r = String::from_str("book.");
    r.append(instrument);
    r
}

/// The subscription channel of an instrument's trades.
pub fn trade_channel(instrument: &str) -> (r: String)
    ensures
        r@ == "trade."@ + instrument@,
{
    let mut r = String::from_str("trade.");
    r.append(instrument);
    r
}

/// The subscribe request for one channel.
pub open spec fn subscribe_text(channel: Seq<char>) -> Seq<char> {
    "{\"id\":1,\"method\":\"subscribe\",\"params\":{\"channels\":["@ + json_string_of(channel)
        + "]}}"@
}

/// The subscribe request for one channel, as sent right after connecting.
pub fn subscribe_message(channel: String) -> (r: String)
    ensures
        r@ == subscribe_text(channel@),
{
    let quoted = json_string(channel.as_str());
    subscribe_frame(quoted.as_str())
}

/// The subscribe request around a channel already written as a JSON string.
pub fn subscribe_frame(quoted_channel: &str) -> (r: String)
    ensures
        r@ == "{\"id\":1,\"method\":\"subscribe\",\"params\":{\"channels\":["@ + quoted_channel@
            + "]}}"@,
{
    let mut r = String::from_str("{\"id\":1,\"method\":\"subscribe\",\"params\":{\"channels\":[");
    r.append(quoted_channel);
    r.append("]}}");
    r
}

/// The reply to a heartbeat with id `id`.
pub open spec fn heartbeat_text(id: int) -> Seq<char> {
    "{\"id\":"@ + decimal_text(id) + ",\"method\":\"public/respond-heartbeat\"}"@
}

/// The reply to a heartbeat: the same id, with the respond method.
pub fn heartbeat_respond(id: i64) -> (r: String)
    ensures
        r@ == heartbeat_text(id as int),
{
    let mut r = String::from_str("{\"id\":");
    let digits = i64_text(id);
    r.append(digits.as_str());
    r.append(",\"method\":\"public/respond-heartbeat\"}");
    r
}

/// What an inbound frame is, read from its `method` and `id`.
#[derive(Clone, Copy, Debug, PartialEq, Eq, Structural)]
pub enum FrameKind {
    /// A heartbeat to be answered on the same connection.
    Heartbeat,
    /// The confirmation of the subscribe request.
    SubscribeAck,
    /// A data frame of the subscribed channel.
    Data,
    /// Anything else: a protocol error.
    Unknown,
}

pub open spec fn spec_frame_kind(method: Seq<char>, id: i64) -> FrameKind {
    if method == "public/heartbeat"@ {
        FrameKind::Heartbeat
    } else if method == "subscribe"@ && id == 1 {
        FrameKind::SubscribeAck
    } else if method == "subscribe"@ && id == -1 {
        FrameKind::Data
    } else {
        FrameKind::Unknown
    }
}

pub fn classify_frame(method: &str, id: i64) -> (r: FrameKind)
    ensures
        r == spec_frame_kind(method@, id),
{
    if text_eq(method, "public/heartbeat") {
        FrameKind::Heartbeat
    } else if text_eq(method, "subscribe") {
        if id == 1 {
            FrameKind::SubscribeAck
        } else if id == -1 {
            FrameKind::Data
        } else {
            FrameKind::Unknown
        }
    } else {
        FrameKind::Unknown
    }
}

/// One entry of a Crypto.com book frame.
#[derive(Clone, Debug)]
pub struct BookEntry {
    pub publish_time: i64,
    pub update_id: i64,
    pub bids: Vec<Quote>,
    pub asks: Vec<Quote>,
}

pub open spec fn entries_bids(es: Seq<BookEntry>) -> Seq<Quote>
    decreases es.len(),
{
    if es.len() == 0 {
        Seq::empty()
    } else {
        entries_bids(es.drop_last()) + es.last().bids@
    }
}

pub open spec fn entries_asks(es: Seq<BookEntry>) -> Seq<Quote>
    decreases es.len(),
{
    if es.len() == 0 {
        Seq::empty()
    } else {
        entries_asks(es.drop_last()) + es.last().asks@
    }
}

pub open spec fn time_sum(es: Seq<BookEntry>) -> int
    decreases es.len(),
{
    if es.len() == 0 {
        0
    } else {
        time_sum(es.drop_last()) + es.last().publish_time
    }
}

/// Integer division rounding toward zero.
pub open spec fn div_toward_zero(x: int, n: nat) -> int {
    if x >= 0 {
        x / (n as int)
    } else {
        -((-x) / (n as int))
    }
}

proof fn lemma_quotient_bound(x: nat, n: nat, m: nat)
    requires
        n > 0,
        x <= n * m,
    ensures
        x / n <= m,
{
    assert(x / n <= m) by (nonlinear_arith)
        requires
            n > 0,
            x <= n * m,
    ;
}

fn extend_rows(out: &mut Vec<Quote>, rows: &Vec<Quote>)
    ensures
        final(out)@ == old(out)@ + rows@,
{
    let mut i: usize = 0;
    while i < rows.len()
        invariant
            i <= rows@.len(),
            out@ == old(out)@ + rows@.subrange(0, i as int),
        decreases rows@.len() - i,
    {
        out.push(rows[i]);
        assert(out@ =~= old(out)@ + rows@.subrange(0, i + 1));
        i = i + 1;
    }
    assert(rows@.subrange(0, rows@.len() as int) =~= rows@);
}

/// Merges the entries of one book frame into one replacement: the rows of
/// all entries in order, the last entry's update id, and the mean publish
/// time (rounded toward zero). `None` for a frame without entries.
pub fn merge_book_entries(entries: &Vec<BookEntry>) -> (r: Option<LevelEvent>)
    ensures
        entries@.len() == 0 ==> r.is_none(),
        entries@.len() > 0 ==> (r matches Some(l) && l.bids@ == entries_bids(entries@) && l.asks@
            == entries_asks(entries@) && l.last_update_id == entries@.last().update_id
            && l.event_time as int == div_toward_zero(time_sum(entries@), entries@.len())),
{
    let n = entries.len();
    if n == 0 {
        return None;
    }
    let mut bids: Vec<Quote> = Vec::new();
    let mut asks: Vec<Quote> = Vec::new();
    let mut sum: i128 = 0;
    let mut k: usize = 0;
    while k < n
        invariant
            n == entries@.len(),
            k <= n,
            bids@ == entries_bids(entries@.subrange(0, k as int)),
            asks@ == entries_asks(entries@.subrange(0, k as int)),
            sum as int == time_sum(entries@.subrange(0, k as int)),
            -(k * 0x8000_0000_0000_0000) <= sum <= k * 0x7fff_ffff_ffff_ffff,
        decreases n - k,
    {
        let ghost pre = entries@.subrange(0, k as int);
        assert(entries@.subrange(0, k + 1).drop_last() =~= pre);
        extend_rows(&mut bids, &entries[k].bids);
        extend_rows(&mut asks, &entries[k].asks);
        sum = sum + entries[k].publish_time as i128;
        k = k + 1;
    }
    assert(entries@.subrange(0, n as int) =~= entries@);
    let count = n as u128;
    let mean: i128 = if sum >= 0 {
        proof {
            lemma_quotient_bound(sum as nat, n as nat, 0x7fff_ffff_ffff_ffff);
        }
        ((sum as u128) / count) as i128
    } else {
        proof {
            lemma_quotient_bound((-sum) as nat, n as nat, 0x8000_0000_0000_0000);
        }
        -(((-sum) as u128 / count) as i128)
    };
    Some(LevelEvent {
        last_update_id: entries[n - 1].update_id,
        event_time: mean as i64,
        bids,
        asks,
    })
}

} // verus!
