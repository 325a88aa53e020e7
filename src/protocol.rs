//! The sequence algebra that each product class defines over incremental
//! depth events: `behind`, `matches`, `ahead` and `continues`.
use vstd::prelude::*;

verus! {

/// Product class of a subscription; it decides the sequence rules.
#[derive(Clone, Copy, Debug, PartialEq, Eq, Structural)]
pub enum ProductClass {
    Spot,
    LinearPerp,
    InversePerp,
}

/// The sequence header of an incremental event: first and last update id
/// covered, and (inverse perpetuals only) the last id of the previous event.
#[derive(Clone, Copy, Debug, PartialEq, Eq, Structural)]
pub struct SeqHeader {
    pub first_update_id: i64,
    pub last_update_id: i64,
    pub prev_last_update_id: i64,
}

impl SeqHeader {
    /// A header covers a non-empty id range.
    pub open spec fn wf(&self) -> bool {
        self.first_update_id <= self.last_update_id
    }
}

/// The event is already covered by a snapshot whose id is `s`.
pub open spec fn spec_behind(class: ProductClass, h: SeqHeader, s: int) -> bool {
    match class {
        ProductClass::InversePerp => h.last_update_id < s,
        _ => h.last_update_id <= s,
    }
}

/// The event straddles snapshot `s` and may be the first live event.
pub open spec fn spec_matches(class: ProductClass, h: SeqHeader, s: int) -> bool {
    match class {
        ProductClass::InversePerp => h.first_update_id <= s && s <= h.last_update_id,
        _ => h.first_update_id <= s + 1 && s + 1 <= h.last_update_id,
    }
}

/// The event lies beyond snapshot `s`: the snapshot is stale.
pub open spec fn spec_ahead(class: ProductClass, h: SeqHeader, s: int) -> bool {
    match class {
        ProductClass::InversePerp => h.first_update_id > s,
        _ => h.first_update_id > s + 1,
    }
}

/// The event follows cleanly an event whose last id was `p`.
pub open spec fn spec_continues(class: ProductClass, h: SeqHeader, p: int) -> bool {
    match class {
        ProductClass::InversePerp => h.prev_last_update_id == p,
        _ => h.first_update_id == p + 1,
    }
}

impl ProductClass {
    pub fn behind(&self, h: &SeqHeader, s: i64) -> (r: bool)
        ensures
            r == spec_behind(*self, *h, s as int),
    {
        match self {
            ProductClass::InversePerp => h.last_update_id < s,
            _ => h.last_update_id <= s,
        }
    }

    pub fn matches(&self, h: &SeqHeader, s: i64) -> (r: bool)
        ensures
            r == spec_matches(*self, *h, s as int),
    {
        match self {
            ProductClass::InversePerp => h.first_update_id <= s && s <= h.last_update_id,
            _ => {
                let next = s as i128 + 1;
                (h.first_update_id as i128) <= next && next <= (h.last_update_id as i128)
            },
        }
    }

    pub fn ahead(&self, h: &SeqHeader, s: i64) -> (r: bool)
        ensures
            r == spec_ahead(*self, *h, s as int),
    {
        match self {
            ProductClass::InversePerp => h.first_update_id > s,
            _ => (h.first_update_id as i128) > s as i128 + 1,
        }
    }

    pub fn continues(&self, h: &SeqHeader, p: i64) -> (r: bool)
        ensures
            r == spec_continues(*self, *h, p as int),
    {
        match self {
            ProductClass::InversePerp => h.prev_last_update_id == p,
            _ => h.first_update_id as i128 == p as i128 + 1,
        }
    }
}

/// For every snapshot id and every well-formed event, exactly one of
/// `behind`, `matches` and `ahead` holds.
pub proof fn lemma_trichotomy(class: ProductClass, h: SeqHeader, s: int)
    requires
        h.wf(),
    ensures
        spec_behind(class, h, s) || spec_matches(class, h, s) || spec_ahead(class, h, s),
        !(spec_behind(class, h, s) && spec_matches(class, h, s)),
        !(spec_behind(class, h, s) && spec_ahead(class, h, s)),
        !(spec_matches(class, h, s) && spec_ahead(class, h, s)),
{
}

/// An event that continues the previous id `p` is neither behind nor ahead of
/// `p`. On inverse perpetuals the continuation is read from the previous-id
/// field alone, so the law is stated for events whose range reaches `p`.
pub proof fn lemma_continues_is_current(class: ProductClass, h: SeqHeader, p: int)
    requires
        h.wf(),
        spec_continues(class, h, p),
        class == ProductClass::InversePerp ==> h.first_update_id <= p <= h.last_update_id,
    ensures
        !spec_behind(class, h, p),
        !spec_ahead(class, h, p),
{
}

} // verus!
