//! One side of a price ladder: price levels kept in strictly ascending price
//! order with positive sizes, read as a map from price to size.
use vstd::prelude::*;

verus! {

/// A price level. Prices and sizes are fixed-point integers (see `decimal`).
#[derive(Clone, Copy, Debug, PartialEq, Eq, Structural)]
pub struct Quote {
    pub price: u64,
    pub amount: u64,
}

/// A row of a depth message; the same shape as a ladder level.
pub type DepthRow = Quote;

/// Prices strictly increase along the sequence.
pub open spec fn ascending(s: Seq<Quote>) -> bool {
    forall|i: int, j: int| 0 <= i < j < s.len() ==> s[i].price < s[j].price
}

/// Prices strictly decrease along the sequence.
pub open spec fn descending(s: Seq<Quote>) -> bool {
    forall|i: int, j: int| 0 <= i < j < s.len() ==> s[i].price > s[j].price
}

/// Every level carries a positive size.
pub open spec fn positive(s: Seq<Quote>) -> bool {
    forall|i: int| 0 <= i < s.len() ==> s[i].amount > 0
}

pub open spec fn has_price(s: Seq<Quote>, p: u64) -> bool {
    exists|i: int| 0 <= i < s.len() && s[i].price == p
}

/// The price-to-size map that a sequence of levels stands for.
pub open spec fn levels_map(s: Seq<Quote>) -> Map<u64, u64> {
    Map::new(
        |p: u64| has_price(s, p),
        |p: u64| s[choose|i: int| 0 <= i < s.len() && s[i].price == p].amount,
    )
}

/// The effect of one delta row on a price map: a zero size removes the
/// price, any other size sets it.
pub open spec fn apply_row(m: Map<u64, u64>, q: Quote) -> Map<u64, u64> {
    if q.amount == 0 {
        m.remove(q.price)
    } else {
        m.insert(q.price, q.amount)
    }
}

/// The effect of a sequence of delta rows, applied in order.
pub open spec fn apply_rows(m: Map<u64, u64>, rows: Seq<Quote>) -> Map<u64, u64>
    decreases rows.len(),
{
    if rows.len() == 0 {
        m
    } else {
        apply_row(apply_rows(m, rows.drop_last()), rows.last())
    }
}

/// In an ascending sequence the map gives each level's own size.
pub proof fn lemma_levels_map_at(s: Seq<Quote>, i: int)
    requires
        ascending(s),
        0 <= i < s.len(),
    ensures
        levels_map(s).contains_key(s[i].price),
        levels_map(s)[s[i].price] == s[i].amount,
{
    let p = s[i].price;
    assert(has_price(s, p));
    let j = choose|j: int| 0 <= j < s.len() && s[j].price == p;
    if j < i {
        assert(s[j].price < s[i].price);
    } else if j > i {
        assert(s[i].price < s[j].price);
    }
}

/// Two ascending sequences that hold the same levels stand for the same map
/// as described by `m`.
proof fn lemma_levels_map_ext(t: Seq<Quote>, m: Map<u64, u64>)
    requires
        ascending(t),
        forall|k: u64| m.contains_key(k) <==> has_price(t, k),
        forall|i: int| 0 <= i < t.len() ==> m[t[i].price] == t[i].amount,
    ensures
        levels_map(t) == m,
{
    assert forall|k: u64| #[trigger] levels_map(t).contains_key(k) implies levels_map(t)[k] == m[k] by {
        let j = choose|j: int| 0 <= j < t.len() && t[j].price == k;
        lemma_levels_map_at(t, j);
    }
    assert(levels_map(t) =~= m);
}

/// One side of a book, kept ascending by price.
pub struct Ladder {
    levels: Vec<Quote>,
}

impl View for Ladder {
    type V = Seq<Quote>;

    closed spec fn view(&self) -> Seq<Quote> {
        self.levels@
    }
}

impl Ladder {
    pub open spec fn wf(&self) -> bool {
        ascending(self@) && positive(self@)
    }

    pub open spec fn map(&self) -> Map<u64, u64> {
        levels_map(self@)
    }

    pub fn new() -> (r: Ladder)
        ensures
            r.wf(),
            r@.len() == 0,
            r.map() == Map::<u64, u64>::empty(),
    {
        let r = Ladder { levels: Vec::new() };
        assert(r.map() =~= Map::<u64, u64>::empty());
        r
    }

    pub fn clear(&mut self)
        ensures
            final(self).wf(),
            final(self)@.len() == 0,
            final(self).map() == Map::<u64, u64>::empty(),
    {
        self.levels = Vec::new();
        assert(self.map() =~= Map::<u64, u64>::empty());
    }

    pub fn len(&self) -> (r: usize)
        ensures
            r == self@.len(),
    {
        self.levels.len()
    }

    /// The levels in ascending price order.
    pub fn ascending_levels(&self) -> (r: Vec<Quote>)
        ensures
            r@ == self@,
    {
        self.levels.clone()
    }

    /// The levels in descending price order.
    pub fn descending_levels(&self) -> (r: Vec<Quote>)
        requires
            self.wf(),
        ensures
            r@ == self@.reverse(),
            descending(r@),
            positive(r@),
    {
        let n = self.levels.len();
        let mut r: Vec<Quote> = Vec::with_capacity(n);
        let mut k: usize = 0;
        while k < n
            invariant
                n == self@.len(),
                k <= n,
                r@.len() == k,
                forall|j: int| 0 <= j < k ==> r@[j] == self@[n - 1 - j],
            decreases n - k,
        {
            r.push(self.levels[n - 1 - k]);
            k = k + 1;
        }
        assert(r@ =~= self@.reverse());
        r
    }

    /// Applies one delta row: a zero size removes the price, any other size
    /// inserts or overwrites it.
    pub fn apply(&mut self, q: Quote)
        requires
            old(self).wf(),
        ensures
            final(self).wf(),
            final(self).map() == apply_row(old(self).map(), q),
    {
        let ghost s = self@;
        let n = self.levels.len();
        let mut i: usize = 0;
        while i < n && self.levels[i].price < q.price
            invariant
                n == self@.len(),
                s == self@,
                i <= n,
                forall|j: int| 0 <= j < i ==> s[j].price < q.price,
            decreases n - i,
        {
            i = i + 1;
        }
        assert(forall|j: int| i <= j < n ==> s[j].price >= q.price) by {
            assert forall|j: int| i <= j < n implies s[j].price >= q.price by {
                if j > i {
                    assert(s[i as int].price < s[j].price);
                }
            }
        }
        let ghost expected = apply_row(levels_map(s), q);
        if i < n && self.levels[i].price == q.price {
            if q.amount == 0 {
                self.levels.remove(i);
                let ghost t = self@;
                assert(t =~= s.remove(i as int));
                assert forall|k: u64| expected.contains_key(k) <==> has_price(t, k) by {
                    if has_price(t, k) {
                        let j = choose|j: int| 0 <= j < t.len() && t[j].price == k;
                        if j < i {
                            assert(s[j].price == k);
                        } else {
                            assert(s[j + 1].price == k);
                        }
                    }
                    if expected.contains_key(k) {
                        let j = choose|j: int| 0 <= j < s.len() && s[j].price == k;
                        if j < i {
                            assert(t[j].price == k);
                        } else if j > i {
                            assert(t[j - 1].price == k);
                        }
                    }
                }
                assert forall|j: int| 0 <= j < t.len() implies expected[t[j].price] == t[j].amount by {
                    if j < i {
                        lemma_levels_map_at(s, j);
                    } else {
                        lemma_levels_map_at(s, j + 1);
                    }
                }
                proof { lemma_levels_map_ext(t, expected); }
            } else {
                self.levels.set(i, q);
                let ghost t = self@;
                assert forall|k: u64| expected.contains_key(k) <==> has_price(t, k) by {
                    if has_price(t, k) {
                        let j = choose|j: int| 0 <= j < t.len() && t[j].price == k;
                        assert(s[j].price == k);
                    }
                    if expected.contains_key(k) && k != q.price {
                        let j = choose|j: int| 0 <= j < s.len() && s[j].price == k;
                        assert(t[j].price == k);
                    }
                    if k == q.price {
                        assert(t[i as int].price == k);
                    }
                }
                assert forall|j: int| 0 <= j < t.len() implies expected[t[j].price] == t[j].amount by {
                    if j != i {
                        lemma_levels_map_at(s, j);
                    }
                }
                proof { lemma_levels_map_ext(t, expected); }
            }
        } else if q.amount != 0 {
            self.levels.insert(i, q);
            let ghost t = self@;
            assert(t =~= s.insert(i as int, q));
            assert forall|k: u64| expected.contains_key(k) <==> has_price(t, k) by {
                if has_price(t, k) {
                    let j = choose|j: int| 0 <= j < t.len() && t[j].price == k;
                    if j < i {
                        assert(s[j].price == k);
                    } else if j > i {
                        assert(s[j - 1].price == k);
                    }
                }
                if expected.contains_key(k) && k != q.price {
                    let j = choose|j: int| 0 <= j < s.len() && s[j].price == k;
                    if j < i {
                        assert(t[j].price == k);
                    } else {
                        assert(t[j + 1].price == k);
                    }
                }
                if k == q.price {
                    assert(t[i as int].price == k);
                }
            }
            assert forall|j: int| 0 <= j < t.len() implies expected[t[j].price] == t[j].amount by {
                if j < i {
                    lemma_levels_map_at(s, j);
                } else if j > i {
                    lemma_levels_map_at(s, j - 1);
                }
            }
            proof { lemma_levels_map_ext(t, expected); }
        } else {
            assert(!has_price(s, q.price)) by {
                if has_price(s, q.price) {
                    let j = choose|j: int| 0 <= j < s.len() && s[j].price == q.price;
                    if j >= i && i < n {
                        assert(s[i as int].price <= s[j].price);
                        if j > i {
                            assert(s[i as int].price < s[j].price);
                        }
                    }
                }
            }
            assert(expected =~= levels_map(s));
        }
    }

    /// Applies delta rows in order.
    pub fn apply_all(&mut self, rows: &Vec<Quote>)
        requires
            old(self).wf(),
        ensures
            final(self).wf(),
            final(self).map() == apply_rows(old(self).map(), rows@),
    {
        let ghost m0 = self.map();
        let mut i: usize = 0;
        while i < rows.len()
            invariant
                self.wf(),
                i <= rows@.len(),
                self.map() == apply_rows(m0, rows@.subrange(0, i as int)),
            decreases rows@.len() - i,
        {
            self.apply(rows[i]);
            assert(rows@.subrange(0, i + 1).drop_last() =~= rows@.subrange(0, i as int));
            i = i + 1;
        }
        assert(rows@.subrange(0, rows@.len() as int) =~= rows@);
    }
}

} // verus!
