//! One market's order book: two sides of price levels, rebuilt from a
//! snapshot and kept current by deltas that must arrive in sequence.

use vstd::prelude::*;
use super::responses::KalshiSide;
use crate::assoc::{
    assoc_map, lemma_assoc_at, lemma_assoc_insert, lemma_assoc_len,
    lemma_assoc_remove, lemma_assoc_update,
};

verus! {

/// Strictly rising prices.
pub open spec fn ascending(s: Seq<(u32, i64)>) -> bool {
    forall|i: int, j: int| 0 <= i < j < s.len() ==> (#[trigger] s[i]).0 < (#[trigger] s[j]).0
}

/// Strictly falling prices.
pub open spec fn descending(s: Seq<(u32, i64)>) -> bool {
    forall|i: int, j: int| 0 <= i < j < s.len() ==> (#[trigger] s[i]).0 > (#[trigger] s[j]).0
}

/// `s` holds each level of `m` and nothing else.
pub open spec fn lists(s: Seq<(u32, i64)>, m: Map<u32, i64>) -> bool {
    &&& forall|i: int| 0 <= i < s.len() ==> m.contains_pair((#[trigger] s[i]).0, s[i].1)
    &&& forall|p: u32|
        m.dom().contains(p) ==> exists|i: int| 0 <= i < s.len() && (#[trigger] s[i]).0 == p
}

/// The resting quantity at a price: zero where the price has no level.
pub open spec fn quantity_at(m: Map<u32, i64>, price: u32) -> i64 {
    if m.dom().contains(price) {
        m[price]
    } else {
        0
    }
}

/// The mapping with the level at `price` set to `quantity`; a level of
/// quantity zero does not exist.
pub open spec fn with_level(m: Map<u32, i64>, price: u32, quantity: i64) -> Map<u32, i64> {
    if quantity == 0 {
        m.remove(price)
    } else {
        m.insert(price, quantity)
    }
}

proof fn lemma_ascending_insert(s: Seq<(u32, i64)>, k: int, price: u32, quantity: i64)
    requires
        ascending(s),
        0 <= k <= s.len(),
        forall|i: int| 0 <= i < k ==> (#[trigger] s[i]).0 < price,
        forall|i: int| k <= i < s.len() ==> (#[trigger] s[i]).0 > price,
    ensures
        ascending(s.insert(k, (price, quantity))),
{
    let t = s.insert(k, (price, quantity));
    assert forall|i: int, j: int| 0 <= i < j < t.len() implies
        (#[trigger] t[i]).0 < (#[trigger] t[j]).0 by {
        let a = if i < k { s[i] } else if i == k { (price, quantity) } else { s[i - 1] };
        let b = if j < k { s[j] } else if j == k { (price, quantity) } else { s[j - 1] };
        assert(t[i] == a);
        assert(t[j] == b);
    }
}

proof fn lemma_ascending_update(s: Seq<(u32, i64)>, k: int, quantity: i64)
    requires
        ascending(s),
        0 <= k < s.len(),
    ensures
        ascending(s.update(k, (s[k].0, quantity))),
{
    let t = s.update(k, (s[k].0, quantity));
    assert forall|i: int, j: int| 0 <= i < j < t.len() implies
        (#[trigger] t[i]).0 < (#[trigger] t[j]).0 by {
        assert(t[i].0 == s[i].0);
        assert(t[j].0 == s[j].0);
    }
}

proof fn lemma_ascending_remove(s: Seq<(u32, i64)>, k: int)
    requires
        ascending(s),
        0 <= k < s.len(),
    ensures
        ascending(s.remove(k)),
{
    let t = s.remove(k);
    assert forall|i: int, j: int| 0 <= i < j < t.len() implies
        (#[trigger] t[i]).0 < (#[trigger] t[j]).0 by {
        let a = if i < k { s[i] } else { s[i + 1] };
        let b = if j < k { s[j] } else { s[j + 1] };
        assert(t[i] == a);
        assert(t[j] == b);
    }
}

/// One side of a book: its price levels, each with a positive quantity.
#[derive(Debug)]
pub struct BookSide {
    levels: Vec<(u32, i64)>,
}

impl View for BookSide {
    type V = Map<u32, i64>;

    closed spec fn view(&self) -> Map<u32, i64> {
        assoc_map(self.levels@)
    }
}

impl BookSide {
    /// The levels are kept in rising order of price, and none is empty.
    pub closed spec fn wf(&self) -> bool {
        &&& ascending(self.levels@)
        &&& forall|i: int| 0 <= i < self.levels@.len() ==> (#[trigger] self.levels@[i]).1 > 0
    }

    /// Every level of a well-formed side has a positive quantity.
    pub proof fn lemma_quantities_positive(&self)
        requires
            self.wf(),
        ensures
            forall|p: u32| self@.dom().contains(p) ==> #[trigger] self@[p] > 0,
    {
        assert forall|p: u32| self@.dom().contains(p) implies #[trigger] self@[p] > 0 by {
            let i = choose|i: int|
                0 <= i < self.levels@.len() && (#[trigger] self.levels@[i]).0 == p;
            lemma_assoc_at(self.levels@, i);
        }
    }

    /// A side without levels.
    pub fn new() -> (side: BookSide)
        ensures
            side.wf(),
            side@ == Map::<u32, i64>::empty(),
    {
        let side = BookSide { levels: Vec::new() };
        assert(side@ =~= Map::<u32, i64>::empty());
        side
    }

    /// The number of price levels.
    pub fn len(&self) -> (n: usize)
        requires
            self.wf(),
        ensures
            n == self@.dom().len(),
            self@.dom().finite(),
    {
        proof {
            self.lemma_dom_len();
        }
        self.levels.len()
    }

    proof fn lemma_dom_len(&self)
        requires
            self.wf(),
        ensures
            self@.dom().finite(),
            self@.dom().len() == self.levels@.len(),
    {
        lemma_assoc_len(self.levels@);
    }

    /// The first position whose price is not below `price`.
    fn position(&self, price: u32) -> (k: usize)
        requires
            self.wf(),
        ensures
            k <= self.levels@.len(),
            forall|i: int| 0 <= i < k ==> (#[trigger] self.levels@[i]).0 < price,
            forall|i: int| k <= i < self.levels@.len() ==> (#[trigger] self.levels@[i]).0 >= price,
    {
        let mut low: usize = 0;
        let mut high: usize = self.levels.len();
        while low < high
            invariant
                self.wf(),
                low <= high <= self.levels@.len(),
                forall|i: int| 0 <= i < low ==> (#[trigger] self.levels@[i]).0 < price,
                forall|i: int|
                    high <= i < self.levels@.len() ==> (#[trigger] self.levels@[i]).0 >= price,
            decreases high - low,
        {
            let mid: usize = low + (high - low) / 2;
            if self.levels[mid].0 < price {
                assert forall|i: int| 0 <= i < mid + 1 implies
                    (#[trigger] self.levels@[i]).0 < price by {
                    if i < mid {
                        assert(self.levels@[i].0 < self.levels@[mid as int].0);
                    }
                }
                low = mid + 1;
            } else {
                assert forall|i: int| mid <= i < self.levels@.len() implies
                    (#[trigger] self.levels@[i]).0 >= price by {
                    if mid < i {
                        assert(self.levels@[mid as int].0 < self.levels@[i].0);
                    }
                }
                high = mid;
            }
        }
        low
    }

    /// The resting quantity at `price`, zero where there is no such level.
    pub fn quantity(&self, price: u32) -> (q: i64)
        requires
            self.wf(),
        ensures
            q == quantity_at(self@, price),
            q >= 0,
    {
        let k = self.position(price);
        if k < self.levels.len() && self.levels[k].0 == price {
            proof {
                lemma_assoc_at(self.levels@, k as int);
            }
            self.levels[k].1
        } else {
            proof {
                if self@.dom().contains(price) {
                    let i = choose|i: int|
                        0 <= i < self.levels@.len() && (#[trigger] self.levels@[i]).0 == price;
                    assert(self.levels@[i].0 == price);
                }
            }
            0
        }
    }

    /// Sets the level at `price` to `quantity`; zero removes the level.
    pub fn set(&mut self, price: u32, quantity: i64)
        requires
            old(self).wf(),
            quantity >= 0,
        ensures
            final(self).wf(),
            final(self)@ == with_level(old(self)@, price, quantity),
    {
        let k = self.position(price);
        let present = k < self.levels.len() && self.levels[k].0 == price;
        let ghost before = self.levels@;
        if present {
            if quantity == 0 {
                proof {
                    lemma_assoc_remove(before, k as int);
                    lemma_ascending_remove(before, k as int);
                }
                self.levels.remove(k);
            } else {
                proof {
                    lemma_assoc_update(before, k as int, quantity);
                    lemma_ascending_update(before, k as int, quantity);
                }
                self.levels.set(k, (price, quantity));
            }
        } else {
            proof {
                if assoc_map(before).dom().contains(price) {
                    let i = choose|i: int|
                        0 <= i < before.len() && (#[trigger] before[i]).0 == price;
                    assert(before[i].0 == price);
                }
            }
            if quantity == 0 {
                assert(assoc_map(before).remove(price) =~= assoc_map(before));
            } else {
                proof {
                    lemma_assoc_insert(before, k as int, price, quantity);
                    lemma_ascending_insert(before, k as int, price, quantity);
                }
                self.levels.insert(k, (price, quantity));
            }
        }
    }

    /// The levels by rising price.
    pub fn ascending(&self) -> (out: Vec<(u32, i64)>)
        requires
            self.wf(),
        ensures
            ascending(out@),
            lists(out@, self@),
    {
        let mut out: Vec<(u32, i64)> = Vec::new();
        let mut i: usize = 0;
        while i < self.levels.len()
            invariant
                i <= self.levels@.len(),
                out@ == self.levels@.take(i as int),
            decreases self.levels@.len() - i,
        {
            out.push(self.levels[i]);
            assert(out@ =~= self.levels@.take(i + 1));
            i += 1;
        }
        assert(out@ =~= self.levels@);
        proof {
            lemma_lists(self.levels@);
        }
        out
    }

    /// The levels by falling price.
    pub fn descending(&self) -> (out: Vec<(u32, i64)>)
        requires
            self.wf(),
        ensures
            descending(out@),
            lists(out@, self@),
    {
        let n = self.levels.len();
        let mut out: Vec<(u32, i64)> = Vec::new();
        let mut i: usize = 0;
        while i < n
            invariant
                n == self.levels@.len(),
                i <= n,
                out@.len() == i,
                forall|j: int| 0 <= j < i ==> #[trigger] out@[j] == self.levels@[n - 1 - j],
            decreases n - i,
        {
            out.push(self.levels[n - 1 - i]);
            i += 1;
        }
        proof {
            lemma_lists(self.levels@);
            let s = self.levels@;
            assert forall|a: int, b: int| 0 <= a < b < out@.len() implies
                (#[trigger] out@[a]).0 > (#[trigger] out@[b]).0 by {
                assert(s[n - 1 - b].0 < s[n - 1 - a].0);
            }
            assert forall|p: u32| self@.dom().contains(p) implies
                exists|j: int| 0 <= j < out@.len() && (#[trigger] out@[j]).0 == p by {
                let k = choose|k: int| 0 <= k < s.len() && (#[trigger] s[k]).0 == p;
                assert(out@[n - 1 - k] == s[k]);
            }
            assert forall|j: int| 0 <= j < out@.len() implies
                self@.contains_pair((#[trigger] out@[j]).0, out@[j].1) by {
                assert(out@[j] == s[n - 1 - j]);
                assert(self@.contains_pair(s[n - 1 - j].0, s[n - 1 - j].1));
            }
        }
        out
    }
}

proof fn lemma_lists(s: Seq<(u32, i64)>)
    requires
        ascending(s),
    ensures
        lists(s, assoc_map(s)),
{
    assert forall|i: int| 0 <= i < s.len() implies
        assoc_map(s).contains_pair((#[trigger] s[i]).0, s[i].1) by {
        lemma_assoc_at(s, i);
    }
}

/// What a level can hold at most after the message with sequence number
/// `seq`: each message adds no more than the wire's largest quantity.
pub open spec fn quantity_bound(seq: u32) -> int {
    2147483647 * (seq + 1)
}

/// One change of one price level, with its place in the sequence.
#[derive(Debug, Clone, Copy)]
pub struct BookDelta {
    pub seq: u32,
    pub side: KalshiSide,
    pub price: u32,
    pub delta: i32,
}

/// Why a book can no longer be trusted and a fresh snapshot is needed.
#[derive(Debug, Clone, Copy, PartialEq, Eq, Structural)]
pub enum ResyncReason {
    /// The book was stale already, or has not had its snapshot yet.
    Stale,
    /// The sequence number is not the one after the last applied.
    SequenceGap,
    /// A level would hold a negative quantity.
    NegativeQuantity,
}

/// What a book is, apart from how it is stored.
pub struct BookState {
    pub yes: Map<u32, i64>,
    pub no: Map<u32, i64>,
    pub last_seq: u32,
    pub stale: bool,
}

/// The price-to-quantity mapping that the levels of a snapshot give: a later
/// level for the same price replaces an earlier one, and a level of quantity
/// zero does not exist.
pub open spec fn snapshot_levels(levels: Seq<(u32, i32)>) -> Map<u32, i64>
    decreases levels.len(),
{
    if levels.len() == 0 {
        Map::empty()
    } else {
        with_level(
            snapshot_levels(levels.drop_last()),
            levels.last().0,
            levels.last().1 as i64,
        )
    }
}

/// No level of the snapshot has a negative quantity.
pub open spec fn snapshot_acceptable(yes: Seq<(u32, i32)>, no: Seq<(u32, i32)>) -> bool {
    &&& forall|i: int| 0 <= i < yes.len() ==> (#[trigger] yes[i]).1 >= 0
    &&& forall|i: int| 0 <= i < no.len() ==> (#[trigger] no[i]).1 >= 0
}

impl BookState {
    /// A book that awaits its snapshot: no levels, and not to be used.
    pub open spec fn awaiting() -> BookState {
        BookState { yes: Map::empty(), no: Map::empty(), last_seq: 0, stale: true }
    }

    pub open spec fn side(self, side: KalshiSide) -> Map<u32, i64> {
        match side {
            KalshiSide::Yes => self.yes,
            KalshiSide::No => self.no,
        }
    }

    /// The quantity that the level of `d` would hold after `d`.
    pub open spec fn quantity_after(self, d: BookDelta) -> int {
        quantity_at(self.side(d.side), d.price) + d.delta
    }

    /// Every level holds a positive quantity, below what the deltas since
    /// sequence number zero can have added up to.
    pub open spec fn valid(self) -> bool {
        &&& forall|p: u32|
            self.yes.dom().contains(p)
                ==> 0 < #[trigger] self.yes[p] <= quantity_bound(self.last_seq)
        &&& forall|p: u32|
            self.no.dom().contains(p) ==> 0 < #[trigger] self.no[p] <= quantity_bound(self.last_seq)
    }

    /// Whether `d` is refused, and why: a stale book takes no delta, the
    /// sequence number must be the next one, and no level may go below zero.
    pub open spec fn refusal(self, d: BookDelta) -> Option<ResyncReason> {
        if self.stale {
            Some(ResyncReason::Stale)
        } else if d.seq != self.last_seq + 1 {
            Some(ResyncReason::SequenceGap)
        } else if self.quantity_after(d) < 0 {
            Some(ResyncReason::NegativeQuantity)
        } else {
            None
        }
    }

    /// The book after `d`: applied where nothing refuses it, else the same
    /// levels and sequence number, marked stale.
    pub open spec fn after_delta(self, d: BookDelta) -> BookState {
        if self.refusal(d) is Some {
            BookState { stale: true, ..self }
        } else {
            let q = self.quantity_after(d) as i64;
            match d.side {
                KalshiSide::Yes => BookState {
                    yes: with_level(self.yes, d.price, q),
                    last_seq: d.seq,
                    ..self
                },
                KalshiSide::No => BookState {
                    no: with_level(self.no, d.price, q),
                    last_seq: d.seq,
                    ..self
                },
            }
        }
    }

    /// The book after each of `deltas` in turn.
    pub open spec fn after_deltas(self, deltas: Seq<BookDelta>) -> BookState
        decreases deltas.len(),
    {
        if deltas.len() == 0 {
            self
        } else {
            self.after_deltas(deltas.drop_last()).after_delta(deltas.last())
        }
    }

    /// The book after a snapshot: the snapshot's levels and sequence number
    /// where it is acceptable, else the same book marked stale.
    pub open spec fn after_snapshot(
        self,
        seq: u32,
        yes: Seq<(u32, i32)>,
        no: Seq<(u32, i32)>,
    ) -> BookState {
        if snapshot_acceptable(yes, no) {
            BookState {
                yes: snapshot_levels(yes),
                no: snapshot_levels(no),
                last_seq: seq,
                stale: false,
            }
        } else {
            BookState { stale: true, ..self }
        }
    }
}

/// The levels of a snapshot hold positive quantities that fit the wire.
pub proof fn lemma_snapshot_levels_bounded(levels: Seq<(u32, i32)>)
    requires
        forall|i: int| 0 <= i < levels.len() ==> (#[trigger] levels[i]).1 >= 0,
    ensures
        forall|p: u32|
            snapshot_levels(levels).dom().contains(p)
                ==> 0 < #[trigger] snapshot_levels(levels)[p] <= 2147483647,
    decreases levels.len(),
{
    if levels.len() > 0 {
        let rest = levels.drop_last();
        assert forall|i: int| 0 <= i < rest.len() implies (#[trigger] rest[i]).1 >= 0 by {
            assert(rest[i] == levels[i]);
        }
        lemma_snapshot_levels_bounded(rest);
        assert forall|p: u32| snapshot_levels(levels).dom().contains(p) implies
            0 < #[trigger] snapshot_levels(levels)[p] <= 2147483647 by {
            if p != levels.last().0 {
                assert(snapshot_levels(rest).dom().contains(p));
                assert(snapshot_levels(levels)[p] == snapshot_levels(rest)[p]);
            }
        }
    }
}

/// The order book of one market.
#[derive(Debug)]
pub struct OrderBook {
    yes: BookSide,
    no: BookSide,
    last_seq: u32,
    stale: bool,
}

impl View for OrderBook {
    type V = BookState;

    closed spec fn view(&self) -> BookState {
        BookState { yes: self.yes@, no: self.no@, last_seq: self.last_seq, stale: self.stale }
    }
}

fn build_side(levels: &Vec<(u32, i32)>) -> (side: BookSide)
    requires
        forall|i: int| 0 <= i < levels@.len() ==> (#[trigger] levels@[i]).1 >= 0,
    ensures
        side.wf(),
        side@ == snapshot_levels(levels@),
{
    let mut side = BookSide::new();
    let mut i: usize = 0;
    while i < levels.len()
        invariant
            i <= levels@.len(),
            side.wf(),
            side@ == snapshot_levels(levels@.take(i as int)),
            forall|j: int| 0 <= j < levels@.len() ==> (#[trigger] levels@[j]).1 >= 0,
        decreases levels@.len() - i,
    {
        let level = levels[i];
        proof {
            let next = levels@.take(i + 1);
            assert(next.drop_last() =~= levels@.take(i as int));
            assert(next.last() == levels@[i as int]);
        }
        side.set(level.0, level.1 as i64);
        i += 1;
    }
    assert(levels@.take(i as int) =~= levels@);
    side
}

fn non_negative(levels: &Vec<(u32, i32)>) -> (ok: bool)
    ensures
        ok == forall|i: int| 0 <= i < levels@.len() ==> (#[trigger] levels@[i]).1 >= 0,
{
    let mut i: usize = 0;
    while i < levels.len()
        invariant
            i <= levels@.len(),
            forall|j: int| 0 <= j < i ==> (#[trigger] levels@[j]).1 >= 0,
        decreases levels@.len() - i,
    {
        if levels[i].1 < 0 {
            return false;
        }
        i += 1;
    }
    true
}

impl OrderBook {
    /// The sides are well formed and the state is valid.
    pub closed spec fn wf(&self) -> bool {
        &&& self.yes.wf()
        &&& self.no.wf()
        &&& self@.valid()
    }

    /// A well-formed book is in a valid state.
    pub proof fn lemma_wf_valid(&self)
        requires
            self.wf(),
        ensures
            self@.valid(),
    {
    }

    /// A book that awaits its snapshot.
    pub fn new() -> (book: OrderBook)
        ensures
            book.wf(),
            book@ == BookState::awaiting(),
    {
        OrderBook { yes: BookSide::new(), no: BookSide::new(), last_seq: 0, stale: true }
    }

    /// Whether the book is unusable until a fresh snapshot arrives.
    pub fn is_stale(&self) -> (stale: bool)
        ensures
            stale == self@.stale,
    {
        self.stale
    }

    /// The sequence number of the snapshot or delta applied last.
    pub fn last_applied_sequence(&self) -> (seq: u32)
        ensures
            seq == self@.last_seq,
    {
        self.last_seq
    }

    /// The resting quantity on `side` at `price`, zero where there is none.
    pub fn quantity(&self, side: KalshiSide, price: u32) -> (q: i64)
        requires
            self.wf(),
        ensures
            q == quantity_at(self@.side(side), price),
            q >= 0,
    {
        match side {
            KalshiSide::Yes => self.yes.quantity(price),
            KalshiSide::No => self.no.quantity(price),
        }
    }

    /// Marks the book unusable, as when the connection is lost.
    pub fn mark_stale(&mut self)
        requires
            old(self).wf(),
        ensures
            final(self).wf(),
            final(self)@ == (BookState { stale: true, ..old(self)@ }),
    {
        self.stale = true;
        assert(self@.yes == old(self)@.yes && self@.no == old(self)@.no);
    }

    /// Replaces the book by a snapshot. A snapshot with a negative quantity
    /// is refused: the book keeps its levels and is marked stale.
    pub fn apply_snapshot(
        &mut self,
        seq: u32,
        yes: &Vec<(u32, i32)>,
        no: &Vec<(u32, i32)>,
    ) -> (r: Result<(), ResyncReason>)
        requires
            old(self).wf(),
        ensures
            final(self).wf(),
            final(self)@ == old(self)@.after_snapshot(seq, yes@, no@),
            r == (if snapshot_acceptable(yes@, no@) {
                Ok::<(), ResyncReason>(())
            } else {
                Err::<(), ResyncReason>(ResyncReason::NegativeQuantity)
            }),
    {
        if non_negative(yes) && non_negative(no) {
            let yes_side = build_side(yes);
            let no_side = build_side(no);
            proof {
                lemma_snapshot_levels_bounded(yes@);
                lemma_snapshot_levels_bounded(no@);
            }
            self.yes = yes_side;
            self.no = no_side;
            self.last_seq = seq;
            self.stale = false;
            Ok(())
        } else {
            self.stale = true;
            assert(self@.yes == old(self)@.yes && self@.no == old(self)@.no);
            Err(ResyncReason::NegativeQuantity)
        }
    }

    /// Applies one delta, or refuses it and marks the book stale. A refused
    /// delta changes no level and does not advance the sequence number.
    pub fn apply_delta(&mut self, d: &BookDelta) -> (r: Result<(), ResyncReason>)
        requires
            old(self).wf(),
        ensures
            final(self).wf(),
            final(self)@ == old(self)@.after_delta(*d),
            r == (match old(self)@.refusal(*d) {
                Some(reason) => Err::<(), ResyncReason>(reason),
                None => Ok::<(), ResyncReason>(()),
            }),
    {
        if self.stale {
            return Err(ResyncReason::Stale);
        }
        if self.last_seq == u32::MAX || d.seq != self.last_seq + 1 {
            self.stale = true;
            assert(self@.yes == old(self)@.yes && self@.no == old(self)@.no);
            return Err(ResyncReason::SequenceGap);
        }
        let current: i64 = self.quantity(d.side, d.price);
        proof {
            self.yes.lemma_quantities_positive();
            self.no.lemma_quantities_positive();
        }
        let updated: i64 = current + d.delta as i64;
        if updated < 0 {
            self.stale = true;
            assert(self@.yes == old(self)@.yes && self@.no == old(self)@.no);
            return Err(ResyncReason::NegativeQuantity);
        }
        match d.side {
            KalshiSide::Yes => {
                self.yes.set(d.price, updated);
            },
            KalshiSide::No => {
                self.no.set(d.price, updated);
            },
        }
        self.last_seq = d.seq;
        proof {
            let before = old(self)@;
            assert(self@ == before.after_delta(*d));
            assert forall|p: u32| self@.yes.dom().contains(p) implies
                0 < #[trigger] self@.yes[p] <= quantity_bound(self@.last_seq) by {
                if !(d.side == KalshiSide::Yes && p == d.price) {
                    assert(before.yes.dom().contains(p));
                    assert(self@.yes[p] == before.yes[p]);
                }
            }
            assert forall|p: u32| self@.no.dom().contains(p) implies
                0 < #[trigger] self@.no[p] <= quantity_bound(self@.last_seq) by {
                if !(d.side == KalshiSide::No && p == d.price) {
                    assert(before.no.dom().contains(p));
                    assert(self@.no[p] == before.no[p]);
                }
            }
        }
        Ok(())
    }

    /// Applies the deltas in turn and reports the first that was refused,
    /// with its position. The deltas after a refused one are refused too,
    /// since the book is stale by then.
    pub fn apply_deltas(
        &mut self,
        deltas: &Vec<BookDelta>,
    ) -> (r: Result<(), (usize, ResyncReason)>)
        requires
            old(self).wf(),
        ensures
            final(self).wf(),
            final(self)@ == old(self)@.after_deltas(deltas@),
            r == first_refusal(old(self)@, deltas@),
    {
        let mut i: usize = 0;
        while i < deltas.len()
            invariant
                i <= deltas@.len(),
                self.wf(),
                self@ == old(self)@.after_deltas(deltas@.take(i as int)),
                first_refusal(old(self)@, deltas@.take(i as int)) is Ok,
            decreases deltas@.len() - i,
        {
            proof {
                let next = deltas@.take(i + 1);
                assert(next.drop_last() =~= deltas@.take(i as int));
                assert(next.last() == deltas@[i as int]);
            }
            match self.apply_delta(&deltas[i]) {
                Ok(()) => {},
                Err(reason) => {
                    proof {
                        lemma_refusal_is_final(old(self)@, deltas@, i as int);
                    }
                    return Err((i, reason));
                },
            }
            i += 1;
        }
        assert(deltas@.take(i as int) =~= deltas@);
        Ok(())
    }

    /// What a consumer sees: the yes levels from the highest price down, the
    /// no levels from the lowest price up, and whether the book is stale.
    pub fn snapshot_view(&self) -> (out: (Vec<(u32, i64)>, Vec<(u32, i64)>, bool))
        requires
            self.wf(),
        ensures
            descending(out.0@),
            lists(out.0@, self@.yes),
            ascending(out.1@),
            lists(out.1@, self@.no),
            out.2 == self@.stale,
    {
        (self.yes.descending(), self.no.ascending(), self.stale)
    }
}

/// The first delta of `deltas` that the book refuses, with its position.
pub open spec fn first_refusal(
    s: BookState,
    deltas: Seq<BookDelta>,
) -> Result<(), (usize, ResyncReason)>
    decreases deltas.len(),
{
    if deltas.len() == 0 {
        Ok(())
    } else {
        match first_refusal(s, deltas.drop_last()) {
            Err(e) => Err(e),
            Ok(()) => match s.after_deltas(deltas.drop_last()).refusal(deltas.last()) {
                Some(reason) => Err(((deltas.len() - 1) as usize, reason)),
                None => Ok(()),
            },
        }
    }
}

/// Once a delta is refused the book is stale, and the deltas after it change
/// nothing more.
pub proof fn lemma_refusal_is_final(s: BookState, deltas: Seq<BookDelta>, i: int)
    requires
        0 <= i < deltas.len(),
        first_refusal(s, deltas.take(i)) is Ok,
        s.after_deltas(deltas.take(i)).refusal(deltas[i]) is Some,
    ensures
        s.after_deltas(deltas) == s.after_deltas(deltas.take(i + 1)),
        first_refusal(s, deltas) == Err::<(), (usize, ResyncReason)>(
            (i as usize, s.after_deltas(deltas.take(i)).refusal(deltas[i])->0),
        ),
    decreases deltas.len(),
{
    assert(deltas.take(i + 1).drop_last() =~= deltas.take(i));
    if deltas.len() == i + 1 {
        assert(deltas.take(i + 1) =~= deltas);
    } else {
        let rest = deltas.drop_last();
        assert(rest.take(i) =~= deltas.take(i));
        assert(rest.take(i + 1) =~= deltas.take(i + 1));
        lemma_refusal_is_final(s, rest, i);
    }
}

/// A snapshot whose prices are all different and whose quantities are all
/// positive gives a book side that holds exactly its levels.
pub proof fn lemma_snapshot_levels_exact(levels: Seq<(u32, i32)>)
    requires
        forall|i: int, j: int|
            0 <= i < j < levels.len() ==> (#[trigger] levels[i]).0 != (#[trigger] levels[j]).0,
        forall|i: int| 0 <= i < levels.len() ==> (#[trigger] levels[i]).1 > 0,
    ensures
        forall|i: int|
            0 <= i < levels.len()
                ==> snapshot_levels(levels).contains_pair(
                (#[trigger] levels[i]).0,
                levels[i].1 as i64,
            ),
        forall|p: u32|
            snapshot_levels(levels).dom().contains(p)
                ==> exists|i: int| 0 <= i < levels.len() && (#[trigger] levels[i]).0 == p,
    decreases levels.len(),
{
    if levels.len() > 0 {
        let rest = levels.drop_last();
        let last = levels.len() - 1;
        assert forall|i: int, j: int| 0 <= i < j < rest.len() implies
            (#[trigger] rest[i]).0 != (#[trigger] rest[j]).0 by {
            assert(rest[i] == levels[i] && rest[j] == levels[j]);
        }
        assert forall|i: int| 0 <= i < rest.len() implies (#[trigger] rest[i]).1 > 0 by {
            assert(rest[i] == levels[i]);
        }
        lemma_snapshot_levels_exact(rest);
        assert forall|i: int| 0 <= i < levels.len() implies
            snapshot_levels(levels).contains_pair((#[trigger] levels[i]).0, levels[i].1 as i64) by {
            if i < last {
                assert(rest[i] == levels[i]);
                assert(levels[i].0 != levels[last].0);
            }
        }
        assert forall|p: u32| snapshot_levels(levels).dom().contains(p) implies
            exists|i: int| 0 <= i < levels.len() && (#[trigger] levels[i]).0 == p by {
            if p == levels[last].0 {
                assert(levels[last].0 == p);
            } else {
                assert(snapshot_levels(rest).dom().contains(p));
                let i = choose|i: int| 0 <= i < rest.len() && (#[trigger] rest[i]).0 == p;
                assert(levels[i] == rest[i]);
            }
        }
    }
}

/// A snapshot followed by no delta leaves the book as the snapshot gave it:
/// the snapshot's levels on both sides, its sequence number, not stale.
pub proof fn lemma_snapshot_then_no_deltas(
    s: BookState,
    seq: u32,
    yes: Seq<(u32, i32)>,
    no: Seq<(u32, i32)>,
)
    requires
        snapshot_acceptable(yes, no),
    ensures
        s.after_snapshot(seq, yes, no).after_deltas(Seq::<BookDelta>::empty())
            == s.after_snapshot(seq, yes, no),
        s.after_snapshot(seq, yes, no) == (BookState {
            yes: snapshot_levels(yes),
            no: snapshot_levels(no),
            last_seq: seq,
            stale: false,
        }),
{
}

/// A delta whose sequence number is not the one after the last applied is
/// refused as a gap: the book becomes stale, and neither its levels nor its
/// sequence number change.
pub proof fn lemma_gap_marks_stale(s: BookState, d: BookDelta)
    requires
        !s.stale,
        d.seq != s.last_seq + 1,
    ensures
        s.refusal(d) == Some(ResyncReason::SequenceGap),
        s.after_delta(d).stale,
        s.after_delta(d).yes == s.yes,
        s.after_delta(d).no == s.no,
        s.after_delta(d).last_seq == s.last_seq,
{
}

/// A delta that is applied and brings its level to exactly zero removes the
/// level; the other side is untouched.
pub proof fn lemma_zero_quantity_evicts(s: BookState, d: BookDelta)
    requires
        s.refusal(d) is None,
        s.quantity_after(d) == 0,
    ensures
        !s.after_delta(d).side(d.side).dom().contains(d.price),
        s.after_delta(d).side(d.side) == s.side(d.side).remove(d.price),
        d.side == KalshiSide::Yes ==> s.after_delta(d).no == s.no,
        d.side == KalshiSide::No ==> s.after_delta(d).yes == s.yes,
        s.after_delta(d).last_seq == d.seq,
        !s.after_delta(d).stale,
{
}

/// A delta in sequence that would bring its level below zero is refused:
/// the book becomes stale and stores nothing of it.
pub proof fn lemma_negative_quantity_resyncs(s: BookState, d: BookDelta)
    requires
        !s.stale,
        d.seq == s.last_seq + 1,
        s.quantity_after(d) < 0,
    ensures
        s.refusal(d) == Some(ResyncReason::NegativeQuantity),
        s.after_delta(d).stale,
        s.after_delta(d).yes == s.yes,
        s.after_delta(d).no == s.no,
        s.after_delta(d).last_seq == s.last_seq,
{
}

/// A delta that is applied adds its amount to its level, moves the sequence
/// number on, and leaves every other level as it was.
pub proof fn lemma_applied_delta(s: BookState, d: BookDelta)
    requires
        s.valid(),
        s.refusal(d) is None,
    ensures
        quantity_at(s.after_delta(d).side(d.side), d.price) == s.quantity_after(d),
        forall|p: u32|
            p != d.price
                ==> quantity_at(s.after_delta(d).side(d.side), p) == quantity_at(s.side(d.side), p),
        s.after_delta(d).last_seq == d.seq,
        !s.after_delta(d).stale,
{
}

/// No delta, applied or refused, leaves a level with a quantity that is not
/// positive.
pub proof fn lemma_delta_keeps_valid(s: BookState, d: BookDelta)
    requires
        s.valid(),
    ensures
        s.after_delta(d).valid(),
{
    let t = s.after_delta(d);
    if s.refusal(d) is None {
        assert forall|p: u32| t.yes.dom().contains(p) implies
            0 < #[trigger] t.yes[p] <= quantity_bound(t.last_seq) by {
            if !(d.side == KalshiSide::Yes && p == d.price) {
                assert(s.yes.dom().contains(p));
                assert(t.yes[p] == s.yes[p]);
            }
        }
        assert forall|p: u32| t.no.dom().contains(p) implies
            0 < #[trigger] t.no[p] <= quantity_bound(t.last_seq) by {
            if !(d.side == KalshiSide::No && p == d.price) {
                assert(s.no.dom().contains(p));
                assert(t.no[p] == s.no[p]);
            }
        }
    }
}

/// No run of deltas leaves a level with a quantity that is not positive.
pub proof fn lemma_deltas_keep_valid(s: BookState, deltas: Seq<BookDelta>)
    requires
        s.valid(),
    ensures
        s.after_deltas(deltas).valid(),
    decreases deltas.len(),
{
    if deltas.len() > 0 {
        lemma_deltas_keep_valid(s, deltas.drop_last());
        lemma_delta_keeps_valid(s.after_deltas(deltas.drop_last()), deltas.last());
    }
}

/// An acceptable snapshot gives a valid book, whatever the book was.
pub proof fn lemma_snapshot_gives_valid(
    s: BookState,
    seq: u32,
    yes: Seq<(u32, i32)>,
    no: Seq<(u32, i32)>,
)
    requires
        snapshot_acceptable(yes, no),
    ensures
        s.after_snapshot(seq, yes, no).valid(),
{
    lemma_snapshot_levels_bounded(yes);
    lemma_snapshot_levels_bounded(no);
}

/// A stale book takes no delta: whatever arrives is refused and changes
/// nothing, until a snapshot replaces the book.
pub proof fn lemma_stale_takes_no_delta(s: BookState, d: BookDelta)
    requires
        s.stale,
    ensures
        s.refusal(d) == Some(ResyncReason::Stale),
        s.after_delta(d) == s,
{
}

/// A sequence number goes forward only: after a delta the last applied
/// number is the delta's own where it was applied, and the old one where it
/// was refused.
pub proof fn lemma_sequence_advances_on_success_only(s: BookState, d: BookDelta)
    ensures
        s.refusal(d) is None ==> s.after_delta(d).last_seq == d.seq && d.seq == s.last_seq + 1,
        s.refusal(d) is Some ==> s.after_delta(d).last_seq == s.last_seq,
{
}

} // verus!
