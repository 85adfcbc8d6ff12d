//! The books of all subscribed markets, each under its subscription id and
//! market ticker.

use vstd::prelude::*;
use super::orderbook::{
    ascending, descending, lists, snapshot_acceptable, BookDelta, BookState, OrderBook,
    ResyncReason,
};
use super::responses::{KalshiOrderbookDeltaMessage, KalshiOrderbookSnapshotMessage};
use crate::assoc::{
    assoc_map, distinct_keys, lemma_assoc_absent, lemma_assoc_at, lemma_assoc_insert,
    lemma_assoc_remove, lemma_assoc_update,
};

verus! {

/// What names a book: the subscription id and the market ticker.
pub type BookKey = (u32, Seq<char>);

/// The event that a book has lost step with the exchange and needs a fresh
/// snapshot: which book, at which sequence number, and why.
#[derive(Debug)]
pub struct Resync {
    pub sid: u32,
    pub market_ticker: String,
    pub seq: u32,
    pub reason: ResyncReason,
}

/// The levels of one side of a snapshot message; a side that the message
/// leaves out has none.
pub open spec fn side_levels(side: Option<Vec<(u32, i32)>>) -> Seq<(u32, i32)> {
    match side {
        Some(levels) => levels@,
        None => Seq::empty(),
    }
}

/// The book under `key`; a market without a book is as one that awaits its
/// snapshot.
pub open spec fn book_of(books: Map<BookKey, BookState>, key: BookKey) -> BookState {
    if books.dom().contains(key) {
        books[key]
    } else {
        BookState::awaiting()
    }
}

/// The delta that a delta message carries.
pub open spec fn delta_of(seq: u32, msg: KalshiOrderbookDeltaMessage) -> BookDelta {
    BookDelta { seq, side: msg.side, price: msg.price, delta: msg.delta }
}

/// The books after a snapshot message: the book of its market is replaced,
/// or made if there was none.
pub open spec fn books_after_snapshot(
    books: Map<BookKey, BookState>,
    sid: u32,
    seq: u32,
    msg: KalshiOrderbookSnapshotMessage,
) -> Map<BookKey, BookState> {
    let key = (sid, msg.market_ticker@);
    books.insert(
        key,
        book_of(books, key).after_snapshot(seq, side_levels(msg.yes), side_levels(msg.no)),
    )
}

/// The books after a delta message: the book of its market takes the delta
/// or turns stale; a market without a book stays without one.
pub open spec fn books_after_delta(
    books: Map<BookKey, BookState>,
    sid: u32,
    seq: u32,
    msg: KalshiOrderbookDeltaMessage,
) -> Map<BookKey, BookState> {
    let key = (sid, msg.market_ticker@);
    if books.dom().contains(key) {
        books.insert(key, books[key].after_delta(delta_of(seq, msg)))
    } else {
        books
    }
}

/// The same books, every one marked stale.
pub open spec fn all_stale(books: Map<BookKey, BookState>) -> Map<BookKey, BookState> {
    Map::new(
        |key: BookKey| books.dom().contains(key),
        |key: BookKey| (BookState { stale: true, ..books[key] }),
    )
}

/// The books that are not under the subscription `sid`.
pub open spec fn without_subscription(books: Map<BookKey, BookState>, sid: u32) -> Map<
    BookKey,
    BookState,
> {
    books.restrict(Set::new(|key: BookKey| key.0 != sid))
}

#[derive(Debug)]
struct MarketBook {
    sid: u32,
    market_ticker: String,
    book: OrderBook,
}

impl MarketBook {
    spec fn key(self) -> BookKey {
        (self.sid, self.market_ticker@)
    }
}

/// Keeps one book per subscribed market, and is the only one to change them.
#[derive(Debug)]
pub struct OrderBookReconciler {
    books: Vec<MarketBook>,
}

spec fn entries(books: Seq<MarketBook>) -> Seq<(BookKey, BookState)> {
    Seq::new(books.len(), |i: int| (books[i].key(), books[i].book@))
}

impl View for OrderBookReconciler {
    type V = Map<BookKey, BookState>;

    closed spec fn view(&self) -> Map<BookKey, BookState> {
        assoc_map(entries(self.books@))
    }
}

impl OrderBookReconciler {
    /// No market has two books, and every book is well formed.
    pub closed spec fn wf(&self) -> bool {
        &&& distinct_keys(entries(self.books@))
        &&& forall|i: int| 0 <= i < self.books@.len() ==> (#[trigger] self.books@[i]).book.wf()
    }

    /// Every book of a well-formed reconciler is in a valid state.
    pub proof fn lemma_books_valid(&self)
        requires
            self.wf(),
        ensures
            forall|key: BookKey| self@.dom().contains(key) ==> (#[trigger] self@[key]).valid(),
    {
        let e = entries(self.books@);
        assert forall|key: BookKey| self@.dom().contains(key) implies
            (#[trigger] self@[key]).valid() by {
            let i = choose|i: int| 0 <= i < e.len() && (#[trigger] e[i]).0 == key;
            lemma_assoc_at(e, i);
            self.books@[i].book.lemma_wf_valid();
        }
    }

    /// A reconciler without books.
    pub fn new() -> (r: OrderBookReconciler)
        ensures
            r.wf(),
            r@ == Map::<BookKey, BookState>::empty(),
    {
        let r = OrderBookReconciler { books: Vec::new() };
        assert(r@ =~= Map::<BookKey, BookState>::empty());
        r
    }

    /// The position of the book under `(sid, market_ticker)`.
    fn position(&self, sid: u32, market_ticker: &String) -> (found: Option<usize>)
        requires
            self.wf(),
        ensures
            match found {
                Some(i) => i < self.books@.len() && self.books@[i as int].key() == (
                    sid,
                    market_ticker@,
                ) && self@.contains_pair((sid, market_ticker@), self.books@[i as int].book@),
                None => !self@.dom().contains((sid, market_ticker@)) && forall|i: int|
                    0 <= i < self.books@.len() ==> (#[trigger] entries(self.books@)[i]).0 != (
                        sid,
                        market_ticker@,
                    ),
            },
    {
        let mut i: usize = 0;
        while i < self.books.len()
            invariant
                self.wf(),
                i <= self.books@.len(),
                forall|j: int| 0 <= j < i ==> (#[trigger] entries(self.books@)[j]).0 != (
                    sid,
                    market_ticker@,
                ),
            decreases self.books@.len() - i,
        {
            if self.books[i].sid == sid && self.books[i].market_ticker == *market_ticker {
                proof {
                    assert(entries(self.books@)[i as int].0 == (sid, market_ticker@));
                    lemma_assoc_at(entries(self.books@), i as int);
                }
                return Some(i);
            }
            assert(entries(self.books@)[i as int].0 != (sid, market_ticker@));
            i += 1;
        }
        proof {
            lemma_assoc_absent(entries(self.books@), (sid, market_ticker@));
        }
        None
    }

    /// Whether there is a book under `(sid, market_ticker)`.
    pub fn has_book(&self, sid: u32, market_ticker: &String) -> (found: bool)
        requires
            self.wf(),
        ensures
            found == self@.dom().contains((sid, market_ticker@)),
    {
        self.position(sid, market_ticker).is_some()
    }

    /// Puts `book` under `(sid, market_ticker)`, in place of the one there.
    fn put(&mut self, sid: u32, market_ticker: &String, book: OrderBook)
        requires
            old(self).wf(),
            book.wf(),
        ensures
            final(self).wf(),
            final(self)@ == old(self)@.insert((sid, market_ticker@), book@),
    {
        let ghost before = entries(self.books@);
        let ghost key = (sid, market_ticker@);
        match self.position(sid, market_ticker) {
            Some(i) => {
                let entry = MarketBook { sid, market_ticker: market_ticker.clone(), book };
                self.books.set(i, entry);
                proof {
                    lemma_assoc_update(before, i as int, book@);
                    assert(entries(self.books@) =~= before.update(i as int, (key, book@)));
                }
            },
            None => {
                let entry = MarketBook { sid, market_ticker: market_ticker.clone(), book };
                self.books.push(entry);
                proof {
                    lemma_assoc_insert(before, before.len() as int, key, book@);
                    assert(entries(self.books@) =~= before.insert(
                        before.len() as int,
                        (key, book@),
                    ));
                }
            },
        }
    }

    /// Makes ready for the snapshot of a market just subscribed: its book is
    /// empty and not to be used until the snapshot arrives.
    pub fn expect_snapshot(&mut self, sid: u32, market_ticker: &String)
        requires
            old(self).wf(),
        ensures
            final(self).wf(),
            final(self)@ == old(self)@.insert((sid, market_ticker@), BookState::awaiting()),
    {
        self.put(sid, market_ticker, OrderBook::new());
    }

    /// Takes a snapshot message: the book of its market is replaced
    /// wholesale. A snapshot with a negative quantity is refused instead, and
    /// the book turns stale.
    pub fn on_snapshot(
        &mut self,
        sid: u32,
        seq: u32,
        msg: &KalshiOrderbookSnapshotMessage,
    ) -> (r: Result<(), Resync>)
        requires
            old(self).wf(),
        ensures
            final(self).wf(),
            final(self)@ == books_after_snapshot(old(self)@, sid, seq, *msg),
            snapshot_acceptable(side_levels(msg.yes), side_levels(msg.no)) ==> r is Ok,
            !snapshot_acceptable(side_levels(msg.yes), side_levels(msg.no))
                ==> r is Err && r->Err_0.sid == sid
                && r->Err_0.seq == seq && r->Err_0.market_ticker@ == msg.market_ticker@
                && r->Err_0.reason == ResyncReason::NegativeQuantity,
    {
        let none: Vec<(u32, i32)> = Vec::new();
        let yes = match &msg.yes {
            Some(levels) => levels,
            None => &none,
        };
        let no = match &msg.no {
            Some(levels) => levels,
            None => &none,
        };
        let ghost before = entries(self.books@);
        let ghost key = (sid, msg.market_ticker@);
        let applied = match self.position(sid, &msg.market_ticker) {
            Some(i) => {
                let applied = self.books[i].book.apply_snapshot(seq, yes, no);
                proof {
                    lemma_assoc_update(before, i as int, self.books@[i as int].book@);
                    assert(entries(self.books@) =~= before.update(
                        i as int,
                        (key, self.books@[i as int].book@),
                    ));
                }
                applied
            },
            None => {
                let mut book = OrderBook::new();
                let applied = book.apply_snapshot(seq, yes, no);
                self.put(sid, &msg.market_ticker, book);
                applied
            },
        };
        match applied {
            Ok(()) => Ok(()),
            Err(reason) => Err(
                Resync { sid, market_ticker: msg.market_ticker.clone(), seq, reason },
            ),
        }
    }

    /// Takes a delta message: the book of its market applies it, or refuses
    /// it and turns stale. For a market without a book there is nothing to
    /// apply it to, and a snapshot is asked for as well.
    pub fn on_delta(
        &mut self,
        sid: u32,
        seq: u32,
        msg: &KalshiOrderbookDeltaMessage,
    ) -> (r: Result<(), Resync>)
        requires
            old(self).wf(),
        ensures
            final(self).wf(),
            final(self)@ == books_after_delta(old(self)@, sid, seq, *msg),
            match book_of(old(self)@, (sid, msg.market_ticker@)).refusal(delta_of(seq, *msg)) {
                None => r is Ok,
                Some(reason) => r is Err && r->Err_0.sid == sid && r->Err_0.seq == seq
                    && r->Err_0.market_ticker@ == msg.market_ticker@ && r->Err_0.reason == reason,
            },
    {
        let d = BookDelta { seq, side: msg.side, price: msg.price, delta: msg.delta };
        let ghost before = entries(self.books@);
        let applied = match self.position(sid, &msg.market_ticker) {
            Some(i) => {
                let applied = self.books[i].book.apply_delta(&d);
                proof {
                    lemma_assoc_update(before, i as int, self.books@[i as int].book@);
                    assert(entries(self.books@) =~= before.update(
                        i as int,
                        ((sid, msg.market_ticker@), self.books@[i as int].book@),
                    ));
                }
                applied
            },
            None => Err(ResyncReason::Stale),
        };
        match applied {
            Ok(()) => Ok(()),
            Err(reason) => Err(
                Resync { sid, market_ticker: msg.market_ticker.clone(), seq, reason },
            ),
        }
    }

    /// Drops the book under `(sid, market_ticker)`, if there is one.
    pub fn discard(&mut self, sid: u32, market_ticker: &String)
        requires
            old(self).wf(),
        ensures
            final(self).wf(),
            final(self)@ == old(self)@.remove((sid, market_ticker@)),
    {
        let ghost before = entries(self.books@);
        match self.position(sid, market_ticker) {
            Some(i) => {
                self.books.remove(i);
                proof {
                    lemma_assoc_remove(before, i as int);
                    assert(entries(self.books@) =~= before.remove(i as int));
                }
            },
            None => {
                assert(self@.remove((sid, market_ticker@)) =~= self@);
            },
        }
    }

    /// Drops every book of the subscription `sid`, as when the exchange
    /// confirms that the subscription has ended.
    pub fn discard_subscription(&mut self, sid: u32)
        requires
            old(self).wf(),
        ensures
            final(self).wf(),
            final(self)@ == without_subscription(old(self)@, sid),
    {
        let mut i: usize = 0;
        while i < self.books.len()
            invariant
                self.wf(),
                i <= self.books@.len(),
                forall|j: int| 0 <= j < i ==> (#[trigger] self.books@[j]).sid != sid,
                without_subscription(self@, sid) == without_subscription(old(self)@, sid),
            decreases self.books@.len() - i,
        {
            if self.books[i].sid == sid {
                let ghost before = entries(self.books@);
                let ghost whole = self@;
                self.books.remove(i);
                proof {
                    lemma_assoc_remove(before, i as int);
                    assert(entries(self.books@) =~= before.remove(i as int));
                    assert(without_subscription(self@, sid) =~= without_subscription(whole, sid));
                }
            } else {
                i += 1;
            }
        }
        proof {
            let e = entries(self.books@);
            assert forall|key: BookKey| self@.dom().contains(key) implies key.0 != sid by {
                let j = choose|j: int| 0 <= j < e.len() && (#[trigger] e[j]).0 == key;
                assert(self.books@[j].sid != sid);
            }
            assert(without_subscription(self@, sid) =~= self@);
        }
    }

    /// Marks every book stale, as when the connection is lost: none is to be
    /// used until its market has a fresh snapshot.
    pub fn mark_all_stale(&mut self)
        requires
            old(self).wf(),
        ensures
            final(self).wf(),
            final(self)@ == all_stale(old(self)@),
    {
        let mut i: usize = 0;
        while i < self.books.len()
            invariant
                self.wf(),
                i <= self.books@.len(),
                self.books@.len() == old(self).books@.len(),
                forall|j: int|
                    0 <= j < self.books@.len()
                        ==> (#[trigger] self.books@[j]).key() == old(self).books@[j].key(),
                forall|j: int|
                    0 <= j < i
                        ==> (#[trigger] self.books@[j]).book@ == (BookState {
                        stale: true,
                        ..old(self).books@[j].book@
                    }),
                forall|j: int|
                    i <= j < self.books@.len()
                        ==> (#[trigger] self.books@[j]).book@ == old(self).books@[j].book@,
            decreases self.books@.len() - i,
        {
            let ghost before = entries(self.books@);
            self.books[i].book.mark_stale();
            proof {
                lemma_assoc_update(before, i as int, self.books@[i as int].book@);
                assert(entries(self.books@) =~= before.update(
                    i as int,
                    (before[i as int].0, self.books@[i as int].book@),
                ));
            }
            i += 1;
        }
        proof {
            let e = entries(self.books@);
            let e0 = entries(old(self).books@);
            let goal = all_stale(old(self)@);
            assert forall|key: BookKey| self@.dom().contains(key) <==> goal.dom().contains(key) by {
                if self@.dom().contains(key) {
                    let j = choose|j: int| 0 <= j < e.len() && (#[trigger] e[j]).0 == key;
                    assert(e0[j].0 == key);
                }
                if goal.dom().contains(key) {
                    let j = choose|j: int| 0 <= j < e0.len() && (#[trigger] e0[j]).0 == key;
                    assert(e[j].0 == key);
                }
            }
            assert forall|key: BookKey| self@.dom().contains(key) implies
                self@[key] == goal[key] by {
                let j = choose|j: int| 0 <= j < e.len() && (#[trigger] e[j]).0 == key;
                lemma_assoc_at(e, j);
                assert(e0[j].0 == key);
                lemma_assoc_at(e0, j);
            }
            assert(self@ =~= goal);
        }
    }

    /// What a consumer sees of the book under `(sid, market_ticker)`: the
    /// yes levels from the highest price down, the no levels from the lowest
    /// price up, and whether the book is stale. A stale book is not to be
    /// used.
    pub fn snapshot_view(&self, sid: u32, market_ticker: &String) -> (view: Option<
        (Vec<(u32, i64)>, Vec<(u32, i64)>, bool),
    >)
        requires
            self.wf(),
        ensures
            view is Some == self@.dom().contains((sid, market_ticker@)),
            view is Some ==> {
                let book = self@[(sid, market_ticker@)];
                let (yes, no, stale) = view->0;
                &&& descending(yes@)
                &&& lists(yes@, book.yes)
                &&& ascending(no@)
                &&& lists(no@, book.no)
                &&& stale == book.stale
            },
    {
        match self.position(sid, market_ticker) {
            Some(i) => Some(self.books[i].book.snapshot_view()),
            None => None,
        }
    }

    /// The sequence number applied last to the book under
    /// `(sid, market_ticker)`.
    pub fn last_applied_sequence(&self, sid: u32, market_ticker: &String) -> (seq: Option<u32>)
        requires
            self.wf(),
        ensures
            seq == (if self@.dom().contains((sid, market_ticker@)) {
                Some(self@[(sid, market_ticker@)].last_seq)
            } else {
                None
            }),
    {
        match self.position(sid, market_ticker) {
            Some(i) => Some(self.books[i].book.last_applied_sequence()),
            None => None,
        }
    }
}

/// Markets are independent: a snapshot or a delta for one market leaves the
/// book of every other market, and of the same market under another
/// subscription, as it was.
pub proof fn lemma_markets_independent(
    books: Map<BookKey, BookState>,
    sid: u32,
    seq: u32,
    snapshot: KalshiOrderbookSnapshotMessage,
    delta: KalshiOrderbookDeltaMessage,
    other: BookKey,
)
    ensures
        other != (sid, snapshot.market_ticker@) ==> {
            &&& books_after_snapshot(books, sid, seq, snapshot).dom().contains(other)
                == books.dom().contains(other)
            &&& books.dom().contains(other)
                ==> books_after_snapshot(books, sid, seq, snapshot)[other]
                == books[other]
        },
        other != (sid, delta.market_ticker@) ==> {
            &&& books_after_delta(books, sid, seq, delta).dom().contains(other)
                == books.dom().contains(other)
            &&& books.dom().contains(other) ==> books_after_delta(books, sid, seq, delta)[other]
                == books[other]
        },
{
}

/// After the connection is lost every book is stale, with the levels it
/// had.
pub proof fn lemma_all_stale(books: Map<BookKey, BookState>, key: BookKey)
    requires
        books.dom().contains(key),
    ensures
        all_stale(books).dom().contains(key),
        all_stale(books)[key].stale,
        all_stale(books)[key].yes == books[key].yes,
        all_stale(books)[key].no == books[key].no,
        all_stale(books)[key].last_seq == books[key].last_seq,
{
}

} // verus!
