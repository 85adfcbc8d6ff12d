use kalshi::websockets::orderbook::{BookDelta, BookSide, OrderBook, ResyncReason};
use kalshi::websockets::responses::KalshiSide;

fn delta(seq: u32, side: KalshiSide, price: u32, delta: i32) -> BookDelta {
    BookDelta { seq, side, price, delta }
}

#[test]
fn new_book_awaits_its_snapshot() {
    let book = OrderBook::new();
    assert!(book.is_stale());
    assert_eq!(book.last_applied_sequence(), 0);
    let (yes, no, stale) = book.snapshot_view();
    assert!(yes.is_empty());
    assert!(no.is_empty());
    assert!(stale);
}

#[test]
fn delta_before_snapshot_is_refused() {
    let mut book = OrderBook::new();
    let r = book.apply_delta(&delta(1, KalshiSide::Yes, 50, 10));
    assert_eq!(r, Err(ResyncReason::Stale));
    assert_eq!(book.quantity(KalshiSide::Yes, 50), 0);
}

#[test]
fn snapshot_replaces_the_book() {
    let mut book = OrderBook::new();
    assert_eq!(book.apply_snapshot(5, &vec![(50, 100), (40, 7)], &vec![(48, 80)]), Ok(()));
    assert!(!book.is_stale());
    assert_eq!(book.last_applied_sequence(), 5);
    assert_eq!(book.quantity(KalshiSide::Yes, 50), 100);
    assert_eq!(book.quantity(KalshiSide::Yes, 40), 7);
    assert_eq!(book.quantity(KalshiSide::No, 48), 80);
    assert_eq!(book.quantity(KalshiSide::No, 50), 0);

    assert_eq!(book.apply_snapshot(9, &vec![(60, 1)], &vec![]), Ok(()));
    assert_eq!(book.last_applied_sequence(), 9);
    assert_eq!(book.quantity(KalshiSide::Yes, 50), 0);
    assert_eq!(book.quantity(KalshiSide::Yes, 60), 1);
    assert_eq!(book.quantity(KalshiSide::No, 48), 0);
}

#[test]
fn snapshot_then_no_deltas_is_the_snapshot() {
    let mut book = OrderBook::new();
    book.apply_snapshot(3, &vec![(10, 1), (30, 3), (20, 2)], &vec![(70, 5), (60, 4)]).unwrap();
    assert_eq!(book.apply_deltas(&vec![]), Ok(()));
    let (yes, no, stale) = book.snapshot_view();
    assert_eq!(yes, vec![(30, 3), (20, 2), (10, 1)]);
    assert_eq!(no, vec![(60, 4), (70, 5)]);
    assert!(!stale);
    assert_eq!(book.last_applied_sequence(), 3);
}

#[test]
fn snapshot_later_level_replaces_earlier_and_zero_is_no_level() {
    let mut book = OrderBook::new();
    book.apply_snapshot(1, &vec![(10, 1), (10, 9), (20, 0)], &vec![(5, 2), (5, 0)]).unwrap();
    let (yes, no, _) = book.snapshot_view();
    assert_eq!(yes, vec![(10, 9)]);
    assert!(no.is_empty());
}

#[test]
fn snapshot_with_negative_quantity_is_refused() {
    let mut book = OrderBook::new();
    book.apply_snapshot(1, &vec![(10, 1)], &vec![]).unwrap();
    let r = book.apply_snapshot(2, &vec![(10, 5)], &vec![(20, -1)]);
    assert_eq!(r, Err(ResyncReason::NegativeQuantity));
    assert!(book.is_stale());
    assert_eq!(book.last_applied_sequence(), 1);
    assert_eq!(book.quantity(KalshiSide::Yes, 10), 1);
}

#[test]
fn sequence_gap_marks_stale_and_keeps_levels() {
    let mut book = OrderBook::new();
    book.apply_snapshot(10, &vec![(50, 100)], &vec![(48, 80)]).unwrap();
    let r = book.apply_delta(&delta(12, KalshiSide::Yes, 50, 5));
    assert_eq!(r, Err(ResyncReason::SequenceGap));
    let (yes, no, stale) = book.snapshot_view();
    assert!(stale);
    assert_eq!(yes, vec![(50, 100)]);
    assert_eq!(no, vec![(48, 80)]);
    assert_eq!(book.last_applied_sequence(), 10);
    // The delta that would have been next is refused too: the book is stale.
    assert_eq!(book.apply_delta(&delta(11, KalshiSide::Yes, 50, 5)), Err(ResyncReason::Stale));
    assert_eq!(book.quantity(KalshiSide::Yes, 50), 100);
}

#[test]
fn repeated_and_earlier_sequence_numbers_are_gaps() {
    let mut book = OrderBook::new();
    book.apply_snapshot(10, &vec![], &vec![]).unwrap();
    assert_eq!(book.apply_delta(&delta(10, KalshiSide::No, 1, 1)), Err(ResyncReason::SequenceGap));
    let mut book = OrderBook::new();
    book.apply_snapshot(10, &vec![], &vec![]).unwrap();
    assert_eq!(book.apply_delta(&delta(9, KalshiSide::No, 1, 1)), Err(ResyncReason::SequenceGap));
}

#[test]
fn sequence_number_cannot_pass_its_maximum() {
    let mut book = OrderBook::new();
    book.apply_snapshot(u32::MAX, &vec![(1, 1)], &vec![]).unwrap();
    assert_eq!(book.apply_delta(&delta(0, KalshiSide::Yes, 1, 1)), Err(ResyncReason::SequenceGap));
    assert!(book.is_stale());
}

#[test]
fn delta_adds_to_a_level_and_makes_new_ones() {
    let mut book = OrderBook::new();
    book.apply_snapshot(1, &vec![(50, 100)], &vec![]).unwrap();
    assert_eq!(book.apply_delta(&delta(2, KalshiSide::Yes, 50, -30)), Ok(()));
    assert_eq!(book.apply_delta(&delta(3, KalshiSide::Yes, 55, 4)), Ok(()));
    assert_eq!(book.apply_delta(&delta(4, KalshiSide::No, 45, 6)), Ok(()));
    assert_eq!(book.apply_delta(&delta(5, KalshiSide::Yes, 45, 1)), Ok(()));
    let (yes, no, stale) = book.snapshot_view();
    assert_eq!(yes, vec![(55, 4), (50, 70), (45, 1)]);
    assert_eq!(no, vec![(45, 6)]);
    assert!(!stale);
    assert_eq!(book.last_applied_sequence(), 5);
}

#[test]
fn zero_quantity_removes_the_level() {
    let mut book = OrderBook::new();
    book.apply_snapshot(1, &vec![(50, 100), (60, 1)], &vec![]).unwrap();
    assert_eq!(book.apply_delta(&delta(2, KalshiSide::Yes, 50, -100)), Ok(()));
    let (yes, _, _) = book.snapshot_view();
    assert_eq!(yes, vec![(60, 1)]);
    assert_eq!(book.quantity(KalshiSide::Yes, 50), 0);
    assert_eq!(book.last_applied_sequence(), 2);
}

#[test]
fn negative_quantity_raises_resync() {
    let mut book = OrderBook::new();
    book.apply_snapshot(1, &vec![(50, 100)], &vec![]).unwrap();
    let r = book.apply_delta(&delta(2, KalshiSide::Yes, 50, -101));
    assert_eq!(r, Err(ResyncReason::NegativeQuantity));
    assert!(book.is_stale());
    assert_eq!(book.quantity(KalshiSide::Yes, 50), 100);
    assert_eq!(book.last_applied_sequence(), 1);
    // A level that is not there cannot be reduced either.
    let mut book = OrderBook::new();
    book.apply_snapshot(1, &vec![], &vec![]).unwrap();
    assert_eq!(book.apply_delta(&delta(2, KalshiSide::No, 7, -1)), Err(ResyncReason::NegativeQuantity));
}

#[test]
fn apply_deltas_stops_counting_at_the_first_refusal() {
    let mut book = OrderBook::new();
    book.apply_snapshot(1, &vec![(50, 100)], &vec![]).unwrap();
    let r = book.apply_deltas(&vec![
        delta(2, KalshiSide::Yes, 50, 1),
        delta(4, KalshiSide::Yes, 50, 1),
        delta(3, KalshiSide::Yes, 50, 1),
    ]);
    assert_eq!(r, Err((1, ResyncReason::SequenceGap)));
    assert_eq!(book.quantity(KalshiSide::Yes, 50), 101);
    assert_eq!(book.last_applied_sequence(), 2);
    assert!(book.is_stale());
}

#[test]
fn fresh_snapshot_revives_a_stale_book() {
    let mut book = OrderBook::new();
    book.apply_snapshot(1, &vec![(50, 100)], &vec![]).unwrap();
    book.mark_stale();
    assert!(book.is_stale());
    assert_eq!(book.apply_delta(&delta(2, KalshiSide::Yes, 50, 1)), Err(ResyncReason::Stale));
    book.apply_snapshot(7, &vec![(51, 2)], &vec![]).unwrap();
    assert!(!book.is_stale());
    assert_eq!(book.apply_delta(&delta(8, KalshiSide::Yes, 51, 1)), Ok(()));
    assert_eq!(book.quantity(KalshiSide::Yes, 51), 3);
}

#[test]
fn book_side_keeps_levels_in_order() {
    let mut side = BookSide::new();
    for (p, q) in [(5u32, 50i64), (1, 10), (9, 90), (3, 30), (7, 70)] {
        side.set(p, q);
    }
    assert_eq!(side.len(), 5);
    assert_eq!(side.ascending(), vec![(1, 10), (3, 30), (5, 50), (7, 70), (9, 90)]);
    assert_eq!(side.descending(), vec![(9, 90), (7, 70), (5, 50), (3, 30), (1, 10)]);
    side.set(5, 55);
    side.set(1, 0);
    side.set(2, 0);
    assert_eq!(side.ascending(), vec![(3, 30), (5, 55), (7, 70), (9, 90)]);
    assert_eq!(side.quantity(5), 55);
    assert_eq!(side.quantity(1), 0);
    assert_eq!(side.quantity(10), 0);
}
