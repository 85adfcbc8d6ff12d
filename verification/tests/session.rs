use kalshi::kalshi_error::DecodeError;
use kalshi::websockets::orderbook::ResyncReason;
use kalshi::websockets::reconciler::OrderBookReconciler;
use kalshi::websockets::registry::{KalshiCommand, SubscriptionRegistry, SubscriptionState};
use kalshi::websockets::responses::{
    KalshiOrderbookDeltaMessage, KalshiOrderbookSnapshotMessage, KalshiSide,
    KalshiWebsocketResponse,
};
use kalshi::websockets::session::{Session, SessionEvent};
use kalshi::websockets::KalshiChannel;

fn ticker(s: &str) -> String {
    s.to_string()
}

fn snapshot(market: &str, yes: Vec<(u32, i32)>, no: Vec<(u32, i32)>) -> KalshiOrderbookSnapshotMessage {
    KalshiOrderbookSnapshotMessage { market_ticker: ticker(market), yes: Some(yes), no: Some(no) }
}

fn delta(market: &str, side: KalshiSide, price: u32, delta: i32) -> KalshiOrderbookDeltaMessage {
    KalshiOrderbookDeltaMessage {
        market_ticker: ticker(market),
        price,
        delta,
        side,
        client_order_id: None,
    }
}

#[test]
fn end_to_end_snapshot_then_delta() {
    let mut session = Session::new();
    match session.subscribe(KalshiChannel::OrderbookDelta, vec![ticker("ABC")]) {
        Some(KalshiCommand::Subscribe { id, channel, market_tickers }) => {
            assert_eq!(id, 1);
            assert_eq!(channel, KalshiChannel::OrderbookDelta);
            assert_eq!(market_tickers, vec![ticker("ABC")]);
        }
        other => panic!("{:?}", other),
    }
    let ack = br#"{"type":"subscribed","id":1,"msg":{"channel":"orderbook_delta","sid":1}}"#;
    match session.handle_frame(ack) {
        Ok(SessionEvent::Subscribed { command_id, sid, channel }) => {
            assert_eq!((command_id, sid), (1, 1));
            assert_eq!(channel, KalshiChannel::OrderbookDelta);
        }
        other => panic!("{:?}", other),
    }
    // The book is there and waits for its snapshot.
    let (yes, no, stale) = session.reconciler().snapshot_view(1, &ticker("ABC")).unwrap();
    assert!(yes.is_empty() && no.is_empty() && stale);

    let frame = br#"{"type":"orderbook_snapshot","sid":1,"seq":5,"msg":{"market_ticker":"ABC","yes":[[50,100]],"no":[[48,80]]}}"#;
    match session.handle_frame(frame) {
        Ok(SessionEvent::BookUpdated { sid, market_ticker, seq }) => {
            assert_eq!((sid, seq), (1, 5));
            assert_eq!(market_ticker, "ABC");
        }
        other => panic!("{:?}", other),
    }
    let (yes, no, stale) = session.reconciler().snapshot_view(1, &ticker("ABC")).unwrap();
    assert_eq!(yes, vec![(50, 100)]);
    assert_eq!(no, vec![(48, 80)]);
    assert!(!stale);

    let frame = br#"{"type":"orderbook_delta","sid":1,"seq":6,"msg":{"market_ticker":"ABC","price":50,"delta":-100,"side":"yes"}}"#;
    match session.handle_frame(frame) {
        Ok(SessionEvent::BookUpdated { sid, market_ticker, seq }) => {
            assert_eq!((sid, seq), (1, 6));
            assert_eq!(market_ticker, "ABC");
        }
        other => panic!("{:?}", other),
    }
    let (yes, no, stale) = session.reconciler().snapshot_view(1, &ticker("ABC")).unwrap();
    assert!(yes.is_empty());
    assert_eq!(no, vec![(48, 80)]);
    assert!(!stale);
    assert_eq!(session.reconciler().last_applied_sequence(1, &ticker("ABC")), Some(6));
}

#[test]
fn gap_in_a_frame_stream_raises_resync() {
    let mut session = Session::new();
    let frame = br#"{"type":"orderbook_snapshot","sid":1,"seq":10,"msg":{"market_ticker":"ABC","yes":[[50,100]],"no":[]}}"#;
    assert!(matches!(session.handle_frame(frame), Ok(SessionEvent::BookUpdated { .. })));
    let frame = br#"{"type":"orderbook_delta","sid":1,"seq":12,"msg":{"market_ticker":"ABC","price":50,"delta":5,"side":"yes"}}"#;
    match session.handle_frame(frame) {
        Ok(SessionEvent::Resync(resync)) => {
            assert_eq!(resync.sid, 1);
            assert_eq!(resync.seq, 12);
            assert_eq!(resync.market_ticker, "ABC");
            assert_eq!(resync.reason, ResyncReason::SequenceGap);
        }
        other => panic!("{:?}", other),
    }
    let (yes, _, stale) = session.reconciler().snapshot_view(1, &ticker("ABC")).unwrap();
    assert_eq!(yes, vec![(50, 100)]);
    assert!(stale);
    assert_eq!(session.reconciler().last_applied_sequence(1, &ticker("ABC")), Some(10));
}

#[test]
fn undecodable_frame_changes_nothing_and_is_reported() {
    let mut session = Session::new();
    let frame = br#"{"type":"orderbook_snapshot","sid":1,"seq":10,"msg":{"market_ticker":"ABC","yes":[[50,100]]}}"#;
    session.handle_frame(frame).unwrap();
    match session.handle_frame(br#"{"type":"orderbook_omega","sid":1,"seq":11}"#) {
        Err(DecodeError::UnknownVariant(tag)) => assert_eq!(tag, "orderbook_omega"),
        other => panic!("{:?}", other),
    }
    assert!(matches!(session.handle_frame(b"{"), Err(DecodeError::InvalidJson)));
    let frame = br#"{"type":"orderbook_delta","sid":1,"seq":11,"msg":{"market_ticker":"ABC"}}"#;
    assert!(matches!(session.handle_frame(frame), Err(DecodeError::MalformedPayload(_))));
    let (yes, _, stale) = session.reconciler().snapshot_view(1, &ticker("ABC")).unwrap();
    assert_eq!(yes, vec![(50, 100)]);
    assert!(!stale);
}

#[test]
fn other_messages_pass_through() {
    let mut session = Session::new();
    let frame = br#"{"type":"unsubscribed","sid":3}"#;
    assert!(matches!(session.handle_frame(frame), Ok(SessionEvent::Unsubscribed { sid: 3 })));
    let frame = br#"{"type":"ok","id":4}"#;
    match session.handle_frame(frame) {
        Ok(SessionEvent::Message(KalshiWebsocketResponse::GenericOk { id, .. })) => {
            assert_eq!(id, Some(4))
        }
        other => panic!("{:?}", other),
    }
    // An acknowledgment that answers no pending command is handed on.
    let frame = br#"{"type":"subscribed","id":9,"msg":{"channel":"ticker","sid":2}}"#;
    match session.handle_frame(frame) {
        Ok(SessionEvent::Message(KalshiWebsocketResponse::Subscribed { id, msg })) => {
            assert_eq!(id, Some(9));
            assert_eq!(msg.sid, 2);
        }
        other => panic!("{:?}", other),
    }
    // So is an error that names no command of ours.
    let frame = br#"{"type":"error","id":9,"msg":{"code":5,"msg":"Unknown command"}}"#;
    match session.handle_frame(frame) {
        Ok(SessionEvent::Message(KalshiWebsocketResponse::Error { id, msg })) => {
            assert_eq!(id, Some(9));
            assert_eq!(msg.code, 5);
            assert_eq!(msg.msg, "Unknown command");
        }
        other => panic!("{:?}", other),
    }
}

#[test]
fn subscription_on_another_channel_makes_no_books() {
    let mut session = Session::new();
    session.subscribe(KalshiChannel::Ticker, vec![ticker("ABC")]).unwrap();
    let ack = br#"{"type":"subscribed","id":1,"msg":{"channel":"ticker","sid":4}}"#;
    assert!(matches!(session.handle_frame(ack), Ok(SessionEvent::Subscribed { .. })));
    assert!(session.reconciler().snapshot_view(4, &ticker("ABC")).is_none());
    assert_eq!(session.registry().state(1), Some(SubscriptionState::Confirmed { sid: 4 }));
}

#[test]
fn refused_subscribe_command_fails() {
    let mut session = Session::new();
    session.subscribe(KalshiChannel::OrderbookDelta, vec![ticker("ABC")]).unwrap();
    let frame = br#"{"type":"error","id":1,"msg":{"code":8,"msg":"Unknown channel name"}}"#;
    match session.handle_frame(frame) {
        Ok(SessionEvent::SubscriptionFailed(error)) => {
            assert_eq!(error.command_id, 1);
            assert_eq!(error.code, 8);
            assert_eq!(error.msg, "Unknown channel name");
        }
        other => panic!("{:?}", other),
    }
    assert_eq!(session.registry().state(1), Some(SubscriptionState::Failed { code: Some(8) }));
    // A late acknowledgment does not revive it.
    let ack = br#"{"type":"subscribed","id":1,"msg":{"channel":"orderbook_delta","sid":1}}"#;
    assert!(matches!(session.handle_frame(ack), Ok(SessionEvent::Message(_))));
    assert_eq!(session.registry().state(1), Some(SubscriptionState::Failed { code: Some(8) }));
    assert!(session.reconciler().snapshot_view(1, &ticker("ABC")).is_none());
}

#[test]
fn unsubscribe_removes_subscription_and_books() {
    let mut session = Session::new();
    session.subscribe(KalshiChannel::OrderbookDelta, vec![ticker("A"), ticker("B")]).unwrap();
    let ack = br#"{"type":"subscribed","id":1,"msg":{"channel":"orderbook_delta","sid":7}}"#;
    session.handle_frame(ack).unwrap();
    assert!(session.reconciler().has_book(7, &ticker("A")));
    assert!(session.reconciler().has_book(7, &ticker("B")));
    // No command for a subscription that is not there.
    assert!(session.unsubscribe(8).is_none());
    match session.unsubscribe(7) {
        Some(KalshiCommand::Unsubscribe { id, sid }) => assert_eq!((id, sid), (2, 7)),
        other => panic!("{:?}", other),
    }
    // Until the exchange confirms, everything stays.
    assert!(session.reconciler().has_book(7, &ticker("A")));
    assert_eq!(session.registry().state(1), Some(SubscriptionState::Confirmed { sid: 7 }));
    let frame = br#"{"type":"unsubscribed","sid":7}"#;
    assert!(matches!(session.handle_frame(frame), Ok(SessionEvent::Unsubscribed { sid: 7 })));
    assert_eq!(session.registry().state(1), Some(SubscriptionState::Removed));
    assert!(!session.reconciler().has_book(7, &ticker("A")));
    assert!(!session.reconciler().has_book(7, &ticker("B")));
    assert!(session.unsubscribe(7).is_none());
}

#[test]
fn refused_unsubscribe_command_is_reported() {
    let mut session = Session::new();
    session.subscribe(KalshiChannel::Trade, vec![]).unwrap();
    session
        .handle_message(KalshiWebsocketResponse::Subscribed {
            id: Some(1),
            msg: kalshi::websockets::responses::KalshiSubscribeMessage {
                channel: KalshiChannel::Trade,
                sid: 3,
            },
        });
    session.unsubscribe(3).unwrap();
    let frame = br#"{"type":"error","id":2,"msg":{"code":12,"msg":"Unknown subscription ID"}}"#;
    match session.handle_frame(frame) {
        Ok(SessionEvent::SubscriptionFailed(error)) => {
            assert_eq!((error.command_id, error.code), (2, 12));
        }
        other => panic!("{:?}", other),
    }
    assert_eq!(session.registry().state(1), Some(SubscriptionState::Confirmed { sid: 3 }));
    // Answered once: the same error again names no command.
    assert!(matches!(session.handle_frame(frame), Ok(SessionEvent::Message(_))));
}

#[test]
fn disconnect_leaves_nothing_live() {
    let mut session = Session::new();
    session.subscribe(KalshiChannel::OrderbookDelta, vec![ticker("A")]).unwrap();
    session.subscribe(KalshiChannel::Ticker, vec![ticker("A")]).unwrap();
    let ack = br#"{"type":"subscribed","id":1,"msg":{"channel":"orderbook_delta","sid":7}}"#;
    session.handle_frame(ack).unwrap();
    session
        .handle_message(KalshiWebsocketResponse::OrderbookSnapshot {
            sid: 7,
            seq: 1,
            msg: snapshot("A", vec![(10, 1)], vec![]),
        });
    session.disconnect();
    assert_eq!(session.registry().state(1), Some(SubscriptionState::Removed));
    assert_eq!(session.registry().state(2), Some(SubscriptionState::Failed { code: None }));
    let (yes, _, stale) = session.reconciler().snapshot_view(7, &ticker("A")).unwrap();
    assert!(stale);
    assert_eq!(yes, vec![(10, 1)]);
    // Deltas are refused until a fresh snapshot arrives.
    let event = session.handle_message(KalshiWebsocketResponse::OrderbookDelta {
        sid: 7,
        seq: 2,
        msg: delta("A", KalshiSide::Yes, 10, 1),
    });
    match event {
        SessionEvent::Resync(resync) => assert_eq!(resync.reason, ResyncReason::Stale),
        other => panic!("{:?}", other),
    }
    let event = session.handle_message(KalshiWebsocketResponse::OrderbookSnapshot {
        sid: 7,
        seq: 40,
        msg: snapshot("A", vec![(11, 2)], vec![]),
    });
    assert!(matches!(event, SessionEvent::BookUpdated { seq: 40, .. }));
    let (yes, _, stale) = session.reconciler().snapshot_view(7, &ticker("A")).unwrap();
    assert!(!stale);
    assert_eq!(yes, vec![(11, 2)]);
}

#[test]
fn registry_follows_its_state_machine() {
    let mut registry = SubscriptionRegistry::new();
    assert_eq!(registry.state(1), None);
    assert!(registry.subscribe(KalshiChannel::Fill, vec![]).is_some());
    assert!(registry.subscribe(KalshiChannel::Trade, vec![ticker("X")]).is_some());
    assert_eq!(registry.state(1), Some(SubscriptionState::Pending));
    assert_eq!(registry.state(2), Some(SubscriptionState::Pending));
    assert!(!registry.is_confirmed(5));
    let (channel, markets) = registry.on_subscribed(2, 5).unwrap();
    assert_eq!(channel, KalshiChannel::Trade);
    assert_eq!(markets, vec![ticker("X")]);
    assert!(registry.is_confirmed(5));
    assert_eq!(registry.confirmed(5), Some((KalshiChannel::Trade, vec![ticker("X")])));
    assert_eq!(registry.confirmed(6), None);
    // confirmed stays confirmed under its first id
    assert!(registry.on_subscribed(2, 6).is_none());
    assert_eq!(registry.state(2), Some(SubscriptionState::Confirmed { sid: 5 }));
    // an error does not touch a confirmed subscription
    assert_eq!(registry.on_error(2, 1, ticker("late")).unwrap_err(), "late");
    assert_eq!(registry.state(2), Some(SubscriptionState::Confirmed { sid: 5 }));
    let error = registry.on_error(1, 3, ticker("no")).unwrap();
    assert_eq!((error.command_id, error.code), (1, 3));
    assert_eq!(error.msg, "no");
    assert_eq!(registry.state(1), Some(SubscriptionState::Failed { code: Some(3) }));
    assert!(!registry.on_unsubscribed(9));
    assert!(registry.on_unsubscribed(5));
    assert_eq!(registry.state(2), Some(SubscriptionState::Removed));
    assert!(!registry.on_unsubscribed(5));
    registry.on_disconnect();
    assert_eq!(registry.state(1), Some(SubscriptionState::Failed { code: Some(3) }));
    assert_eq!(registry.state(2), Some(SubscriptionState::Removed));
    // ids are never used again
    match registry.subscribe(KalshiChannel::Fill, vec![]) {
        Some(KalshiCommand::Subscribe { id, .. }) => assert_eq!(id, 3),
        other => panic!("{:?}", other),
    }
}

#[test]
fn reconciler_keeps_markets_apart() {
    let mut books = OrderBookReconciler::new();
    books.on_snapshot(1, 3, &snapshot("A", vec![(10, 1)], vec![])).unwrap();
    books.on_snapshot(1, 8, &snapshot("B", vec![(20, 2)], vec![])).unwrap();
    books.on_snapshot(2, 1, &snapshot("A", vec![(30, 3)], vec![])).unwrap();
    assert!(books.on_delta(1, 4, &delta("A", KalshiSide::Yes, 10, 5)).is_ok());
    let resync = books.on_delta(1, 4, &delta("B", KalshiSide::Yes, 20, 5)).unwrap_err();
    assert_eq!(resync.reason, ResyncReason::SequenceGap);
    assert_eq!(resync.market_ticker, "B");
    assert_eq!((resync.sid, resync.seq), (1, 4));
    assert_eq!(books.snapshot_view(1, &ticker("A")).unwrap(), (vec![(10, 6)], vec![], false));
    assert_eq!(books.snapshot_view(1, &ticker("B")).unwrap(), (vec![(20, 2)], vec![], true));
    assert_eq!(books.snapshot_view(2, &ticker("A")).unwrap(), (vec![(30, 3)], vec![], false));
    // a delta for a market without a book
    let resync = books.on_delta(3, 1, &delta("A", KalshiSide::No, 1, 1)).unwrap_err();
    assert_eq!(resync.reason, ResyncReason::Stale);
    assert!(!books.has_book(3, &ticker("A")));
    // a snapshot with a negative quantity
    let resync = books.on_snapshot(2, 2, &snapshot("A", vec![(30, -3)], vec![])).unwrap_err();
    assert_eq!(resync.reason, ResyncReason::NegativeQuantity);
    assert_eq!(books.snapshot_view(2, &ticker("A")).unwrap(), (vec![(30, 3)], vec![], true));
    books.discard(1, &ticker("A"));
    assert!(!books.has_book(1, &ticker("A")));
    assert!(books.has_book(1, &ticker("B")));
    books.discard_subscription(1);
    assert!(!books.has_book(1, &ticker("B")));
    assert!(books.has_book(2, &ticker("A")));
    books.expect_snapshot(2, &ticker("A"));
    assert_eq!(books.snapshot_view(2, &ticker("A")).unwrap(), (vec![], vec![], true));
    books.mark_all_stale();
    assert_eq!(books.last_applied_sequence(2, &ticker("A")), Some(0));
    assert_eq!(books.last_applied_sequence(9, &ticker("A")), None);
}
