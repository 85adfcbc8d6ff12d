use kalshi::json::FromJson;
use kalshi::kalshi_error::DecodeError;
use kalshi::websockets::decoder::{decode, decode_value, read_frame, FrameKind};
use kalshi::websockets::responses::{
    KalshiAction, KalshiMarketAdditionalMetadata, KalshiSelectedMarket, KalshiSide,
    KalshiTickerMessage, KalshiWebsocketResponse,
};
use kalshi::websockets::KalshiChannel;

fn unknown_variant(r: Result<KalshiWebsocketResponse, DecodeError>) -> String {
    match r {
        Err(DecodeError::UnknownVariant(tag)) => tag,
        other => panic!("expected an unknown variant, got {:?}", other),
    }
}

fn malformed(r: Result<KalshiWebsocketResponse, DecodeError>) -> String {
    match r {
        Err(DecodeError::MalformedPayload(tag)) => tag,
        other => panic!("expected a malformed payload, got {:?}", other),
    }
}

#[test]
fn unknown_discriminant_is_reported() {
    assert_eq!(unknown_variant(decode(br#"{"type":"heartbeat","sid":1}"#)), "heartbeat");
    assert_eq!(unknown_variant(decode(br#"{"type":"","sid":1}"#)), "");
    assert_eq!(unknown_variant(decode(br#"{"type":"Ticker","sid":1}"#)), "Ticker");
    assert_eq!(unknown_variant(decode(br#"{"type":"orderbook_snapshots"}"#)), "orderbook_snapshots");
}

#[test]
fn bytes_that_are_no_json_are_reported() {
    assert!(matches!(decode(b"not json"), Err(DecodeError::InvalidJson)));
    assert!(matches!(decode(b""), Err(DecodeError::InvalidJson)));
    assert!(matches!(decode(br#"{"type":"ticker""#), Err(DecodeError::InvalidJson)));
    assert!(matches!(decode(&[0xff, 0xfe]), Err(DecodeError::InvalidJson)));
}

#[test]
fn frame_without_discriminant_is_reported() {
    assert!(matches!(decode(br#"{"sid":1}"#), Err(DecodeError::MissingDiscriminant)));
    assert!(matches!(decode(br#"{"type":7}"#), Err(DecodeError::MissingDiscriminant)));
    assert!(matches!(decode(br#"{"type":null}"#), Err(DecodeError::MissingDiscriminant)));
    assert!(matches!(decode(br#"[1,2]"#), Err(DecodeError::MissingDiscriminant)));
    assert!(matches!(decode(br#""ticker""#), Err(DecodeError::MissingDiscriminant)));
}

#[test]
fn snapshot_frame_decodes() {
    let raw = br#"{"type":"orderbook_snapshot","sid":1,"seq":5,"msg":{"market_ticker":"ABC","yes":[[50,100]],"no":[[48,80]]}}"#;
    match decode(raw) {
        Ok(KalshiWebsocketResponse::OrderbookSnapshot { sid, seq, msg }) => {
            assert_eq!(sid, 1);
            assert_eq!(seq, 5);
            assert_eq!(msg.market_ticker, "ABC");
            assert_eq!(msg.yes, Some(vec![(50, 100)]));
            assert_eq!(msg.no, Some(vec![(48, 80)]));
        }
        other => panic!("{:?}", other),
    }
}

#[test]
fn snapshot_sides_may_be_missing_or_null() {
    let raw = br#"{"type":"orderbook_snapshot","sid":1,"seq":5,"msg":{"market_ticker":"ABC","no":null}}"#;
    match decode(raw) {
        Ok(KalshiWebsocketResponse::OrderbookSnapshot { msg, .. }) => {
            assert_eq!(msg.yes, None);
            assert_eq!(msg.no, None);
        }
        other => panic!("{:?}", other),
    }
    let raw = br#"{"type":"orderbook_snapshot","sid":1,"seq":5,"msg":{"market_ticker":"ABC","yes":[]}}"#;
    match decode(raw) {
        Ok(KalshiWebsocketResponse::OrderbookSnapshot { msg, .. }) => {
            assert_eq!(msg.yes, Some(vec![]));
        }
        other => panic!("{:?}", other),
    }
}

#[test]
fn snapshot_with_a_bad_level_is_malformed() {
    for raw in [
        &br#"{"type":"orderbook_snapshot","sid":1,"seq":5,"msg":{"market_ticker":"ABC","yes":[[50]]}}"#[..],
        &br#"{"type":"orderbook_snapshot","sid":1,"seq":5,"msg":{"market_ticker":"ABC","yes":[[50,1,2]]}}"#[..],
        &br#"{"type":"orderbook_snapshot","sid":1,"seq":5,"msg":{"market_ticker":"ABC","yes":[[-1,1]]}}"#[..],
        &br#"{"type":"orderbook_snapshot","sid":1,"seq":5,"msg":{"market_ticker":"ABC","yes":[[1,2147483648]]}}"#[..],
        &br#"{"type":"orderbook_snapshot","sid":1,"seq":5,"msg":{"market_ticker":"ABC","yes":[[1,1.5]]}}"#[..],
        &br#"{"type":"orderbook_snapshot","sid":1,"seq":5,"msg":{"market_ticker":"ABC","yes":{"50":100}}}"#[..],
        &br#"{"type":"orderbook_snapshot","sid":1,"seq":5,"msg":{"market_ticker":"ABC","yes":[[50,100],"x"]}}"#[..],
    ] {
        assert_eq!(malformed(decode(raw)), "orderbook_snapshot");
    }
}

#[test]
fn delta_frame_decodes() {
    let raw = br#"{"type":"orderbook_delta","sid":1,"seq":6,"msg":{"market_ticker":"ABC","price":50,"delta":-100,"side":"yes"}}"#;
    match decode(raw) {
        Ok(KalshiWebsocketResponse::OrderbookDelta { sid, seq, msg }) => {
            assert_eq!((sid, seq), (1, 6));
            assert_eq!(msg.market_ticker, "ABC");
            assert_eq!(msg.price, 50);
            assert_eq!(msg.delta, -100);
            assert_eq!(msg.side, KalshiSide::Yes);
            assert_eq!(msg.client_order_id, None);
        }
        other => panic!("{:?}", other),
    }
}

#[test]
fn known_discriminant_with_wrong_payload_is_malformed() {
    // no sequence number
    let raw = br#"{"type":"orderbook_delta","sid":1,"msg":{"market_ticker":"ABC","price":50,"delta":1,"side":"yes"}}"#;
    assert_eq!(malformed(decode(raw)), "orderbook_delta");
    // a side that does not exist
    let raw = br#"{"type":"orderbook_delta","sid":1,"seq":2,"msg":{"market_ticker":"ABC","price":50,"delta":1,"side":"maybe"}}"#;
    assert_eq!(malformed(decode(raw)), "orderbook_delta");
    // no payload
    assert_eq!(malformed(decode(br#"{"type":"ticker","sid":1}"#)), "ticker");
    // the payload is no object
    assert_eq!(malformed(decode(br#"{"type":"ticker","sid":1,"msg":[]}"#)), "ticker");
    // a subscription id that does not fit
    let raw = br#"{"type":"unsubscribed","sid":4294967296}"#;
    assert_eq!(malformed(decode(raw)), "unsubscribed");
    // a number written as a string
    let raw = br#"{"type":"unsubscribed","sid":"1"}"#;
    assert_eq!(malformed(decode(raw)), "unsubscribed");
    // a required string that is null
    let raw = br#"{"type":"orderbook_delta","sid":1,"seq":2,"msg":{"market_ticker":null,"price":50,"delta":1,"side":"yes"}}"#;
    assert_eq!(malformed(decode(raw)), "orderbook_delta");
}

#[test]
fn ticker_frame_decodes() {
    let raw = br#"{"type":"ticker","sid":11,"msg":{"market_ticker":"T","price":48,"yes_bid":45,"yes_ask":53,"volume":33896,"open_interest":20422,"dollar_volume":16948,"dollar_open_interest":10211,"ts":1669149841,"extra":true}}"#;
    match decode(raw) {
        Ok(KalshiWebsocketResponse::Ticker { sid, msg }) => {
            assert_eq!(sid, 11);
            assert_eq!(msg.market_ticker, "T");
            assert_eq!(msg.price, 48);
            assert_eq!(msg.yes_bid, 45);
            assert_eq!(msg.yes_ask, 53);
            assert_eq!(msg.volume, 33896);
            assert_eq!(msg.open_interest, 20422);
            assert_eq!(msg.dollar_volume, 16948);
            assert_eq!(msg.dollar_open_interest, 10211);
            assert_eq!(msg.ts, 1669149841);
        }
        other => panic!("{:?}", other),
    }
}

#[test]
fn trade_and_fill_frames_decode() {
    let raw = br#"{"type":"trade","sid":2,"msg":{"market_ticker":"T","yes_price":36,"no_price":64,"count":136,"taker_side":"no","ts":18446744073709551615}}"#;
    match decode(raw) {
        Ok(KalshiWebsocketResponse::Trade { sid, msg }) => {
            assert_eq!(sid, 2);
            assert_eq!((msg.yes_price, msg.no_price, msg.count), (36, 64, 136));
            assert_eq!(msg.taker_side, KalshiSide::No);
            assert_eq!(msg.ts, u64::MAX);
        }
        other => panic!("{:?}", other),
    }
    let raw = br#"{"type":"fill","sid":13,"msg":{"trade_id":"t1","order_id":"o1","market_ticker":"T","is_taker":true,"side":"yes","yes_price":75,"no_price":25,"count":278,"action":"sell","ts":1671899397,"post_position":-5}}"#;
    match decode(raw) {
        Ok(KalshiWebsocketResponse::Fill { sid, msg }) => {
            assert_eq!(sid, 13);
            assert_eq!(msg.trade_id, "t1");
            assert_eq!(msg.order_id, "o1");
            assert!(msg.is_taker);
            assert_eq!(msg.side, KalshiSide::Yes);
            assert_eq!(msg.action, KalshiAction::Sell);
            assert_eq!(msg.client_order_id, None);
            assert_eq!(msg.post_position, Some(-5));
        }
        other => panic!("{:?}", other),
    }
}

#[test]
fn lifecycle_frames_decode() {
    let raw = br#"{"type":"market_lifecycle","sid":3,"msg":{"market_ticker":"T","close_ts":10,"determination_ts":11,"result":"yes","is_deactivated":false}}"#;
    match decode(raw) {
        Ok(KalshiWebsocketResponse::MarketLifecycle { sid, msg }) => {
            assert_eq!(sid, 3);
            assert_eq!(msg.close_ts, 10);
            assert_eq!(msg.determination_ts, Some(11));
            assert_eq!(msg.settled_ts, None);
            assert_eq!(msg.result.as_deref(), Some("yes"));
            assert!(!msg.is_deactivated);
        }
        other => panic!("{:?}", other),
    }
    let raw = br#"{"type":"market_lifecycle_v2","sid":3,"msg":{"event_type":"created","market_ticker":"T","open_ts":1,"additional_metadata":{"name":"n","can_close_early":true,"custom_strike":{"a":[1,2]}}}}"#;
    match decode(raw) {
        Ok(KalshiWebsocketResponse::MarketLifecycleV2 { sid, msg }) => {
            assert_eq!(sid, 3);
            assert_eq!(msg.event_type, "created");
            assert_eq!(msg.open_ts, Some(1));
            assert_eq!(msg.close_ts, None);
            let meta = msg.additional_metadata.unwrap();
            assert_eq!(meta.name.as_deref(), Some("n"));
            assert_eq!(meta.can_close_early, Some(true));
            assert_eq!(meta.title, None);
            let strike: serde_json::Value = serde_json::from_str(r#"{"a":[1,2]}"#).unwrap();
            assert_eq!(meta.custom_strike, Some(strike));
        }
        other => panic!("{:?}", other),
    }
    let raw = br#"{"type":"market_lifecycle_v2","sid":3,"msg":{"event_type":"created","market_ticker":"T","additional_metadata":{"name":5}}}"#;
    assert_eq!(malformed(decode(raw)), "market_lifecycle_v2");
    let raw = br#"{"type":"event_lifecycle","sid":4,"msg":{"event_ticker":"E","title":"t","sub_title":"s","collateral_return_type":"c","series_ticker":"S","strike_date":9}}"#;
    match decode(raw) {
        Ok(KalshiWebsocketResponse::EventLifecycle { sid, msg }) => {
            assert_eq!(sid, 4);
            assert_eq!(msg.event_ticker, "E");
            assert_eq!(msg.series_ticker, "S");
            assert_eq!(msg.strike_date, Some(9));
            assert_eq!(msg.strike_period, None);
        }
        other => panic!("{:?}", other),
    }
}

#[test]
fn lookup_and_position_frames_decode() {
    let raw = br#"{"type":"multivariate_lookup","sid":5,"msg":{"collection_ticker":"C","event_ticker":"E","market_ticker":"M","selected_markets":[{"event_ticker":"E1","market_ticker":"M1","side":"yes"},{"event_ticker":"E2","market_ticker":"M2","side":"no"}]}}"#;
    match decode(raw) {
        Ok(KalshiWebsocketResponse::MultivariateLookup { sid, msg }) => {
            assert_eq!(sid, 5);
            assert_eq!(msg.collection_ticker, "C");
            assert_eq!(msg.selected_markets.len(), 2);
            assert_eq!(msg.selected_markets[0].market_ticker, "M1");
            assert_eq!(msg.selected_markets[1].event_ticker, "E2");
            assert_eq!(msg.selected_markets[1].side, KalshiSide::No);
        }
        other => panic!("{:?}", other),
    }
    let raw = br#"{"type":"multivariate_lookup","sid":5,"msg":{"collection_ticker":"C","event_ticker":"E","market_ticker":"M","selected_markets":[{"event_ticker":"E1","market_ticker":"M1","side":"yes"},{"event_ticker":"E2","side":"no"}]}}"#;
    assert_eq!(malformed(decode(raw)), "multivariate_lookup");
    let raw = br#"{"type":"multivariate_lookup","sid":5,"msg":{"collection_ticker":"C","event_ticker":"E","market_ticker":"M"}}"#;
    assert_eq!(malformed(decode(raw)), "multivariate_lookup");
    let raw = br#"{"type":"market_position","sid":6,"msg":{"user_id":"u","market_ticker":"M","position":-3,"position_cost":-9223372036854775808,"realized_pnl":7,"fees_paid":9223372036854775807,"volume":2}}"#;
    match decode(raw) {
        Ok(KalshiWebsocketResponse::MarketPosition { sid, msg }) => {
            assert_eq!(sid, 6);
            assert_eq!(msg.position, -3);
            assert_eq!(msg.position_cost, i64::MIN);
            assert_eq!(msg.realized_pnl, 7);
            assert_eq!(msg.fees_paid, i64::MAX);
            assert_eq!(msg.volume, 2);
        }
        other => panic!("{:?}", other),
    }
}

#[test]
fn acknowledgments_and_errors_decode() {
    let raw = br#"{"type":"subscribed","id":1,"msg":{"channel":"orderbook_delta","sid":7}}"#;
    match decode(raw) {
        Ok(KalshiWebsocketResponse::Subscribed { id, msg }) => {
            assert_eq!(id, Some(1));
            assert_eq!(msg.channel, KalshiChannel::OrderbookDelta);
            assert_eq!(msg.sid, 7);
        }
        other => panic!("{:?}", other),
    }
    let raw = br#"{"type":"subscribed","msg":{"channel":"market_positions","sid":7}}"#;
    match decode(raw) {
        Ok(KalshiWebsocketResponse::Subscribed { id, msg }) => {
            assert_eq!(id, None);
            assert_eq!(msg.channel, KalshiChannel::MarketPositions);
        }
        other => panic!("{:?}", other),
    }
    let raw = br#"{"type":"subscribed","id":1,"msg":{"channel":"candles","sid":7}}"#;
    assert_eq!(malformed(decode(raw)), "subscribed");
    match decode(br#"{"type":"unsubscribed","sid":7}"#) {
        Ok(KalshiWebsocketResponse::Unsubscribed { sid }) => assert_eq!(sid, 7),
        other => panic!("{:?}", other),
    }
    let raw = br#"{"type":"error","id":123,"msg":{"code":6,"msg":"Already subscribed","market_ticker":"M"}}"#;
    match decode(raw) {
        Ok(KalshiWebsocketResponse::Error { id, msg }) => {
            assert_eq!(id, Some(123));
            assert_eq!(msg.code, 6);
            assert_eq!(msg.msg, "Already subscribed");
            assert_eq!(msg.market_id, None);
            assert_eq!(msg.market_ticker.as_deref(), Some("M"));
        }
        other => panic!("{:?}", other),
    }
    let raw = br#"{"type":"ok","id":9,"sid":2,"seq":3,"market_tickers":["A","B"]}"#;
    match decode(raw) {
        Ok(KalshiWebsocketResponse::GenericOk { id, sid, seq, market_tickers }) => {
            assert_eq!((id, sid, seq), (Some(9), Some(2), Some(3)));
            assert_eq!(market_tickers, Some(vec!["A".to_string(), "B".to_string()]));
        }
        other => panic!("{:?}", other),
    }
    match decode(br#"{"type":"ok"}"#) {
        Ok(KalshiWebsocketResponse::GenericOk { id, sid, seq, market_tickers }) => {
            assert_eq!((id, sid, seq), (None, None, None));
            assert_eq!(market_tickers, None);
        }
        other => panic!("{:?}", other),
    }
    assert_eq!(malformed(decode(br#"{"type":"ok","market_tickers":["A",1]}"#)), "ok");
}

#[test]
fn decode_value_reads_a_parsed_frame() {
    let frame: serde_json::Value = serde_json::from_str(r#"{"type":"unsubscribed","sid":3}"#).unwrap();
    assert!(matches!(decode_value(&frame), Ok(KalshiWebsocketResponse::Unsubscribed { sid: 3 })));
    let frame: serde_json::Value = serde_json::from_str(r#"{"type":"nope","sid":3}"#).unwrap();
    assert_eq!(unknown_variant(decode_value(&frame)), "nope");
    // The kind is taken from the caller, not from the frame.
    let frame: serde_json::Value = serde_json::from_str(r#"{"type":"ticker","sid":3}"#).unwrap();
    assert!(matches!(
        read_frame(FrameKind::Unsubscribed, &frame),
        Some(KalshiWebsocketResponse::Unsubscribed { sid: 3 })
    ));
    assert!(read_frame(FrameKind::Ticker, &frame).is_none());
}

#[test]
fn every_known_discriminant_has_its_kind() {
    let names = [
        ("orderbook_snapshot", FrameKind::OrderbookSnapshot),
        ("orderbook_delta", FrameKind::OrderbookDelta),
        ("ticker", FrameKind::Ticker),
        ("trade", FrameKind::Trade),
        ("fill", FrameKind::Fill),
        ("market_lifecycle", FrameKind::MarketLifecycle),
        ("market_lifecycle_v2", FrameKind::MarketLifecycleV2),
        ("event_lifecycle", FrameKind::EventLifecycle),
        ("multivariate_lookup", FrameKind::MultivariateLookup),
        ("market_position", FrameKind::MarketPosition),
        ("subscribed", FrameKind::Subscribed),
        ("unsubscribed", FrameKind::Unsubscribed),
        ("ok", FrameKind::GenericOk),
        ("error", FrameKind::Error),
    ];
    for (name, kind) in names {
        assert_eq!(FrameKind::from_name(name), Some(kind));
    }
    assert_eq!(FrameKind::from_name("market_positions"), None);
    assert_eq!(FrameKind::from_name("OK"), None);
}

#[test]
fn messages_read_from_json_values() {
    let v: serde_json::Value = serde_json::from_str(
        r#"{"market_ticker":"T","price":1,"yes_bid":2,"yes_ask":3,"volume":4,"open_interest":5,"dollar_volume":6,"dollar_open_interest":7,"ts":8}"#,
    )
    .unwrap();
    let msg = KalshiTickerMessage::from_json(&v).unwrap();
    assert_eq!((msg.price, msg.yes_bid, msg.yes_ask, msg.volume), (1, 2, 3, 4));
    assert_eq!((msg.open_interest, msg.dollar_volume, msg.dollar_open_interest, msg.ts), (5, 6, 7, 8));
    let v: serde_json::Value = serde_json::from_str(r#"{"market_ticker":"T","price":1}"#).unwrap();
    assert!(KalshiTickerMessage::from_json(&v).is_none());
    let v: serde_json::Value =
        serde_json::from_str(r#"{"event_ticker":"E","market_ticker":"M","side":"no"}"#).unwrap();
    let market = KalshiSelectedMarket::from_json(&v).unwrap();
    assert_eq!(market.side, KalshiSide::No);
    let v: serde_json::Value = serde_json::from_str(r#"{}"#).unwrap();
    let meta = KalshiMarketAdditionalMetadata::from_json(&v).unwrap();
    assert!(meta.name.is_none() && meta.custom_strike.is_none());
    let v: serde_json::Value = serde_json::from_str(r#"{"custom_strike":null,"cap_strike":false}"#).unwrap();
    let meta = KalshiMarketAdditionalMetadata::from_json(&v).unwrap();
    assert!(meta.custom_strike.is_none());
    assert_eq!(meta.cap_strike, Some(false));
}

#[test]
fn channel_names_round_trip() {
    let channels = [
        (KalshiChannel::OrderbookDelta, "orderbook_delta"),
        (KalshiChannel::Ticker, "ticker"),
        (KalshiChannel::Trade, "trade"),
        (KalshiChannel::Fill, "fill"),
        (KalshiChannel::MarketLifecycle, "market_lifecycle"),
        (KalshiChannel::MarketLifecycleV2, "market_lifecycle_v2"),
        (KalshiChannel::MarketPositions, "market_positions"),
        (KalshiChannel::Multivariate, "multivariate"),
    ];
    for (channel, name) in channels {
        assert_eq!(channel.as_str(), name);
        let converted: &'static str = channel.into();
        assert_eq!(converted, name);
        assert_eq!(KalshiChannel::from_name(name), Some(channel));
    }
    assert_eq!(KalshiChannel::from_name("orderbook"), None);
}
