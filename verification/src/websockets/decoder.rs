//! Decoding of inbound frames: from JSON text to a typed message, or to the
//! reason why the frame is none.

use vstd::prelude::*;
use super::responses::{
    KalshiAction, KalshiEventLifecycleMessage, KalshiFillMessage, KalshiMarketAdditionalMetadata,
    KalshiMarketLifecycleMessage, KalshiMarketLifecycleV2Message, KalshiMarketPositionMessage,
    KalshiMultivariateLookupMessage, KalshiOrderbookDeltaMessage, KalshiOrderbookErrorMessage,
    KalshiOrderbookSnapshotMessage, KalshiSelectedMarket, KalshiSide, KalshiSubscribeMessage,
    KalshiTickerMessage, KalshiTradeMessage, KalshiWebsocketResponse,
};
use super::{channel_named, KalshiChannel};
use crate::json::{
    field_reads, get_field, get_opt_field, json_parse, member, opt_field_reads, opt_text,
    parse_value, read_text, text_of, value_member, value_model, FromJson, JsonModel,
};
use crate::kalshi_error::DecodeError;
use crate::text::str_eq;

verus! {

/// The side of the given name.
pub open spec fn side_named(name: Seq<char>) -> Option<KalshiSide> {
    if name == "yes"@ {
        Some(KalshiSide::Yes)
    } else if name == "no"@ {
        Some(KalshiSide::No)
    } else {
        None
    }
}

/// The action of the given name.
pub open spec fn action_named(name: Seq<char>) -> Option<KalshiAction> {
    if name == "buy"@ {
        Some(KalshiAction::Buy)
    } else if name == "sell"@ {
        Some(KalshiAction::Sell)
    } else {
        None
    }
}

/// A side reads from the string `yes` or `no`.
impl FromJson for KalshiSide {
    open spec fn reads(&self, m: JsonModel) -> bool {
        match text_of(m) {
            Some(name) => side_named(name) == Some(*self),
            None => false,
        }
    }

    fn from_json(v: &serde_json::Value) -> (r: Option<KalshiSide>) {
        let name = v.as_str()?;
        if str_eq(name, "yes") {
            Some(KalshiSide::Yes)
        } else if str_eq(name, "no") {
            Some(KalshiSide::No)
        } else {
            None
        }
    }
}

/// An action reads from the string `buy` or `sell`.
impl FromJson for KalshiAction {
    open spec fn reads(&self, m: JsonModel) -> bool {
        match text_of(m) {
            Some(name) => action_named(name) == Some(*self),
            None => false,
        }
    }

    fn from_json(v: &serde_json::Value) -> (r: Option<KalshiAction>) {
        let name = v.as_str()?;
        if str_eq(name, "buy") {
            Some(KalshiAction::Buy)
        } else if str_eq(name, "sell") {
            Some(KalshiAction::Sell)
        } else {
            None
        }
    }
}

/// A channel reads from its wire name.
impl FromJson for KalshiChannel {
    open spec fn reads(&self, m: JsonModel) -> bool {
        match text_of(m) {
            Some(name) => channel_named(name) == Some(*self),
            None => false,
        }
    }

    fn from_json(v: &serde_json::Value) -> (r: Option<KalshiChannel>) {
        KalshiChannel::from_name(v.as_str()?)
    }
}

/// Reads as the acknowledgment of a subscribe command. Each field is the
/// member of its name; an optional one may be missing or `null`; other
/// members are passed over.
impl FromJson for KalshiSubscribeMessage {
    open spec fn reads(&self, m: JsonModel) -> bool {
        &&& field_reads(self.channel, m, "channel"@)
        &&& field_reads(self.sid, m, "sid"@)
    }

    fn from_json(v: &serde_json::Value) -> (r: Option<KalshiSubscribeMessage>) {
        let channel = get_field(v, "channel")?;
        let sid = get_field(v, "sid")?;
        Some(KalshiSubscribeMessage { channel, sid })
    }
}

/// Reads as an error payload. Each field is the
/// member of its name; an optional one may be missing or `null`; other
/// members are passed over.
impl FromJson for KalshiOrderbookErrorMessage {
    open spec fn reads(&self, m: JsonModel) -> bool {
        &&& field_reads(self.code, m, "code"@)
        &&& field_reads(self.msg, m, "msg"@)
        &&& opt_field_reads(self.market_id, m, "market_id"@)
        &&& opt_field_reads(self.market_ticker, m, "market_ticker"@)
    }

    fn from_json(v: &serde_json::Value) -> (r: Option<KalshiOrderbookErrorMessage>) {
        let code = get_field(v, "code")?;
        let msg = get_field(v, "msg")?;
        let market_id = get_opt_field(v, "market_id")?;
        let market_ticker = get_opt_field(v, "market_ticker")?;
        Some(KalshiOrderbookErrorMessage { code, msg, market_id, market_ticker })
    }
}

/// Reads as a snapshot payload. Each field is the
/// member of its name; an optional one may be missing or `null`; other
/// members are passed over.
impl FromJson for KalshiOrderbookSnapshotMessage {
    open spec fn reads(&self, m: JsonModel) -> bool {
        &&& field_reads(self.market_ticker, m, "market_ticker"@)
        &&& opt_field_reads(self.yes, m, "yes"@)
        &&& opt_field_reads(self.no, m, "no"@)
    }

    fn from_json(v: &serde_json::Value) -> (r: Option<KalshiOrderbookSnapshotMessage>) {
        let market_ticker = get_field(v, "market_ticker")?;
        let yes = get_opt_field(v, "yes")?;
        let no = get_opt_field(v, "no")?;
        Some(KalshiOrderbookSnapshotMessage { market_ticker, yes, no })
    }
}

/// Reads as a delta payload. Each field is the
/// member of its name; an optional one may be missing or `null`; other
/// members are passed over.
impl FromJson for KalshiOrderbookDeltaMessage {
    open spec fn reads(&self, m: JsonModel) -> bool {
        &&& field_reads(self.market_ticker, m, "market_ticker"@)
        &&& field_reads(self.price, m, "price"@)
        &&& field_reads(self.delta, m, "delta"@)
        &&& field_reads(self.side, m, "side"@)
        &&& opt_field_reads(self.client_order_id, m, "client_order_id"@)
    }

    fn from_json(v: &serde_json::Value) -> (r: Option<KalshiOrderbookDeltaMessage>) {
        let market_ticker = get_field(v, "market_ticker")?;
        let price = get_field(v, "price")?;
        let delta = get_field(v, "delta")?;
        let side = get_field(v, "side")?;
        let client_order_id = get_opt_field(v, "client_order_id")?;
        Some(KalshiOrderbookDeltaMessage { market_ticker, price, delta, side, client_order_id })
    }
}

/// Reads as a ticker payload. Each field is the
/// member of its name; an optional one may be missing or `null`; other
/// members are passed over.
impl FromJson for KalshiTickerMessage {
    open spec fn reads(&self, m: JsonModel) -> bool {
        &&& field_reads(self.market_ticker, m, "market_ticker"@)
        &&& field_reads(self.price, m, "price"@)
        &&& field_reads(self.yes_bid, m, "yes_bid"@)
        &&& field_reads(self.yes_ask, m, "yes_ask"@)
        &&& field_reads(self.volume, m, "volume"@)
        &&& field_reads(self.open_interest, m, "open_interest"@)
        &&& field_reads(self.dollar_volume, m, "dollar_volume"@)
        &&& field_reads(self.dollar_open_interest, m, "dollar_open_interest"@)
        &&& field_reads(self.ts, m, "ts"@)
    }

    fn from_json(v: &serde_json::Value) -> (r: Option<KalshiTickerMessage>) {
        let market_ticker = get_field(v, "market_ticker")?;
        let price = get_field(v, "price")?;
        let yes_bid = get_field(v, "yes_bid")?;
        let yes_ask = get_field(v, "yes_ask")?;
        let volume = get_field(v, "volume")?;
        let open_interest = get_field(v, "open_interest")?;
        let dollar_volume = get_field(v, "dollar_volume")?;
        let dollar_open_interest = get_field(v, "dollar_open_interest")?;
        let ts = get_field(v, "ts")?;
        Some(KalshiTickerMessage {
            market_ticker,
            price,
            yes_bid,
            yes_ask,
            volume,
            open_interest,
            dollar_volume,
            dollar_open_interest,
            ts,
        })
    }
}

/// Reads as a trade payload. Each field is the
/// member of its name; an optional one may be missing or `null`; other
/// members are passed over.
impl FromJson for KalshiTradeMessage {
    open spec fn reads(&self, m: JsonModel) -> bool {
        &&& field_reads(self.market_ticker, m, "market_ticker"@)
        &&& field_reads(self.yes_price, m, "yes_price"@)
        &&& field_reads(self.no_price, m, "no_price"@)
        &&& field_reads(self.count, m, "count"@)
        &&& field_reads(self.taker_side, m, "taker_side"@)
        &&& field_reads(self.ts, m, "ts"@)
    }

    fn from_json(v: &serde_json::Value) -> (r: Option<KalshiTradeMessage>) {
        let market_ticker = get_field(v, "market_ticker")?;
        let yes_price = get_field(v, "yes_price")?;
        let no_price = get_field(v, "no_price")?;
        let count = get_field(v, "count")?;
        let taker_side = get_field(v, "taker_side")?;
        let ts = get_field(v, "ts")?;
        Some(KalshiTradeMessage { market_ticker, yes_price, no_price, count, taker_side, ts })
    }
}

/// Reads as a fill payload. Each field is the
/// member of its name; an optional one may be missing or `null`; other
/// members are passed over.
impl FromJson for KalshiFillMessage {
    open spec fn reads(&self, m: JsonModel) -> bool {
        &&& field_reads(self.trade_id, m, "trade_id"@)
        &&& field_reads(self.order_id, m, "order_id"@)
        &&& field_reads(self.market_ticker, m, "market_ticker"@)
        &&& field_reads(self.is_taker, m, "is_taker"@)
        &&& field_reads(self.side, m, "side"@)
        &&& field_reads(self.yes_price, m, "yes_price"@)
        &&& field_reads(self.no_price, m, "no_price"@)
        &&& field_reads(self.count, m, "count"@)
        &&& field_reads(self.action, m, "action"@)
        &&& field_reads(self.ts, m, "ts"@)
        &&& opt_field_reads(self.client_order_id, m, "client_order_id"@)
        &&& opt_field_reads(self.post_position, m, "post_position"@)
    }

    fn from_json(v: &serde_json::Value) -> (r: Option<KalshiFillMessage>) {
        let trade_id = get_field(v, "trade_id")?;
        let order_id = get_field(v, "order_id")?;
        let market_ticker = get_field(v, "market_ticker")?;
        let is_taker = get_field(v, "is_taker")?;
        let side = get_field(v, "side")?;
        let yes_price = get_field(v, "yes_price")?;
        let no_price = get_field(v, "no_price")?;
        let count = get_field(v, "count")?;
        let action = get_field(v, "action")?;
        let ts = get_field(v, "ts")?;
        let client_order_id = get_opt_field(v, "client_order_id")?;
        let post_position = get_opt_field(v, "post_position")?;
        Some(KalshiFillMessage {
            trade_id,
            order_id,
            market_ticker,
            is_taker,
            side,
            yes_price,
            no_price,
            count,
            action,
            ts,
            client_order_id,
            post_position,
        })
    }
}

/// Reads as a market-lifecycle payload. Each field is the
/// member of its name; an optional one may be missing or `null`; other
/// members are passed over.
impl FromJson for KalshiMarketLifecycleMessage {
    open spec fn reads(&self, m: JsonModel) -> bool {
        &&& field_reads(self.market_ticker, m, "market_ticker"@)
        &&& field_reads(self.close_ts, m, "close_ts"@)
        &&& opt_field_reads(self.determination_ts, m, "determination_ts"@)
        &&& opt_field_reads(self.settled_ts, m, "settled_ts"@)
        &&& opt_field_reads(self.result, m, "result"@)
        &&& field_reads(self.is_deactivated, m, "is_deactivated"@)
    }

    fn from_json(v: &serde_json::Value) -> (r: Option<KalshiMarketLifecycleMessage>) {
        let market_ticker = get_field(v, "market_ticker")?;
        let close_ts = get_field(v, "close_ts")?;
        let determination_ts = get_opt_field(v, "determination_ts")?;
        let settled_ts = get_opt_field(v, "settled_ts")?;
        let result = get_opt_field(v, "result")?;
        let is_deactivated = get_field(v, "is_deactivated")?;
        Some(KalshiMarketLifecycleMessage {
            market_ticker,
            close_ts,
            determination_ts,
            settled_ts,
            result,
            is_deactivated,
        })
    }
}

/// Reads as the additional metadata of a market. Each field is the
/// member of its name; an optional one may be missing or `null`; other
/// members are passed over.
impl FromJson for KalshiMarketAdditionalMetadata {
    open spec fn reads(&self, m: JsonModel) -> bool {
        &&& opt_field_reads(self.name, m, "name"@)
        &&& opt_field_reads(self.title, m, "title"@)
        &&& opt_field_reads(self.yes_sub_title, m, "yes_sub_title"@)
        &&& opt_field_reads(self.no_sub_title, m, "no_sub_title"@)
        &&& opt_field_reads(self.rules_primary, m, "rules_primary"@)
        &&& opt_field_reads(self.rules_secondary, m, "rules_secondary"@)
        &&& opt_field_reads(self.can_close_early, m, "can_close_early"@)
        &&& opt_field_reads(self.expected_expiration_ts, m, "expected_expiration_ts"@)
        &&& opt_field_reads(self.strike_type, m, "strike_type"@)
        &&& opt_field_reads(self.floor_strike, m, "floor_strike"@)
        &&& opt_field_reads(self.cap_strike, m, "cap_strike"@)
        &&& opt_field_reads(self.custom_strike, m, "custom_strike"@)
    }

    fn from_json(v: &serde_json::Value) -> (r: Option<KalshiMarketAdditionalMetadata>) {
        let name = get_opt_field(v, "name")?;
        let title = get_opt_field(v, "title")?;
        let yes_sub_title = get_opt_field(v, "yes_sub_title")?;
        let no_sub_title = get_opt_field(v, "no_sub_title")?;
        let rules_primary = get_opt_field(v, "rules_primary")?;
        let rules_secondary = get_opt_field(v, "rules_secondary")?;
        let can_close_early = get_opt_field(v, "can_close_early")?;
        let expected_expiration_ts = get_opt_field(v, "expected_expiration_ts")?;
        let strike_type = get_opt_field(v, "strike_type")?;
        let floor_strike = get_opt_field(v, "floor_strike")?;
        let cap_strike = get_opt_field(v, "cap_strike")?;
        let custom_strike = get_opt_field(v, "custom_strike")?;
        Some(KalshiMarketAdditionalMetadata {
            name,
            title,
            yes_sub_title,
            no_sub_title,
            rules_primary,
            rules_secondary,
            can_close_early,
            expected_expiration_ts,
            strike_type,
            floor_strike,
            cap_strike,
            custom_strike,
        })
    }
}

/// Reads as a market-lifecycle payload of the second version. Each field is the
/// member of its name; an optional one may be missing or `null`; other
/// members are passed over.
impl FromJson for KalshiMarketLifecycleV2Message {
    open spec fn reads(&self, m: JsonModel) -> bool {
        &&& field_reads(self.event_type, m, "event_type"@)
        &&& field_reads(self.market_ticker, m, "market_ticker"@)
        &&& opt_field_reads(self.open_ts, m, "open_ts"@)
        &&& opt_field_reads(self.close_ts, m, "close_ts"@)
        &&& opt_field_reads(self.result, m, "result"@)
        &&& opt_field_reads(self.determination_ts, m, "determination_ts"@)
        &&& opt_field_reads(self.settled_ts, m, "settled_ts"@)
        &&& opt_field_reads(self.is_deactivated, m, "is_deactivated"@)
        &&& opt_field_reads(self.additional_metadata, m, "additional_metadata"@)
    }

    fn from_json(v: &serde_json::Value) -> (r: Option<KalshiMarketLifecycleV2Message>) {
        let event_type = get_field(v, "event_type")?;
        let market_ticker = get_field(v, "market_ticker")?;
        let open_ts = get_opt_field(v, "open_ts")?;
        let close_ts = get_opt_field(v, "close_ts")?;
        let result = get_opt_field(v, "result")?;
        let determination_ts = get_opt_field(v, "determination_ts")?;
        let settled_ts = get_opt_field(v, "settled_ts")?;
        let is_deactivated = get_opt_field(v, "is_deactivated")?;
        let additional_metadata = get_opt_field(v, "additional_metadata")?;
        Some(KalshiMarketLifecycleV2Message {
            event_type,
            market_ticker,
            open_ts,
            close_ts,
            result,
            determination_ts,
            settled_ts,
            is_deactivated,
            additional_metadata,
        })
    }
}

/// Reads as an event-lifecycle payload. Each field is the
/// member of its name; an optional one may be missing or `null`; other
/// members are passed over.
impl FromJson for KalshiEventLifecycleMessage {
    open spec fn reads(&self, m: JsonModel) -> bool {
        &&& field_reads(self.event_ticker, m, "event_ticker"@)
        &&& field_reads(self.title, m, "title"@)
        &&& field_reads(self.sub_title, m, "sub_title"@)
        &&& field_reads(self.collateral_return_type, m, "collateral_return_type"@)
        &&& field_reads(self.series_ticker, m, "series_ticker"@)
        &&& opt_field_reads(self.strike_date, m, "strike_date"@)
        &&& opt_field_reads(self.strike_period, m, "strike_period"@)
    }

    fn from_json(v: &serde_json::Value) -> (r: Option<KalshiEventLifecycleMessage>) {
        let event_ticker = get_field(v, "event_ticker")?;
        let title = get_field(v, "title")?;
        let sub_title = get_field(v, "sub_title")?;
        let collateral_return_type = get_field(v, "collateral_return_type")?;
        let series_ticker = get_field(v, "series_ticker")?;
        let strike_date = get_opt_field(v, "strike_date")?;
        let strike_period = get_opt_field(v, "strike_period")?;
        Some(KalshiEventLifecycleMessage {
            event_ticker,
            title,
            sub_title,
            collateral_return_type,
            series_ticker,
            strike_date,
            strike_period,
        })
    }
}

/// Reads as one selected market of a lookup. Each field is the
/// member of its name; an optional one may be missing or `null`; other
/// members are passed over.
impl FromJson for KalshiSelectedMarket {
    open spec fn reads(&self, m: JsonModel) -> bool {
        &&& field_reads(self.event_ticker, m, "event_ticker"@)
        &&& field_reads(self.market_ticker, m, "market_ticker"@)
        &&& field_reads(self.side, m, "side"@)
    }

    fn from_json(v: &serde_json::Value) -> (r: Option<KalshiSelectedMarket>) {
        let event_ticker = get_field(v, "event_ticker")?;
        let market_ticker = get_field(v, "market_ticker")?;
        let side = get_field(v, "side")?;
        Some(KalshiSelectedMarket { event_ticker, market_ticker, side })
    }
}

/// Reads as a multivariate-lookup payload. Each field is the
/// member of its name; an optional one may be missing or `null`; other
/// members are passed over.
impl FromJson for KalshiMultivariateLookupMessage {
    open spec fn reads(&self, m: JsonModel) -> bool {
        &&& field_reads(self.collection_ticker, m, "collection_ticker"@)
        &&& field_reads(self.event_ticker, m, "event_ticker"@)
        &&& field_reads(self.market_ticker, m, "market_ticker"@)
        &&& field_reads(self.selected_markets, m, "selected_markets"@)
    }

    fn from_json(v: &serde_json::Value) -> (r: Option<KalshiMultivariateLookupMessage>) {
        let collection_ticker = get_field(v, "collection_ticker")?;
        let event_ticker = get_field(v, "event_ticker")?;
        let market_ticker = get_field(v, "market_ticker")?;
        let selected_markets = get_field(v, "selected_markets")?;
        Some(KalshiMultivariateLookupMessage {
            collection_ticker,
            event_ticker,
            market_ticker,
            selected_markets,
        })
    }
}

/// Reads as a market-position payload. Each field is the
/// member of its name; an optional one may be missing or `null`; other
/// members are passed over.
impl FromJson for KalshiMarketPositionMessage {
    open spec fn reads(&self, m: JsonModel) -> bool {
        &&& field_reads(self.user_id, m, "user_id"@)
        &&& field_reads(self.market_ticker, m, "market_ticker"@)
        &&& field_reads(self.position, m, "position"@)
        &&& field_reads(self.position_cost, m, "position_cost"@)
        &&& field_reads(self.realized_pnl, m, "realized_pnl"@)
        &&& field_reads(self.fees_paid, m, "fees_paid"@)
        &&& field_reads(self.volume, m, "volume"@)
    }

    fn from_json(v: &serde_json::Value) -> (r: Option<KalshiMarketPositionMessage>) {
        let user_id = get_field(v, "user_id")?;
        let market_ticker = get_field(v, "market_ticker")?;
        let position = get_field(v, "position")?;
        let position_cost = get_field(v, "position_cost")?;
        let realized_pnl = get_field(v, "realized_pnl")?;
        let fees_paid = get_field(v, "fees_paid")?;
        let volume = get_field(v, "volume")?;
        Some(KalshiMarketPositionMessage {
            user_id,
            market_ticker,
            position,
            position_cost,
            realized_pnl,
            fees_paid,
            volume,
        })
    }
}

/// The kinds of frame, one for each value of the member `type` that the
/// protocol knows.
#[derive(Debug, Clone, Copy, PartialEq, Eq, Structural)]
pub enum FrameKind {
    OrderbookSnapshot,
    OrderbookDelta,
    Ticker,
    Trade,
    Fill,
    MarketLifecycle,
    MarketLifecycleV2,
    EventLifecycle,
    MultivariateLookup,
    MarketPosition,
    Subscribed,
    Unsubscribed,
    GenericOk,
    Error,
}

impl FrameKind {
    /// The value of `type` that announces this kind.
    pub open spec fn name(self) -> Seq<char> {
        match self {
            FrameKind::OrderbookSnapshot => "orderbook_snapshot"@,
            FrameKind::OrderbookDelta => "orderbook_delta"@,
            FrameKind::Ticker => "ticker"@,
            FrameKind::Trade => "trade"@,
            FrameKind::Fill => "fill"@,
            FrameKind::MarketLifecycle => "market_lifecycle"@,
            FrameKind::MarketLifecycleV2 => "market_lifecycle_v2"@,
            FrameKind::EventLifecycle => "event_lifecycle"@,
            FrameKind::MultivariateLookup => "multivariate_lookup"@,
            FrameKind::MarketPosition => "market_position"@,
            FrameKind::Subscribed => "subscribed"@,
            FrameKind::Unsubscribed => "unsubscribed"@,
            FrameKind::GenericOk => "ok"@,
            FrameKind::Error => "error"@,
        }
    }

    /// The kind that `tag` announces; nothing for a tag that the protocol
    /// does not know.
    pub fn from_name(tag: &str) -> (kind: Option<FrameKind>)
        ensures
            kind == kind_named(tag@),
    {
        if str_eq(tag, "orderbook_snapshot") {
            Some(FrameKind::OrderbookSnapshot)
        } else if str_eq(tag, "orderbook_delta") {
            Some(FrameKind::OrderbookDelta)
        } else if str_eq(tag, "ticker") {
            Some(FrameKind::Ticker)
        } else if str_eq(tag, "trade") {
            Some(FrameKind::Trade)
        } else if str_eq(tag, "fill") {
            Some(FrameKind::Fill)
        } else if str_eq(tag, "market_lifecycle") {
            Some(FrameKind::MarketLifecycle)
        } else if str_eq(tag, "market_lifecycle_v2") {
            Some(FrameKind::MarketLifecycleV2)
        } else if str_eq(tag, "event_lifecycle") {
            Some(FrameKind::EventLifecycle)
        } else if str_eq(tag, "multivariate_lookup") {
            Some(FrameKind::MultivariateLookup)
        } else if str_eq(tag, "market_position") {
            Some(FrameKind::MarketPosition)
        } else if str_eq(tag, "subscribed") {
            Some(FrameKind::Subscribed)
        } else if str_eq(tag, "unsubscribed") {
            Some(FrameKind::Unsubscribed)
        } else if str_eq(tag, "ok") {
            Some(FrameKind::GenericOk)
        } else if str_eq(tag, "error") {
            Some(FrameKind::Error)
        } else {
            None
        }
    }
}

/// The kind that `tag` announces.
pub open spec fn kind_named(tag: Seq<char>) -> Option<FrameKind> {
    if tag == "orderbook_snapshot"@ {
        Some(FrameKind::OrderbookSnapshot)
    } else if tag == "orderbook_delta"@ {
        Some(FrameKind::OrderbookDelta)
    } else if tag == "ticker"@ {
        Some(FrameKind::Ticker)
    } else if tag == "trade"@ {
        Some(FrameKind::Trade)
    } else if tag == "fill"@ {
        Some(FrameKind::Fill)
    } else if tag == "market_lifecycle"@ {
        Some(FrameKind::MarketLifecycle)
    } else if tag == "market_lifecycle_v2"@ {
        Some(FrameKind::MarketLifecycleV2)
    } else if tag == "event_lifecycle"@ {
        Some(FrameKind::EventLifecycle)
    } else if tag == "multivariate_lookup"@ {
        Some(FrameKind::MultivariateLookup)
    } else if tag == "market_position"@ {
        Some(FrameKind::MarketPosition)
    } else if tag == "subscribed"@ {
        Some(FrameKind::Subscribed)
    } else if tag == "unsubscribed"@ {
        Some(FrameKind::Unsubscribed)
    } else if tag == "ok"@ {
        Some(FrameKind::GenericOk)
    } else if tag == "error"@ {
        Some(FrameKind::Error)
    } else {
        None
    }
}

/// Each kind is the one that its own name announces: no two kinds share a
/// name.
pub proof fn lemma_kind_names(kind: FrameKind)
    ensures
        kind_named(kind.name()) == Some(kind),
{
    reveal_strlit("orderbook_snapshot");
    reveal_strlit("orderbook_delta");
    reveal_strlit("ticker");
    reveal_strlit("trade");
    reveal_strlit("fill");
    reveal_strlit("market_lifecycle");
    reveal_strlit("market_lifecycle_v2");
    reveal_strlit("event_lifecycle");
    reveal_strlit("multivariate_lookup");
    reveal_strlit("market_position");
    reveal_strlit("subscribed");
    reveal_strlit("unsubscribed");
    reveal_strlit("ok");
    reveal_strlit("error");
    assert("orderbook_snapshot"@.len() == 18);
    assert("orderbook_delta"@.len() == 15 && "orderbook_delta"@[0] == 'o');
    assert("ticker"@.len() == 6);
    assert("trade"@.len() == 5 && "trade"@[0] == 't');
    assert("fill"@.len() == 4);
    assert("market_lifecycle"@.len() == 16);
    assert("market_lifecycle_v2"@.len() == 19 && "market_lifecycle_v2"@[1] == 'a');
    assert("event_lifecycle"@.len() == 15 && "event_lifecycle"@[0] == 'e');
    assert("multivariate_lookup"@.len() == 19 && "multivariate_lookup"@[1] == 'u');
    assert("market_position"@.len() == 15 && "market_position"@[0] == 'm');
    assert("subscribed"@.len() == 10);
    assert("unsubscribed"@.len() == 12);
    assert("ok"@.len() == 2);
    assert("error"@.len() == 5 && "error"@[0] == 'e');
}

impl KalshiWebsocketResponse {
    /// The kind of frame that this message comes in.
    pub open spec fn kind(self) -> FrameKind {
        match self {
            KalshiWebsocketResponse::OrderbookSnapshot { .. } => FrameKind::OrderbookSnapshot,
            KalshiWebsocketResponse::OrderbookDelta { .. } => FrameKind::OrderbookDelta,
            KalshiWebsocketResponse::Ticker { .. } => FrameKind::Ticker,
            KalshiWebsocketResponse::Trade { .. } => FrameKind::Trade,
            KalshiWebsocketResponse::Fill { .. } => FrameKind::Fill,
            KalshiWebsocketResponse::MarketLifecycle { .. } => FrameKind::MarketLifecycle,
            KalshiWebsocketResponse::MarketLifecycleV2 { .. } => FrameKind::MarketLifecycleV2,
            KalshiWebsocketResponse::EventLifecycle { .. } => FrameKind::EventLifecycle,
            KalshiWebsocketResponse::MultivariateLookup { .. } => FrameKind::MultivariateLookup,
            KalshiWebsocketResponse::MarketPosition { .. } => FrameKind::MarketPosition,
            KalshiWebsocketResponse::Subscribed { .. } => FrameKind::Subscribed,
            KalshiWebsocketResponse::Unsubscribed { .. } => FrameKind::Unsubscribed,
            KalshiWebsocketResponse::GenericOk { .. } => FrameKind::GenericOk,
            KalshiWebsocketResponse::Error { .. } => FrameKind::Error,
        }
    }

    /// Whether the frame `f` holds this message: the subscription id, the
    /// sequence number and the command id are the members `sid`, `seq` and
    /// `id`, of which the command id may be missing, and the payload is the
    /// member `msg`.
    pub open spec fn reads(self, f: JsonModel) -> bool {
        match self {
            KalshiWebsocketResponse::OrderbookSnapshot { sid, seq, msg } => {
                &&& field_reads(sid, f, "sid"@)
                &&& field_reads(seq, f, "seq"@)
                &&& field_reads(msg, f, "msg"@)
            },
            KalshiWebsocketResponse::OrderbookDelta { sid, seq, msg } => {
                &&& field_reads(sid, f, "sid"@)
                &&& field_reads(seq, f, "seq"@)
                &&& field_reads(msg, f, "msg"@)
            },
            KalshiWebsocketResponse::Ticker { sid, msg } => {
                &&& field_reads(sid, f, "sid"@)
                &&& field_reads(msg, f, "msg"@)
            },
            KalshiWebsocketResponse::Trade { sid, msg } => {
                &&& field_reads(sid, f, "sid"@)
                &&& field_reads(msg, f, "msg"@)
            },
            KalshiWebsocketResponse::Fill { sid, msg } => {
                &&& field_reads(sid, f, "sid"@)
                &&& field_reads(msg, f, "msg"@)
            },
            KalshiWebsocketResponse::MarketLifecycle { sid, msg } => {
                &&& field_reads(sid, f, "sid"@)
                &&& field_reads(msg, f, "msg"@)
            },
            KalshiWebsocketResponse::MarketLifecycleV2 { sid, msg } => {
                &&& field_reads(sid, f, "sid"@)
                &&& field_reads(msg, f, "msg"@)
            },
            KalshiWebsocketResponse::EventLifecycle { sid, msg } => {
                &&& field_reads(sid, f, "sid"@)
                &&& field_reads(msg, f, "msg"@)
            },
            KalshiWebsocketResponse::MultivariateLookup { sid, msg } => {
                &&& field_reads(sid, f, "sid"@)
                &&& field_reads(msg, f, "msg"@)
            },
            KalshiWebsocketResponse::MarketPosition { sid, msg } => {
                &&& field_reads(sid, f, "sid"@)
                &&& field_reads(msg, f, "msg"@)
            },
            KalshiWebsocketResponse::Subscribed { id, msg } => {
                &&& opt_field_reads(id, f, "id"@)
                &&& field_reads(msg, f, "msg"@)
            },
            KalshiWebsocketResponse::Unsubscribed { sid } => field_reads(sid, f, "sid"@),
            KalshiWebsocketResponse::GenericOk { id, sid, seq, market_tickers } => {
                &&& opt_field_reads(id, f, "id"@)
                &&& opt_field_reads(sid, f, "sid"@)
                &&& opt_field_reads(seq, f, "seq"@)
                &&& opt_field_reads(market_tickers, f, "market_tickers"@)
            },
            KalshiWebsocketResponse::Error { id, msg } => {
                &&& opt_field_reads(id, f, "id"@)
                &&& field_reads(msg, f, "msg"@)
            },
        }
    }
}

/// Reads a frame of the given kind; nothing where the frame does not have
/// the shape of that kind.
pub fn read_frame(
    kind: FrameKind,
    frame: &serde_json::Value,
) -> (r: Option<KalshiWebsocketResponse>)
    ensures
        match r {
            Some(message) => message.kind() == kind && message.reads(value_model(*frame)),
            None => forall|message: KalshiWebsocketResponse|
                message.kind() == kind ==> !message.reads(value_model(*frame)),
        },
{
    match kind {
        FrameKind::OrderbookSnapshot => {
            let sid = get_field(frame, "sid")?;
            let seq = get_field(frame, "seq")?;
            let msg = get_field(frame, "msg")?;
            Some(KalshiWebsocketResponse::OrderbookSnapshot { sid, seq, msg })
        },
        FrameKind::OrderbookDelta => {
            let sid = get_field(frame, "sid")?;
            let seq = get_field(frame, "seq")?;
            let msg = get_field(frame, "msg")?;
            Some(KalshiWebsocketResponse::OrderbookDelta { sid, seq, msg })
        },
        FrameKind::Ticker => {
            let sid = get_field(frame, "sid")?;
            let msg = get_field(frame, "msg")?;
            Some(KalshiWebsocketResponse::Ticker { sid, msg })
        },
        FrameKind::Trade => {
            let sid = get_field(frame, "sid")?;
            let msg = get_field(frame, "msg")?;
            Some(KalshiWebsocketResponse::Trade { sid, msg })
        },
        FrameKind::Fill => {
            let sid = get_field(frame, "sid")?;
            let msg = get_field(frame, "msg")?;
            Some(KalshiWebsocketResponse::Fill { sid, msg })
        },
        FrameKind::MarketLifecycle => {
            let sid = get_field(frame, "sid")?;
            let msg = get_field(frame, "msg")?;
            Some(KalshiWebsocketResponse::MarketLifecycle { sid, msg })
        },
        FrameKind::MarketLifecycleV2 => {
            let sid = get_field(frame, "sid")?;
            let msg = get_field(frame, "msg")?;
            Some(KalshiWebsocketResponse::MarketLifecycleV2 { sid, msg })
        },
        FrameKind::EventLifecycle => {
            let sid = get_field(frame, "sid")?;
            let msg = get_field(frame, "msg")?;
            Some(KalshiWebsocketResponse::EventLifecycle { sid, msg })
        },
        FrameKind::MultivariateLookup => {
            let sid = get_field(frame, "sid")?;
            let msg = get_field(frame, "msg")?;
            Some(KalshiWebsocketResponse::MultivariateLookup { sid, msg })
        },
        FrameKind::MarketPosition => {
            let sid = get_field(frame, "sid")?;
            let msg = get_field(frame, "msg")?;
            Some(KalshiWebsocketResponse::MarketPosition { sid, msg })
        },
        FrameKind::Subscribed => {
            let id = get_opt_field(frame, "id")?;
            let msg = get_field(frame, "msg")?;
            Some(KalshiWebsocketResponse::Subscribed { id, msg })
        },
        FrameKind::Unsubscribed => {
            let sid = get_field(frame, "sid")?;
            Some(KalshiWebsocketResponse::Unsubscribed { sid })
        },
        FrameKind::GenericOk => {
            let id = get_opt_field(frame, "id")?;
            let sid = get_opt_field(frame, "sid")?;
            let seq = get_opt_field(frame, "seq")?;
            let market_tickers = get_opt_field(frame, "market_tickers")?;
            Some(KalshiWebsocketResponse::GenericOk { id, sid, seq, market_tickers })
        },
        FrameKind::Error => {
            let id = get_opt_field(frame, "id")?;
            let msg = get_field(frame, "msg")?;
            Some(KalshiWebsocketResponse::Error { id, msg })
        },
    }
}

/// The discriminant of a frame: its member `type`, where that is a string.
pub open spec fn discriminant(frame: JsonModel) -> Option<Seq<char>> {
    match member(frame, "type"@) {
        Some(found) => text_of(found),
        None => None,
    }
}

/// Reads the discriminant of a frame.
pub fn read_discriminant(frame: &serde_json::Value) -> (tag: Option<String>)
    ensures
        opt_text(tag) == discriminant(value_model(*frame)),
{
    read_text(value_member(frame, "type")?)
}

/// Whether `r` is what decoding the frame `frame` must give. A frame without
/// a string member `type` has no discriminant; a discriminant that the
/// protocol does not know is reported with its text; a known one gives the
/// message of its kind that the frame holds, or is reported as malformed
/// where the frame holds no message of that kind.
pub open spec fn decoded(
    r: Result<KalshiWebsocketResponse, DecodeError>,
    frame: JsonModel,
) -> bool {
    match discriminant(frame) {
        None => r matches Err(DecodeError::MissingDiscriminant),
        Some(tag) => match kind_named(tag) {
            None => r matches Err(DecodeError::UnknownVariant(found)) && found@ == tag,
            Some(kind) => match r {
                Ok(message) => message.kind() == kind && message.reads(frame),
                Err(DecodeError::MalformedPayload(found)) => found@ == tag && forall|
                    message: KalshiWebsocketResponse,
                | message.kind() == kind ==> !message.reads(frame),
                Err(_) => false,
            },
        },
    }
}

/// Decodes one parsed frame into the message it holds.
pub fn decode_value(frame: &serde_json::Value) -> (r: Result<KalshiWebsocketResponse, DecodeError>)
    ensures
        decoded(r, value_model(*frame)),
{
    let tag = match read_discriminant(frame) {
        Some(tag) => tag,
        None => {
            return Err(DecodeError::MissingDiscriminant);
        },
    };
    match FrameKind::from_name(tag.as_str()) {
        None => Err(DecodeError::UnknownVariant(tag)),
        Some(kind) => match read_frame(kind, frame) {
            Some(message) => Ok(message),
            None => Err(DecodeError::MalformedPayload(tag)),
        },
    }
}

/// Decodes one inbound frame. Bytes that are no JSON text are reported as
/// such; every other frame is decoded as `decoded` says, so that no frame is
/// passed over in silence.
pub fn decode(raw_frame: &[u8]) -> (r: Result<KalshiWebsocketResponse, DecodeError>)
    ensures
        match json_parse(raw_frame@) {
            Some(frame) => decoded(r, frame),
            None => r matches Err(DecodeError::InvalidJson),
        },
{
    match parse_value(raw_frame) {
        Ok(frame) => decode_value(&frame),
        Err(_) => Err(DecodeError::InvalidJson),
    }
}

/// A frame whose discriminant the protocol does not know decodes to the error
/// that says so, with the discriminant in it, and to nothing else.
pub proof fn lemma_unknown_discriminant(
    r: Result<KalshiWebsocketResponse, DecodeError>,
    frame: JsonModel,
    tag: Seq<char>,
)
    requires
        decoded(r, frame),
        discriminant(frame) == Some(tag),
        kind_named(tag) is None,
    ensures
        r matches Err(DecodeError::UnknownVariant(found)) && found@ == tag,
{
}

/// What a frame decodes to has the kind that the frame's discriminant
/// announces.
pub proof fn lemma_decoded_kind(message: KalshiWebsocketResponse, frame: JsonModel)
    requires
        decoded(Ok::<KalshiWebsocketResponse, DecodeError>(message), frame),
    ensures
        discriminant(frame) is Some,
        kind_named(discriminant(frame)->0) == Some(message.kind()),
        message.reads(frame),
{
}

} // verus!
