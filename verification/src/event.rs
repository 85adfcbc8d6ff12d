//! Events: their metadata, candlesticks, forecast history and markets.

use vstd::prelude::*;
use vstd::string::StringExecFns;
use crate::http::param_texts;
use crate::json::{field_reads, get_field, get_opt_field, opt_field_reads, FromJson, JsonModel};

verus! {

/// The path of an event's metadata.
pub fn event_metadata_path(event_ticker: &str) -> (path: String)
    ensures
        path@ == "/events/"@ + event_ticker@ + "/metadata"@,
{
    String::from_str("/events/").concat(event_ticker).concat("/metadata")
}

/// The path of an event's candlesticks.
pub fn event_candlesticks_path(event_ticker: &str) -> (path: String)
    ensures
        path@ == "/events/"@ + event_ticker@ + "/candlesticks"@,
{
    String::from_str("/events/").concat(event_ticker).concat("/candlesticks")
}

/// The path of an event's forecast history.
pub fn event_forecast_history_path(event_ticker: &str) -> (path: String)
    ensures
        path@ == "/cached/events/"@ + event_ticker@ + "/forecast_history"@,
{
    String::from_str("/cached/events/").concat(event_ticker).concat("/forecast_history")
}

/// The path of an event.
pub fn event_path(event_ticker: &str) -> (path: String)
    ensures
        path@ == "/events/"@ + event_ticker@,
{
    String::from_str("/events/").concat(event_ticker)
}

/// The query that asks for an event's markets beside the event, not nested
/// in it.
pub fn event_markets_params() -> (params: Vec<(&'static str, String)>)
    ensures
        param_texts(params@) == seq![("with_nested_markets"@, "false"@)],
{
    let mut params: Vec<(&'static str, String)> = Vec::new();
    params.push(("with_nested_markets", String::from_str("false")));
    assert(param_texts(params@) =~= seq![("with_nested_markets"@, "false"@)]);
    params
}

/// An official source by which an event is settled.
#[derive(Debug)]
pub struct SettlementSource {
    pub name: Option<String>,
    pub url: Option<String>,
}

/// Event metadata: competition, image and settlement sources.
#[derive(Debug)]
pub struct EventMetadata {
    pub competition: Option<String>,
    pub competition_scope: Option<String>,
    pub image_url: Option<String>,
    pub settlement_sources: Option<Vec<SettlementSource>>,
}

/// The candlesticks of all markets of an event: for each market in
/// `market_tickers`, at the same position, the list of its candlesticks.
#[derive(Debug)]
pub struct EventCandlesticks {
    pub adjusted_end_ts: Option<i64>,
    pub market_candlesticks: Vec<Vec<MarketCandlestick>>,
    pub market_tickers: Vec<String>,
}

/// One candlestick of one market and period.
#[derive(Debug)]
pub struct MarketCandlestick {
    pub end_period_ts: i64,
    pub open_interest: i64,
    pub price: PriceDistribution,
    pub volume: i64,
    pub yes_ask: BidAskDistribution,
    pub yes_bid: BidAskDistribution,
}

/// Open, high, low and close of the offers of a period.
#[derive(Debug)]
pub struct BidAskDistribution {
    pub open: i64,
    pub high: i64,
    pub low: i64,
    pub close: i64,
}

/// Statistics of the traded prices of a period; all missing where nothing
/// was traded.
#[derive(Debug)]
pub struct PriceDistribution {
    pub open: Option<i64>,
    pub high: Option<i64>,
    pub low: Option<i64>,
    pub close: Option<i64>,
    pub mean: Option<i64>,
    pub previous: Option<i64>,
}

/// One entry of an event's forecast history.
#[derive(Debug)]
pub struct ForecastPercentilesSeries {
    pub end_period_ts: i64,
    pub event_ticker: String,
    pub percentile_points: Vec<PercentilePoint>,
    pub period_interval: i64,
}

/// One percentile point of a forecast distribution.
#[derive(Debug)]
pub struct PercentilePoint {
    pub formatted_forecast: String,
    pub numerical_forecast: Option<serde_json::Value>,
    pub percentile: i64,
    pub raw_numerical_forecast: Option<serde_json::Value>,
}

/// The answer of the forecast-history endpoint.
#[derive(Debug)]
pub struct ForecastHistoryResponse {
    pub forecast_history: Vec<ForecastPercentilesSeries>,
}

/// The answer of the event endpoint, as far as the markets go: each market
/// as the exchange sent it.
#[derive(Debug)]
pub struct EventWithMarketsResponse {
    pub markets: Vec<serde_json::Value>,
}

/// Reads as a settlement source. Each field is the
/// member of its name; an optional one may be missing or `null`; other
/// members are passed over.
impl FromJson for SettlementSource {
    open spec fn reads(&self, m: JsonModel) -> bool {
        &&& opt_field_reads(self.name, m, "name"@)
        &&& opt_field_reads(self.url, m, "url"@)
    }

    fn from_json(v: &serde_json::Value) -> (r: Option<SettlementSource>) {
        let name = get_opt_field(v, "name")?;
        let url = get_opt_field(v, "url")?;
        Some(SettlementSource { name, url })
    }
}

/// Reads as the metadata of an event. Each field is the
/// member of its name; an optional one may be missing or `null`; other
/// members are passed over.
impl FromJson for EventMetadata {
    open spec fn reads(&self, m: JsonModel) -> bool {
        &&& opt_field_reads(self.competition, m, "competition"@)
        &&& opt_field_reads(self.competition_scope, m, "competition_scope"@)
        &&& opt_field_reads(self.image_url, m, "image_url"@)
        &&& opt_field_reads(self.settlement_sources, m, "settlement_sources"@)
    }

    fn from_json(v: &serde_json::Value) -> (r: Option<EventMetadata>) {
        let competition = get_opt_field(v, "competition")?;
        let competition_scope = get_opt_field(v, "competition_scope")?;
        let image_url = get_opt_field(v, "image_url")?;
        let settlement_sources = get_opt_field(v, "settlement_sources")?;
        Some(EventMetadata { competition, competition_scope, image_url, settlement_sources })
    }
}

/// Reads as the open, high, low and close of offers. Each field is the
/// member of its name; an optional one may be missing or `null`; other
/// members are passed over.
impl FromJson for BidAskDistribution {
    open spec fn reads(&self, m: JsonModel) -> bool {
        &&& field_reads(self.open, m, "open"@)
        &&& field_reads(self.high, m, "high"@)
        &&& field_reads(self.low, m, "low"@)
        &&& field_reads(self.close, m, "close"@)
    }

    fn from_json(v: &serde_json::Value) -> (r: Option<BidAskDistribution>) {
        let open = get_field(v, "open")?;
        let high = get_field(v, "high")?;
        let low = get_field(v, "low")?;
        let close = get_field(v, "close")?;
        Some(BidAskDistribution { open, high, low, close })
    }
}

/// Reads as the statistics of traded prices. Each field is the
/// member of its name; an optional one may be missing or `null`; other
/// members are passed over.
impl FromJson for PriceDistribution {
    open spec fn reads(&self, m: JsonModel) -> bool {
        &&& opt_field_reads(self.open, m, "open"@)
        &&& opt_field_reads(self.high, m, "high"@)
        &&& opt_field_reads(self.low, m, "low"@)
        &&& opt_field_reads(self.close, m, "close"@)
        &&& opt_field_reads(self.mean, m, "mean"@)
        &&& opt_field_reads(self.previous, m, "previous"@)
    }

    fn from_json(v: &serde_json::Value) -> (r: Option<PriceDistribution>) {
        let open = get_opt_field(v, "open")?;
        let high = get_opt_field(v, "high")?;
        let low = get_opt_field(v, "low")?;
        let close = get_opt_field(v, "close")?;
        let mean = get_opt_field(v, "mean")?;
        let previous = get_opt_field(v, "previous")?;
        Some(PriceDistribution { open, high, low, close, mean, previous })
    }
}

/// Reads as one candlestick. Each field is the
/// member of its name; an optional one may be missing or `null`; other
/// members are passed over.
impl FromJson for MarketCandlestick {
    open spec fn reads(&self, m: JsonModel) -> bool {
        &&& field_reads(self.end_period_ts, m, "end_period_ts"@)
        &&& field_reads(self.open_interest, m, "open_interest"@)
        &&& field_reads(self.price, m, "price"@)
        &&& field_reads(self.volume, m, "volume"@)
        &&& field_reads(self.yes_ask, m, "yes_ask"@)
        &&& field_reads(self.yes_bid, m, "yes_bid"@)
    }

    fn from_json(v: &serde_json::Value) -> (r: Option<MarketCandlestick>) {
        let end_period_ts = get_field(v, "end_period_ts")?;
        let open_interest = get_field(v, "open_interest")?;
        let price = get_field(v, "price")?;
        let volume = get_field(v, "volume")?;
        let yes_ask = get_field(v, "yes_ask")?;
        let yes_bid = get_field(v, "yes_bid")?;
        Some(MarketCandlestick { end_period_ts, open_interest, price, volume, yes_ask, yes_bid })
    }
}

/// Reads as the candlesticks of an event. Each field is the
/// member of its name; an optional one may be missing or `null`; other
/// members are passed over.
impl FromJson for EventCandlesticks {
    open spec fn reads(&self, m: JsonModel) -> bool {
        &&& opt_field_reads(self.adjusted_end_ts, m, "adjusted_end_ts"@)
        &&& field_reads(self.market_candlesticks, m, "market_candlesticks"@)
        &&& field_reads(self.market_tickers, m, "market_tickers"@)
    }

    fn from_json(v: &serde_json::Value) -> (r: Option<EventCandlesticks>) {
        let adjusted_end_ts = get_opt_field(v, "adjusted_end_ts")?;
        let market_candlesticks = get_field(v, "market_candlesticks")?;
        let market_tickers = get_field(v, "market_tickers")?;
        Some(EventCandlesticks { adjusted_end_ts, market_candlesticks, market_tickers })
    }
}

/// Reads as one percentile point. Each field is the
/// member of its name; an optional one may be missing or `null`; other
/// members are passed over.
impl FromJson for PercentilePoint {
    open spec fn reads(&self, m: JsonModel) -> bool {
        &&& field_reads(self.formatted_forecast, m, "formatted_forecast"@)
        &&& opt_field_reads(self.numerical_forecast, m, "numerical_forecast"@)
        &&& field_reads(self.percentile, m, "percentile"@)
        &&& opt_field_reads(self.raw_numerical_forecast, m, "raw_numerical_forecast"@)
    }

    fn from_json(v: &serde_json::Value) -> (r: Option<PercentilePoint>) {
        let formatted_forecast = get_field(v, "formatted_forecast")?;
        let numerical_forecast = get_opt_field(v, "numerical_forecast")?;
        let percentile = get_field(v, "percentile")?;
        let raw_numerical_forecast = get_opt_field(v, "raw_numerical_forecast")?;
        Some(PercentilePoint {
            formatted_forecast,
            numerical_forecast,
            percentile,
            raw_numerical_forecast,
        })
    }
}

/// Reads as one entry of a forecast history. Each field is the
/// member of its name; an optional one may be missing or `null`; other
/// members are passed over.
impl FromJson for ForecastPercentilesSeries {
    open spec fn reads(&self, m: JsonModel) -> bool {
        &&& field_reads(self.end_period_ts, m, "end_period_ts"@)
        &&& field_reads(self.event_ticker, m, "event_ticker"@)
        &&& field_reads(self.percentile_points, m, "percentile_points"@)
        &&& field_reads(self.period_interval, m, "period_interval"@)
    }

    fn from_json(v: &serde_json::Value) -> (r: Option<ForecastPercentilesSeries>) {
        let end_period_ts = get_field(v, "end_period_ts")?;
        let event_ticker = get_field(v, "event_ticker")?;
        let percentile_points = get_field(v, "percentile_points")?;
        let period_interval = get_field(v, "period_interval")?;
        Some(ForecastPercentilesSeries {
            end_period_ts,
            event_ticker,
            percentile_points,
            period_interval,
        })
    }
}

/// Reads as the answer that holds a forecast history. Each field is the
/// member of its name; an optional one may be missing or `null`; other
/// members are passed over.
impl FromJson for ForecastHistoryResponse {
    open spec fn reads(&self, m: JsonModel) -> bool {
        &&& field_reads(self.forecast_history, m, "forecast_history"@)
    }

    fn from_json(v: &serde_json::Value) -> (r: Option<ForecastHistoryResponse>) {
        let forecast_history = get_field(v, "forecast_history")?;
        Some(ForecastHistoryResponse { forecast_history })
    }
}

/// Reads as the answer that holds the markets of an event. Each field is the
/// member of its name; an optional one may be missing or `null`; other
/// members are passed over.
impl FromJson for EventWithMarketsResponse {
    open spec fn reads(&self, m: JsonModel) -> bool {
        &&& field_reads(self.markets, m, "markets"@)
    }

    fn from_json(v: &serde_json::Value) -> (r: Option<EventWithMarketsResponse>) {
        let markets = get_field(v, "markets")?;
        Some(EventWithMarketsResponse { markets })
    }
}

} // verus!
