//! Series: their list, their fee changes and the candlesticks of their
//! markets.

use vstd::prelude::*;
use vstd::string::StringExecFns;
use crate::event::MarketCandlestick;
use crate::http::param_texts;
use crate::json::{field_reads, get_field, FromJson, JsonModel};
use crate::text::{bool_str, bool_text, signed_decimal, signed_decimal_string};

verus! {

/// The path of the list of series.
pub const SERIES_PATH: &'static str = "/series";

/// The path of the upcoming fee changes.
pub const SERIES_FEE_CHANGES_PATH: &'static str = "/series/fee_changes";

/// The query of the list of series: the category always, and the other two
/// where they are given, in this order.
pub open spec fn series_list_param_texts(
    category: Seq<char>,
    include_product_metadata: Option<bool>,
    tags: Option<Seq<char>>,
) -> Seq<(Seq<char>, Seq<char>)> {
    seq![("category"@, category)] + (match include_product_metadata {
        Some(wanted) => seq![("include_product_metadata"@, bool_text(wanted))],
        None => seq![],
    }) + (match tags {
        Some(tags) => seq![("tags"@, tags)],
        None => seq![],
    })
}

/// The query of the list of series.
pub fn series_list_params(
    category: String,
    include_product_metadata: Option<bool>,
    tags: Option<String>,
) -> (params: Vec<(&'static str, String)>)
    ensures
        param_texts(params@) == series_list_param_texts(
            category@,
            include_product_metadata,
            match tags {
                Some(tags) => Some(tags@),
                None => None,
            },
        ),
{
    let mut params: Vec<(&'static str, String)> = Vec::new();
    params.push(("category", category));
    match include_product_metadata {
        Some(wanted) => {
            params.push(("include_product_metadata", String::from_str(bool_str(wanted))));
        },
        None => {},
    }
    match tags {
        Some(tags) => {
            params.push(("tags", tags));
        },
        None => {},
    }
    assert(param_texts(params@) =~= series_list_param_texts(
        category@,
        include_product_metadata,
        match tags {
            Some(tags) => Some(tags@),
            None => None,
        },
    ));
    params
}

/// The path of the candlesticks of a market of a series.
pub fn market_candlesticks_path(series_ticker: &str, market_ticker: &str) -> (path: String)
    ensures
        path@ == "/series/"@ + series_ticker@ + "/markets/"@ + market_ticker@ + "/candlesticks"@,
{
    String::from_str("/series/").concat(series_ticker).concat("/markets/").concat(
        market_ticker,
    ).concat("/candlesticks")
}

/// The query of the candlesticks of a market: start, end and the length of
/// a period in minutes.
pub fn market_candlesticks_params(start_ts: i64, end_ts: i64, period_interval: i64) -> (params: Vec<
    (&'static str, String),
>)
    ensures
        param_texts(params@) == seq![
            ("start_ts"@, signed_decimal(start_ts as int)),
            ("end_ts"@, signed_decimal(end_ts as int)),
            ("period_interval"@, signed_decimal(period_interval as int)),
        ],
{
    let mut params: Vec<(&'static str, String)> = Vec::new();
    params.push(("start_ts", signed_decimal_string(start_ts)));
    params.push(("end_ts", signed_decimal_string(end_ts)));
    params.push(("period_interval", signed_decimal_string(period_interval)));
    assert(param_texts(params@) =~= seq![
        ("start_ts"@, signed_decimal(start_ts as int)),
        ("end_ts"@, signed_decimal(end_ts as int)),
        ("period_interval"@, signed_decimal(period_interval as int)),
    ]);
    params
}

/// The answer of the series endpoint: each series as the exchange sent it.
#[derive(Debug)]
pub struct SeriesListResponse {
    pub series: Vec<serde_json::Value>,
}

/// The answer of the fee-changes endpoint: each change as the exchange sent
/// it.
#[derive(Debug)]
pub struct SeriesFeeChangesResponse {
    pub series_fee_change_arr: Vec<serde_json::Value>,
}

/// The answer of the candlesticks endpoint of a market.
#[derive(Debug)]
pub struct MarketCandlesticksResponse {
    pub ticker: String,
    pub candlesticks: Vec<MarketCandlestick>,
}

/// Reads as the answer that holds a list of series. Each field is the
/// member of its name; an optional one may be missing or `null`; other
/// members are passed over.
impl FromJson for SeriesListResponse {
    open spec fn reads(&self, m: JsonModel) -> bool {
        &&& field_reads(self.series, m, "series"@)
    }

    fn from_json(v: &serde_json::Value) -> (r: Option<SeriesListResponse>) {
        let series = get_field(v, "series")?;
        Some(SeriesListResponse { series })
    }
}

/// Reads as the answer that holds the fee changes. Each field is the
/// member of its name; an optional one may be missing or `null`; other
/// members are passed over.
impl FromJson for SeriesFeeChangesResponse {
    open spec fn reads(&self, m: JsonModel) -> bool {
        &&& field_reads(self.series_fee_change_arr, m, "series_fee_change_arr"@)
    }

    fn from_json(v: &serde_json::Value) -> (r: Option<SeriesFeeChangesResponse>) {
        let series_fee_change_arr = get_field(v, "series_fee_change_arr")?;
        Some(SeriesFeeChangesResponse { series_fee_change_arr })
    }
}

/// Reads as the answer that holds the candlesticks of a market. Each field is the
/// member of its name; an optional one may be missing or `null`; other
/// members are passed over.
impl FromJson for MarketCandlesticksResponse {
    open spec fn reads(&self, m: JsonModel) -> bool {
        &&& field_reads(self.ticker, m, "ticker"@)
        &&& field_reads(self.candlesticks, m, "candlesticks"@)
    }

    fn from_json(v: &serde_json::Value) -> (r: Option<MarketCandlesticksResponse>) {
        let ticker = get_field(v, "ticker")?;
        let candlesticks = get_field(v, "candlesticks")?;
        Some(MarketCandlesticksResponse { ticker, candlesticks })
    }
}

} // verus!
