use kalshi::auth::{timestamp_of, Credential, HttpMethod};
use kalshi::event::{
    event_candlesticks_path, event_forecast_history_path, event_markets_params,
    event_metadata_path, event_path, EventCandlesticks, EventMetadata, EventWithMarketsResponse,
    ForecastHistoryResponse,
};
use kalshi::exchange::{
    ExchangeScheduleResponse, ExchangeStatus, EXCHANGE_SCHEDULE_PATH, EXCHANGE_STATUS_PATH,
};
use kalshi::http::Kalshi;
use kalshi::json::{get_field, get_opt_field, value_present, FromJson};
use kalshi::kalshi_error::{
    CredentialError, DecodeError, KalshiError, RequestError, SubscriptionError, TransportError,
};
use kalshi::series::{
    market_candlesticks_params, market_candlesticks_path, series_list_params,
    MarketCandlesticksResponse, SeriesFeeChangesResponse, SeriesListResponse,
    SERIES_FEE_CHANGES_PATH, SERIES_PATH,
};
use kalshi::text::{bool_str, signed_decimal_string};

fn json(text: &str) -> serde_json::Value {
    serde_json::from_str(text).unwrap()
}

#[test]
fn exchange_status_reads() {
    let status = ExchangeStatus::from_json(&json(
        r#"{"trading_active":true,"exchange_active":false,"exchange_estimated_resume_time":"2024-01-01T00:00:00Z"}"#,
    ))
    .unwrap();
    assert!(status.trading_active);
    assert!(!status.exchange_active);
    assert_eq!(status.exchange_estimated_resume_time.as_deref(), Some("2024-01-01T00:00:00Z"));
    let status =
        ExchangeStatus::from_json(&json(r#"{"trading_active":false,"exchange_active":true}"#)).unwrap();
    assert_eq!(status.exchange_estimated_resume_time, None);
    assert!(ExchangeStatus::from_json(&json(r#"{"trading_active":1,"exchange_active":true}"#)).is_none());
    assert!(ExchangeStatus::from_json(&json(r#"{"trading_active":true}"#)).is_none());
    assert!(ExchangeStatus::from_json(&json(r#"[true,true]"#)).is_none());
}

#[test]
fn exchange_schedule_reads() {
    let day = r#"[{"open_time":"09:00","close_time":"17:00"}]"#;
    let text = format!(
        r#"{{"schedule":{{"maintenance_windows":[{{"start_datetime":"a","end_datetime":"b"}}],"standard_hours":[{{"start_time":"s","end_time":"e","monday":{d},"tuesday":[],"wednesday":{d},"thursday":[],"friday":[],"saturday":[],"sunday":{d}}}]}}}}"#,
        d = day
    );
    let schedule = ExchangeScheduleResponse::from_json(&json(&text)).unwrap().schedule;
    assert_eq!(schedule.maintenance_windows.len(), 1);
    assert_eq!(schedule.maintenance_windows[0].start_datetime, "a");
    assert_eq!(schedule.maintenance_windows[0].end_datetime, "b");
    assert_eq!(schedule.standard_hours.len(), 1);
    let week = &schedule.standard_hours[0];
    assert_eq!((week.start_time.as_str(), week.end_time.as_str()), ("s", "e"));
    assert_eq!(week.monday.len(), 1);
    assert_eq!(week.monday[0].open_time, "09:00");
    assert_eq!(week.sunday[0].close_time, "17:00");
    assert!(week.tuesday.is_empty());
    // a day that is missing
    let text = r#"{"schedule":{"maintenance_windows":[],"standard_hours":[{"start_time":"s","end_time":"e","monday":[]}]}}"#;
    assert!(ExchangeScheduleResponse::from_json(&json(text)).is_none());
}

#[test]
fn event_metadata_reads() {
    let metadata = EventMetadata::from_json(&json(
        r#"{"competition":"c","image_url":null,"settlement_sources":[{"name":"n","url":"u"},{}]}"#,
    ))
    .unwrap();
    assert_eq!(metadata.competition.as_deref(), Some("c"));
    assert_eq!(metadata.competition_scope, None);
    assert_eq!(metadata.image_url, None);
    let sources = metadata.settlement_sources.unwrap();
    assert_eq!(sources.len(), 2);
    assert_eq!(sources[0].name.as_deref(), Some("n"));
    assert_eq!(sources[0].url.as_deref(), Some("u"));
    assert!(sources[1].name.is_none() && sources[1].url.is_none());
    assert!(EventMetadata::from_json(&json(r#"{"settlement_sources":{}}"#)).is_none());
}

#[test]
fn event_candlesticks_read() {
    let candle = r#"{"end_period_ts":10,"open_interest":5,"price":{"open":1,"close":null},"volume":7,"yes_ask":{"open":1,"high":2,"low":0,"close":1},"yes_bid":{"open":3,"high":4,"low":-1,"close":3}}"#;
    let text = format!(
        r#"{{"adjusted_end_ts":99,"market_candlesticks":[[{c},{c}],[]],"market_tickers":["A","B"]}}"#,
        c = candle
    );
    let candles = EventCandlesticks::from_json(&json(&text)).unwrap();
    assert_eq!(candles.adjusted_end_ts, Some(99));
    assert_eq!(candles.market_tickers, vec!["A".to_string(), "B".to_string()]);
    assert_eq!(candles.market_candlesticks.len(), 2);
    assert_eq!(candles.market_candlesticks[0].len(), 2);
    assert!(candles.market_candlesticks[1].is_empty());
    let first = &candles.market_candlesticks[0][0];
    assert_eq!((first.end_period_ts, first.open_interest, first.volume), (10, 5, 7));
    assert_eq!(first.price.open, Some(1));
    assert_eq!(first.price.close, None);
    assert_eq!(first.price.mean, None);
    assert_eq!((first.yes_ask.open, first.yes_ask.high, first.yes_ask.low, first.yes_ask.close), (1, 2, 0, 1));
    assert_eq!(first.yes_bid.low, -1);
    let text = r#"{"market_candlesticks":[[{"end_period_ts":10}]],"market_tickers":["A"]}"#;
    assert!(EventCandlesticks::from_json(&json(text)).is_none());
}

#[test]
fn forecast_history_and_markets_read() {
    let text = r#"{"forecast_history":[{"end_period_ts":1,"event_ticker":"E","percentile_points":[{"formatted_forecast":"2.4%","numerical_forecast":2.4,"percentile":50,"raw_numerical_forecast":null}],"period_interval":60}]}"#;
    let history = ForecastHistoryResponse::from_json(&json(text)).unwrap().forecast_history;
    assert_eq!(history.len(), 1);
    assert_eq!(history[0].event_ticker, "E");
    assert_eq!(history[0].period_interval, 60);
    let point = &history[0].percentile_points[0];
    assert_eq!(point.formatted_forecast, "2.4%");
    assert_eq!(point.percentile, 50);
    assert_eq!(point.numerical_forecast, Some(json("2.4")));
    assert_eq!(point.raw_numerical_forecast, None);
    let markets =
        EventWithMarketsResponse::from_json(&json(r#"{"markets":[{"ticker":"M"},7],"event":{}}"#)).unwrap().markets;
    assert_eq!(markets, vec![json(r#"{"ticker":"M"}"#), json("7")]);
    assert!(EventWithMarketsResponse::from_json(&json(r#"{"event":{}}"#)).is_none());
}

#[test]
fn series_answers_read() {
    let series = SeriesListResponse::from_json(&json(r#"{"series":[{"ticker":"S"}]}"#)).unwrap();
    assert_eq!(series.series, vec![json(r#"{"ticker":"S"}"#)]);
    let changes = SeriesFeeChangesResponse::from_json(&json(
        r#"{"series_fee_change_arr":[{"id":"1","fee_multiplier":0.07}]}"#,
    ))
    .unwrap();
    assert_eq!(changes.series_fee_change_arr.len(), 1);
    let text = r#"{"ticker":"M","candlesticks":[]}"#;
    let candles = MarketCandlesticksResponse::from_json(&json(text)).unwrap();
    assert_eq!(candles.ticker, "M");
    assert!(candles.candlesticks.is_empty());
    assert!(MarketCandlesticksResponse::from_json(&json(r#"{"ticker":"M"}"#)).is_none());
}

#[test]
fn paths_are_built_from_tickers() {
    assert_eq!(EXCHANGE_STATUS_PATH, "/exchange/status");
    assert_eq!(EXCHANGE_SCHEDULE_PATH, "/exchange/schedule");
    assert_eq!(SERIES_PATH, "/series");
    assert_eq!(SERIES_FEE_CHANGES_PATH, "/series/fee_changes");
    assert_eq!(event_metadata_path("EVENT-123"), "/events/EVENT-123/metadata");
    assert_eq!(event_candlesticks_path("EVENT-123"), "/events/EVENT-123/candlesticks");
    assert_eq!(
        event_forecast_history_path("EVENT-123"),
        "/cached/events/EVENT-123/forecast_history"
    );
    assert_eq!(event_path("EVENT-123"), "/events/EVENT-123");
    assert_eq!(event_path(""), "/events/");
    assert_eq!(
        market_candlesticks_path("JOBS-URATE", "JOBS-URATE-24NOV"),
        "/series/JOBS-URATE/markets/JOBS-URATE-24NOV/candlesticks"
    );
}

#[test]
fn queries_are_built_in_order() {
    assert_eq!(event_markets_params(), vec![("with_nested_markets", "false".to_string())]);
    assert_eq!(
        series_list_params("economics".to_string(), Some(true), Some("employment,inflation".to_string())),
        vec![
            ("category", "economics".to_string()),
            ("include_product_metadata", "true".to_string()),
            ("tags", "employment,inflation".to_string()),
        ]
    );
    assert_eq!(
        series_list_params("economics".to_string(), None, Some("t".to_string())),
        vec![("category", "economics".to_string()), ("tags", "t".to_string())]
    );
    assert_eq!(
        series_list_params("c".to_string(), Some(false), None),
        vec![("category", "c".to_string()), ("include_product_metadata", "false".to_string())]
    );
    assert_eq!(series_list_params(String::new(), None, None), vec![("category", String::new())]);
    assert_eq!(
        market_candlesticks_params(1_700_000_000, 1_700_086_400, 60),
        vec![
            ("start_ts", "1700000000".to_string()),
            ("end_ts", "1700086400".to_string()),
            ("period_interval", "60".to_string()),
        ]
    );
    assert_eq!(
        market_candlesticks_params(-5, 0, i64::MIN),
        vec![
            ("start_ts", "-5".to_string()),
            ("end_ts", "0".to_string()),
            ("period_interval", "-9223372036854775808".to_string()),
        ]
    );
}

#[test]
fn signed_decimal_and_bool_text() {
    assert_eq!(signed_decimal_string(0), "0");
    assert_eq!(signed_decimal_string(-1), "-1");
    assert_eq!(signed_decimal_string(i64::MAX), "9223372036854775807");
    assert_eq!(signed_decimal_string(i64::MIN), "-9223372036854775808");
    for n in [-10i64, 10, -99, 123456789, -123456789] {
        assert_eq!(signed_decimal_string(n), n.to_string());
    }
    assert_eq!(bool_str(true), "true");
    assert_eq!(bool_str(false), "false");
}

#[test]
fn timestamps_must_fit() {
    assert_eq!(timestamp_of(0), Some(0));
    assert_eq!(timestamp_of(1_700_000_000_123), Some(1_700_000_000_123));
    assert_eq!(timestamp_of(u64::MAX as u128), Some(u64::MAX));
    assert_eq!(timestamp_of(u64::MAX as u128 + 1), None);
    assert_eq!(timestamp_of(u128::MAX), None);
}

#[test]
fn fields_are_read_by_name() {
    let v = json(r#"{"a":1,"b":null,"c":"x","d":[[1,-2],[3,4]],"e":-1,"f":1.0,"g":4294967295,"h":4294967296}"#);
    assert_eq!(get_field::<u32>(&v, "a"), Some(1));
    assert_eq!(get_field::<i64>(&v, "a"), Some(1));
    assert_eq!(get_field::<u32>(&v, "b"), None);
    assert_eq!(get_field::<u32>(&v, "zz"), None);
    assert_eq!(get_opt_field::<u32>(&v, "b"), Some(None));
    assert_eq!(get_opt_field::<u32>(&v, "zz"), Some(None));
    assert_eq!(get_opt_field::<u32>(&v, "a"), Some(Some(1)));
    assert_eq!(get_opt_field::<u32>(&v, "c"), None);
    assert_eq!(get_field::<String>(&v, "c"), Some("x".to_string()));
    assert_eq!(get_field::<Vec<(u32, i32)>>(&v, "d"), Some(vec![(1, -2), (3, 4)]));
    assert_eq!(get_field::<Vec<(u32, u32)>>(&v, "d"), None);
    assert_eq!(get_field::<u32>(&v, "e"), None);
    assert_eq!(get_field::<u64>(&v, "e"), None);
    assert_eq!(get_field::<i32>(&v, "e"), Some(-1));
    assert_eq!(get_field::<i64>(&v, "f"), None);
    assert_eq!(get_field::<u32>(&v, "g"), Some(u32::MAX));
    assert_eq!(get_field::<u32>(&v, "h"), None);
    assert_eq!(get_field::<i32>(&v, "g"), None);
    assert_eq!(get_field::<u64>(&v, "h"), Some(4294967296));
    assert_eq!(get_field::<bool>(&v, "a"), None);
    assert_eq!(get_field::<serde_json::Value>(&v, "b"), Some(serde_json::Value::Null));
    assert!(value_present(&v, "b").is_none());
    assert!(value_present(&v, "a").is_some());
    assert_eq!(get_field::<u32>(&json("[1]"), "a"), None);
    assert_eq!(get_opt_field::<u32>(&json("[1]"), "a"), Some(None));
}

#[test]
fn errors_say_what_went_wrong() {
    assert_eq!(
        KalshiError::CredentialError(CredentialError::MissingToken).message(),
        "Credential Error: there is no session token"
    );
    assert_eq!(
        KalshiError::CredentialError(CredentialError::MalformedKey).message(),
        "Credential Error: the private key cannot be read or cannot sign"
    );
    assert_eq!(
        CredentialError::Clock.message(),
        "the clock gives no time since the Unix epoch"
    );
    assert_eq!(
        KalshiError::RequestError(RequestError::ClientError { status: 404, body: vec![] }).message(),
        "HTTP Error: Client Request Error, Status code: 404"
    );
    assert_eq!(
        RequestError::ServerError { status: 503, body: b"x".to_vec() }.message(),
        "Server Request Error, Status code: 503"
    );
    let e = TransportError {
        is_decode: false,
        is_status: false,
        status: None,
        is_body: false,
        is_timeout: true,
        message: "timed out".to_string(),
    };
    assert_eq!(RequestError::TransportFailure(e).message(), "Transport Failure: timed out");
    assert_eq!(
        RequestError::UrlParseError(url::ParseError::EmptyHost).message(),
        "URL Parse Error: empty host"
    );
    assert_eq!(
        KalshiError::DecodeError { body: b"x".to_vec(), transport: None }.message(),
        "Decode Error: the response body is not what was asked for"
    );
    let e = TransportError {
        is_decode: true,
        is_status: false,
        status: None,
        is_body: false,
        is_timeout: false,
        message: "error decoding response body".to_string(),
    };
    assert_eq!(
        KalshiError::from(e).message(),
        "Decode Error: error decoding response body"
    );
    assert_eq!(
        KalshiError::SubscriptionError(SubscriptionError {
            command_id: 1,
            code: 6,
            msg: "Already subscribed".to_string()
        })
        .message(),
        "Subscription Error: code 6: Already subscribed"
    );
    assert_eq!(KalshiError::UserInputError("u".to_string()).message(), "User Input Error: u");
    assert_eq!(KalshiError::InternalError("i".to_string()).message(), "Internal Error: i");
    assert_eq!(DecodeError::InvalidJson.message(), "the frame is no JSON text");
    assert_eq!(DecodeError::MissingDiscriminant.message(), "the frame has no type");
    assert_eq!(DecodeError::UnknownVariant("x".to_string()).message(), "unknown frame type: x");
    assert_eq!(
        DecodeError::MalformedPayload("ticker".to_string()).message(),
        "malformed frame of type: ticker"
    );
}

#[test]
fn signed_request_signs_the_path_of_the_url() {
    let rsa = openssl::rsa::Rsa::generate(2048).unwrap();
    let pem = String::from_utf8(rsa.private_key_to_pem().unwrap()).unwrap();
    let public = openssl::pkey::PKey::public_key_from_pem(&rsa.public_key_to_pem().unwrap()).unwrap();
    let kalshi = Kalshi::new(
        "https://api.example.com/trade-api/v2".to_string(),
        Credential::ApiKey { key_id: "id".to_string(), private_key_pem: pem },
    );
    let url = kalshi.build_url_with_params("/orders", vec![("limit", "5".to_string())]).unwrap();
    let request = kalshi.sign_request(HttpMethod::Delete, url, None).unwrap();
    assert_eq!(request.url.as_str(), "https://api.example.com/trade-api/v2/orders?limit=5");
    assert_eq!(request.headers[0], ("kalshi-access-key".to_string(), "id".to_string()));
    let timestamp = &request.headers[2].1;
    let payload = format!("{}DELETE/trade-api/v2/orders", timestamp);
    let signature = openssl::base64::decode_block(&request.headers[1].1).unwrap();
    let digest = openssl::hash::MessageDigest::sha256();
    let mut verifier = openssl::sign::Verifier::new(digest, &public).unwrap();
    verifier.set_rsa_padding(openssl::rsa::Padding::PKCS1_PSS).unwrap();
    verifier.set_rsa_mgf1_md(digest).unwrap();
    verifier.set_rsa_pss_saltlen(openssl::sign::RsaPssSaltlen::DIGEST_LENGTH).unwrap();
    verifier.update(payload.as_bytes()).unwrap();
    assert!(verifier.verify(&signature).unwrap());
}
