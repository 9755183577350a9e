use agent_tools::alpha::{AlphaReply, StockTool};
use agent_tools::json::{JsonNumber, JsonValue};

fn t(v: &str) -> JsonValue {
    JsonValue::Str(v.to_string())
}

fn o(pairs: Vec<(&str, JsonValue)>) -> JsonValue {
    JsonValue::Object(pairs.into_iter().map(|(k, v)| (k.to_string(), v)).collect())
}

fn entry(fields: &[(&str, &str)]) -> JsonValue {
    o(fields.iter().map(|(k, v)| (*k, t(v))).collect())
}

fn tool() -> StockTool {
    StockTool::with_base_url("http://av/query", Some("test-key"))
}

fn query_params(url: &str) -> Vec<(String, String)> {
    let q = url.split_once('?').map(|(_, q)| q).unwrap_or("");
    q.split('&')
        .filter(|p| !p.is_empty())
        .map(|p| {
            let (k, v) = p.split_once('=').unwrap_or((p, ""));
            (k.to_string(), v.to_string())
        })
        .collect()
}

fn call(args: JsonValue, reply: AlphaReply) -> (String, Result<String, String>) {
    let q = tool().plan(Some(&args)).ok().expect("the arguments are accepted");
    let url = q.url.clone();
    (url, StockTool::finish(&q, reply).map_err(|e| e.to_string()))
}

fn nvda() -> JsonValue {
    o(vec![("symbol", t("NVDA"))])
}

fn daily_body() -> JsonValue {
    o(vec![
        ("Meta Data", entry(&[("2. Symbol", "NVDA"), ("3. Last Refreshed", "2026-08-03")])),
        (
            "Time Series (Daily)",
            o(vec![
                (
                    "2026-08-01",
                    entry(&[("1. open", "1.0"), ("2. high", "1.5"), ("3. low", "0.5"), ("4. close", "1.2"), ("5. volume", "100")]),
                ),
                (
                    "2026-08-02",
                    entry(&[("1. open", "2.0"), ("2. high", "2.5"), ("3. low", "1.5"), ("4. close", "2.2"), ("5. volume", "200")]),
                ),
                (
                    "2026-08-03",
                    entry(&[("1. open", "3.0"), ("2. high", "3.5"), ("3. low", "2.5"), ("4. close", "3.2"), ("5. volume", "300")]),
                ),
            ]),
        ),
    ])
}

#[test]
fn daily_series_sends_the_expected_query_and_formats_ohlcv() {
    let (url, result) = call(
        o(vec![
            ("symbol", t("nvda")),
            ("outputsize", t("full")),
            ("limit", JsonValue::Number(JsonNumber::PosInt(2))),
        ]),
        AlphaReply::Json(daily_body()),
    );
    assert!(url.starts_with("http://av/query?"));
    assert_eq!(
        query_params(&url),
        vec![
            ("function".to_string(), "TIME_SERIES_DAILY".to_string()),
            ("symbol".to_string(), "NVDA".to_string()),
            ("apikey".to_string(), "test-key".to_string()),
            ("outputsize".to_string(), "full".to_string()),
        ]
    );
    let result = result.unwrap();
    assert!(result.contains("Stock Data for NVDA"));
    assert!(result.contains("Last Refreshed: 2026-08-03"));
    assert!(result.contains("Recent 2 entries (Chronological):"));
    assert!(result.contains("Open: $2.0 | High: $2.5 | Low: $1.5 | Close: $2.2"));
    assert!(result.contains("Volume: 300"));
    assert!(!result.contains("**2026-08-01**"));
    let second = result.find("**2026-08-02**").expect("2026-08-02 shown");
    let third = result.find("**2026-08-03**").expect("2026-08-03 shown");
    assert!(second < third, "Entries must be chronological");
    assert!(result.contains("_...and 1 more entries available_"));
}

#[test]
fn outputsize_is_omitted_when_not_requested() {
    let (url, _) = call(nvda(), AlphaReply::Json(daily_body()));
    assert!(query_params(&url).iter().all(|(k, _)| k != "outputsize"), "{}", url);
}

#[test]
fn weekly_and_monthly_read_their_own_series_keys() {
    let (weekly_url, weekly) = call(
        o(vec![("symbol", t("NVDA")), ("function", t("TIME_SERIES_WEEKLY"))]),
        AlphaReply::Json(o(vec![("Weekly Time Series", o(vec![("2026-08-03", entry(&[("4. close", "9.9")]))]))])),
    );
    let weekly = weekly.unwrap();
    assert!(weekly.contains("Close: $9.9"), "{}", weekly);
    let (monthly_url, monthly) = call(
        o(vec![("symbol", t("NVDA")), ("function", t("TIME_SERIES_MONTHLY"))]),
        AlphaReply::Json(o(vec![("Monthly Time Series", o(vec![("2026-07-31", entry(&[("4. close", "8.8")]))]))])),
    );
    let monthly = monthly.unwrap();
    assert!(monthly.contains("Close: $8.8"), "{}", monthly);
    assert_eq!(query_params(&weekly_url)[0], ("function".to_string(), "TIME_SERIES_WEEKLY".to_string()));
    assert_eq!(query_params(&monthly_url)[0], ("function".to_string(), "TIME_SERIES_MONTHLY".to_string()));
}

#[test]
fn limit_zero_shows_every_entry_and_missing_values_fall_back() {
    let (_, result) = call(
        o(vec![("symbol", t("NVDA")), ("limit", JsonValue::Number(JsonNumber::PosInt(0)))]),
        AlphaReply::Json(o(vec![("Time Series (Daily)", o(vec![("2026-08-01", o(vec![])), ("2026-08-02", o(vec![]))]))])),
    );
    let result = result.unwrap();
    assert!(result.contains("Recent 2 entries"));
    assert!(!result.contains("more entries available"));
    assert!(result.contains("Open: $N/A | High: $N/A | Low: $N/A | Close: $N/A"));
    assert!(result.contains("Volume: N/A"));
}

#[test]
fn a_body_without_a_time_series_says_so() {
    let (_, result) = call(nvda(), AlphaReply::Json(o(vec![])));
    assert_eq!(result.unwrap(), "No time series data found in response.\n");
}

#[test]
fn stock_http_error_status_is_reported_with_body() {
    let (_, result) = call(nvda(), AlphaReply::Status("429 Too Many Requests".to_string(), "slow down".to_string()));
    let message = result.unwrap_err();
    assert!(message.contains("429"), "{}", message);
    assert!(message.contains("slow down"), "{}", message);
}

#[test]
fn api_level_error_and_any_note_are_both_failures() {
    let (_, error) = call(nvda(), AlphaReply::Json(o(vec![("Error Message", t("Invalid API call"))])));
    assert_eq!(error.unwrap_err(), "Alpha Vantage API error: Invalid API call");
    let (_, note) = call(nvda(), AlphaReply::Json(o(vec![("Note", t("just a friendly note"))])));
    assert_eq!(note.unwrap_err(), "Alpha Vantage API limit reached: just a friendly note");
}

#[test]
fn stock_malformed_json_is_reported_as_a_parse_failure() {
    let (_, result) = call(nvda(), AlphaReply::Unparseable);
    assert_eq!(result.unwrap_err(), "Failed to parse Alpha Vantage API response");
}

#[test]
fn bad_arguments_and_a_missing_key_fail_before_any_request() {
    let message = |a: Option<&JsonValue>| tool().plan(a).err().unwrap().to_string();
    assert_eq!(message(None), "Failed to parse stock tool arguments");
    assert_eq!(
        message(Some(&o(vec![("function", t("TIME_SERIES_DAILY"))]))),
        "Missing required 'symbol' parameter"
    );
    assert!(message(Some(&o(vec![("symbol", t("NVDA")), ("function", t("TIME_SERIES_HOURLY"))])))
        .starts_with("Invalid function 'TIME_SERIES_HOURLY'."));
    let keyless = StockTool::with_base_url("http://av/query", None);
    assert_eq!(
        keyless.plan(Some(&nvda())).err().unwrap().to_string(),
        "ALPHA_ADVANTAGE_KEY environment variable not set"
    );
}
