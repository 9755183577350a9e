use agent_tools::alpha::{AlphaReply, CryptoTool};
use agent_tools::json::JsonValue;

fn t(v: &str) -> JsonValue {
    JsonValue::Str(v.to_string())
}

fn o(pairs: Vec<(&str, JsonValue)>) -> JsonValue {
    JsonValue::Object(pairs.into_iter().map(|(k, v)| (k.to_string(), v)).collect())
}

fn limit(v: u64) -> JsonValue {
    JsonValue::Number(agent_tools::json::JsonNumber::PosInt(v))
}

fn tool() -> CryptoTool {
    CryptoTool::with_base_url("http://av/query", Some("test-key"))
}

fn query_params(url: &str) -> Vec<(String, String)> {
    let q = url.split_once('?').map(|(_, q)| q).unwrap_or("");
    q.split('&')
        .filter(|p| !p.is_empty())
        .map(|p| {
            let (k, v) = p.split_once('=').unwrap_or((p, ""));
            (k.to_string(), v.to_string())
        })
        .collect()
}

fn params(pairs: &[(&str, &str)]) -> Vec<(String, String)> {
    pairs.iter().map(|(k, v)| (k.to_string(), v.to_string())).collect()
}

/// A call answered with `reply`: the URL asked for and the answer.
fn call(args: JsonValue, reply: AlphaReply) -> (String, Result<String, String>) {
    let q = tool().plan(Some(&args)).ok().expect("the arguments are accepted");
    let url = q.url.clone();
    (url, CryptoTool::finish(&q, reply).map_err(|e| e.to_string()))
}

fn exchange_rate_body() -> JsonValue {
    o(vec![(
        "Realtime Currency Exchange Rate",
        o(vec![
            ("1. From_Currency Code", t("BTC")),
            ("2. From_Currency Name", t("Bitcoin")),
            ("3. To_Currency Code", t("USD")),
            ("4. To_Currency Name", t("United States Dollar")),
            ("5. Exchange Rate", t("64000.10000000")),
            ("6. Last Refreshed", t("2026-08-03 12:00:00")),
            ("8. Bid Price", t("63999.00000000")),
            ("9. Ask Price", t("64001.00000000")),
        ]),
    )])
}

fn pair() -> JsonValue {
    o(vec![("from_currency", t("BTC")), ("to_currency", t("USD"))])
}

fn entry(fields: &[(&str, &str)]) -> JsonValue {
    o(fields.iter().map(|(k, v)| (*k, t(v))).collect())
}

#[test]
fn exchange_rate_sends_currency_pair_and_formats_the_rate() {
    let (url, result) = call(
        o(vec![("from_currency", t("btc")), ("to_currency", t("usd"))]),
        AlphaReply::Json(exchange_rate_body()),
    );
    assert!(url.starts_with("http://av/query?"));
    assert_eq!(
        query_params(&url),
        params(&[
            ("function", "CURRENCY_EXCHANGE_RATE"),
            ("apikey", "test-key"),
            ("from_currency", "BTC"),
            ("to_currency", "USD"),
        ])
    );
    let result = result.unwrap();
    assert!(result.contains("Exchange Rate: BTC (Bitcoin) to USD (United States Dollar)"));
    assert!(result.contains("Rate: 64000.10000000"));
    assert!(result.contains("Last Refreshed: 2026-08-03 12:00:00"));
    assert!(result.contains("Bid: 63999.00000000"));
    assert!(result.contains("Ask: 64001.00000000"));
}

#[test]
fn exchange_rate_with_unrecognised_body_says_so() {
    let (_, result) = call(pair(), AlphaReply::Json(o(vec![])));
    assert_eq!(result.unwrap(), "No exchange rate data found in response.\n");
}

#[test]
fn daily_series_sends_symbol_and_market_and_honours_the_limit() {
    let day = |open: &str, high: &str, low: &str, close: &str, volume: &str| {
        entry(&[
            ("1a. open (EUR)", open),
            ("2a. high (EUR)", high),
            ("3a. low (EUR)", low),
            ("4a. close (EUR)", close),
            ("5. volume", volume),
        ])
    };
    let body = o(vec![
        (
            "Meta Data",
            entry(&[
                ("2. Digital Currency Code", "BTC"),
                ("3. Digital Currency Name", "Bitcoin"),
                ("4. Market Code", "EUR"),
                ("6. Last Refreshed", "2026-08-03 00:00:00"),
            ]),
        ),
        (
            "Time Series (Digital Currency Daily)",
            o(vec![
                ("2026-08-01", day("1.0", "1.5", "0.5", "1.2", "100")),
                ("2026-08-02", day("2.0", "2.5", "1.5", "2.2", "200")),
                ("2026-08-03", day("3.0", "3.5", "2.5", "3.2", "300")),
            ]),
        ),
    ]);
    let (url, result) = call(
        o(vec![
            ("function", t("DIGITAL_CURRENCY_DAILY")),
            ("from_currency", t("btc")),
            ("to_currency", t("eur")),
            ("limit", limit(2)),
        ]),
        AlphaReply::Json(body),
    );
    assert_eq!(
        query_params(&url),
        params(&[("function", "DIGITAL_CURRENCY_DAILY"), ("apikey", "test-key"), ("symbol", "BTC"), ("market", "EUR")])
    );
    let result = result.unwrap();
    assert!(result.contains("Crypto Data for BTC (Bitcoin) in EUR"));
    assert!(result.contains("Recent 2 entries (Chronological):"));
    let second = result.find("**2026-08-02**").expect("2026-08-02 shown");
    let third = result.find("**2026-08-03**").expect("2026-08-03 shown");
    assert!(second < third, "Entries must be chronological: {}", result);
    assert!(!result.contains("2026-08-01"));
    assert!(result.contains("_...and 1 more entries available_"));
    assert!(result.contains("Open: 2.0 EUR | High: 2.5 | Low: 1.5 | Close: 2.2 | Vol: 200"));
}

#[test]
fn series_falls_back_to_usd_then_plain_keys_when_market_keys_are_absent() {
    let body = o(vec![(
        "Time Series (Digital Currency Weekly)",
        o(vec![
            (
                "2026-07-27",
                entry(&[("1a. open (USD)", "9.0"), ("2a. high (USD)", "9.5"), ("3a. low (USD)", "8.5"), ("4a. close (USD)", "9.2")]),
            ),
            ("2026-08-03", entry(&[("1. open", "7.0"), ("2. high", "7.5"), ("3. low", "6.5"), ("4. close", "7.2")])),
        ]),
    )]);
    let (_, result) = call(
        o(vec![("function", t("DIGITAL_CURRENCY_WEEKLY")), ("from_currency", t("BTC")), ("to_currency", t("PLN"))]),
        AlphaReply::Json(body),
    );
    let result = result.unwrap();
    assert!(result.contains("Open: 9.0 PLN | High: 9.5 | Low: 8.5 | Close: 9.2 | Vol: N/A"));
    assert!(result.contains("Open: 7.0 PLN | High: 7.5 | Low: 6.5 | Close: 7.2 | Vol: N/A"));
}

#[test]
fn limit_zero_shows_every_entry() {
    let body = o(vec![(
        "Time Series (Digital Currency Monthly)",
        o(vec![("2026-06-30", entry(&[("1. open", "1.0")])), ("2026-07-31", entry(&[("1. open", "2.0")]))]),
    )]);
    let (_, result) = call(
        o(vec![
            ("function", t("DIGITAL_CURRENCY_MONTHLY")),
            ("from_currency", t("BTC")),
            ("to_currency", t("USD")),
            ("limit", limit(0)),
        ]),
        AlphaReply::Json(body),
    );
    let result = result.unwrap();
    assert!(result.contains("Recent 2 entries"));
    assert!(!result.contains("more entries available"));
}

#[test]
fn missing_time_series_says_so() {
    let (_, result) = call(
        o(vec![("function", t("DIGITAL_CURRENCY_DAILY")), ("from_currency", t("BTC")), ("to_currency", t("USD"))]),
        AlphaReply::Json(o(vec![("Meta Data", entry(&[("2. Digital Currency Code", "BTC")]))])),
    );
    assert!(result.unwrap().contains("No time series data found."));
}

#[test]
fn crypto_http_error_status_is_reported_with_body() {
    let (_, result) =
        call(pair(), AlphaReply::Status("503 Service Unavailable".to_string(), "upstream unavailable".to_string()));
    let message = result.unwrap_err();
    assert!(message.contains("503"), "{}", message);
    assert!(message.contains("upstream unavailable"), "{}", message);
}

#[test]
fn api_level_error_message_is_surfaced() {
    let (_, result) = call(pair(), AlphaReply::Json(o(vec![("Error Message", t("Invalid API call"))])));
    assert_eq!(result.unwrap_err(), "Alpha Vantage API error: Invalid API call");
}

#[test]
fn rate_limit_note_fails_but_other_notes_do_not() {
    let (_, limited) = call(
        pair(),
        AlphaReply::Json(o(vec![(
            "Note",
            t("Thank you for using Alpha Vantage! Our standard API rate limit is 25 requests per day."),
        )])),
    );
    let message = limited.unwrap_err();
    assert!(message.starts_with("Alpha Vantage API limit reached:"), "{}", message);
    let (_, noted) = call(
        pair(),
        AlphaReply::Json(o(vec![
            ("Note", t("This is a purely informational note")),
            ("Realtime Currency Exchange Rate", entry(&[("5. Exchange Rate", "1.23")])),
        ])),
    );
    assert!(noted.unwrap().contains("Rate: 1.23"));
}

#[test]
fn crypto_malformed_json_is_reported_as_a_parse_failure() {
    let (_, result) = call(pair(), AlphaReply::Unparseable);
    assert_eq!(result.unwrap_err(), "Failed to parse Alpha Vantage API response");
}

#[test]
fn a_missing_api_key_fails_before_any_request() {
    let keyless = CryptoTool::with_base_url("http://av/query", None);
    assert_eq!(
        keyless.plan(Some(&pair())).err().unwrap().to_string(),
        "ALPHA_ADVANTAGE_KEY environment variable not set"
    );
}

#[test]
fn crypto_bad_arguments_fail_before_any_request() {
    let message = |a: Option<&JsonValue>| tool().plan(a).err().unwrap().to_string();
    assert_eq!(message(None), "Failed to parse crypto tool arguments");
    assert_eq!(message(Some(&o(vec![("to_currency", t("USD"))]))), "Missing required 'from_currency' parameter");
    assert_eq!(message(Some(&o(vec![("from_currency", t("BTC"))]))), "Missing required 'to_currency' parameter");
}

#[test]
fn an_unknown_function_fails_before_any_request() {
    let message = tool()
        .plan(Some(&o(vec![
            ("function", t("DIGITAL_CURRENCY_HOURLY")),
            ("from_currency", t("BTC")),
            ("to_currency", t("USD")),
        ])))
        .err()
        .unwrap()
        .to_string();
    assert!(message.starts_with("Invalid function 'DIGITAL_CURRENCY_HOURLY'."), "{}", message);
}
