use agent_tools::currency::{format_currency_response, CurrencyTool};
use agent_tools::google::HttpReply;
use agent_tools::json::{JsonNumber, JsonValue};
use agent_tools::render::Piece;

fn t(v: &str) -> JsonValue {
    JsonValue::Str(v.to_string())
}

fn f(v: &str) -> JsonValue {
    JsonValue::Number(JsonNumber::Float(v.to_string()))
}

fn o(pairs: Vec<(&str, JsonValue)>) -> JsonValue {
    JsonValue::Object(pairs.into_iter().map(|(k, v)| (k.to_string(), v)).collect())
}

fn a(items: Vec<JsonValue>) -> JsonValue {
    JsonValue::Array(items)
}

fn last(n: u64) -> JsonValue {
    JsonValue::Number(JsonNumber::PosInt(n))
}

fn number_value(n: &JsonNumber) -> f64 {
    match n {
        JsonNumber::PosInt(u) => *u as f64,
        JsonNumber::NegInt(i) => *i as f64,
        JsonNumber::Float(v) => v.parse::<f64>().unwrap(),
    }
}

/// Writes pieces as the service writes them.
fn written(pieces: &[Piece]) -> String {
    pieces
        .iter()
        .map(|p| match p {
            Piece::Text(v) => v.clone(),
            Piece::Number(n, d) => format!("{:.*}", *d as usize, n.as_ref().map_or(0.0, number_value)),
            Piece::Thousandths(v) => format!("{:.1}", *v as f64 / 1000.0),
            Piece::Percent(n) => format!("{:.0}", n.as_ref().map_or(0.0, number_value) * 100.0),
            Piece::Highest(ns) => format!("{:.1}", ns.iter().map(number_value).fold(f64::MIN, f64::max)),
            Piece::Lowest(ns) => format!("{:.1}", ns.iter().map(number_value).fold(f64::MAX, f64::min)),
            Piece::HighestPercent(ns) => format!("{:.0}", ns.iter().map(number_value).fold(0.0, f64::max) * 100.0),
        })
        .collect()
}

const ROOT: &str = "http://nbp/api/exchangerates";

fn tool() -> CurrencyTool {
    CurrencyTool::with_base_url(ROOT)
}

/// A call whose request is answered with `reply`: the address asked for and
/// the answer.
fn call(args: JsonValue, reply: Option<HttpReply>) -> (String, Result<String, String>) {
    let url = tool().request(Some(&args)).ok().expect("the arguments are accepted");
    let answer = match CurrencyTool::rates_of(reply.as_ref()) {
        Ok(d) => Ok(written(&format_currency_response(d, &CurrencyTool::table_of(&args)))),
        Err(e) => Err(e.to_string()),
    };
    (url, answer)
}

fn ok(json: JsonValue) -> Option<HttpReply> {
    Some(HttpReply { success: true, status: "200 OK".to_string(), text: String::new(), json: Some(json) })
}

#[test]
fn a_single_currency_uses_the_rates_path_and_formats_mid_rates() {
    let (url, result) = call(
        o(vec![("code", t("USD"))]),
        ok(o(vec![
            ("table", t("A")),
            ("currency", t("dolar amerykański")),
            ("code", t("USD")),
            (
                "rates",
                a(vec![
                    o(vec![("no", t("148/A/NBP/2026")), ("effectiveDate", t("2026-08-01")), ("mid", f("3.9812"))]),
                    o(vec![("no", t("149/A/NBP/2026")), ("effectiveDate", t("2026-08-02")), ("mid", f("4.0"))]),
                ]),
            ),
        ])),
    );
    assert_eq!(url, format!("{}/rates/A/USD/?format=json", ROOT));
    let result = result.unwrap();
    assert!(result.contains("Exchange Rates for dolar amerykański (USD)"));
    assert!(result.contains("2026-08-01: **3.9812 PLN**"));
    assert!(result.contains("2026-08-02: **4.0000 PLN**"));
}

#[test]
fn table_c_rates_are_rendered_as_bid_and_ask() {
    let (url, result) = call(
        o(vec![("code", t("EUR")), ("table", t("C")), ("last", last(2))]),
        ok(o(vec![
            ("currency", t("euro")),
            ("code", t("EUR")),
            ("rates", a(vec![o(vec![("effectiveDate", t("2026-08-02")), ("bid", f("4.2")), ("ask", f("4.3"))])])),
        ])),
    );
    assert_eq!(url, format!("{}/rates/C/EUR/last/2/?format=json", ROOT));
    assert!(result.unwrap().contains("2026-08-02: Bid: **4.2000 PLN**, Ask: **4.3000 PLN**"));
}

#[test]
fn a_dated_single_currency_query_puts_the_date_in_the_path() {
    let (url, result) = call(
        o(vec![("code", t("CHF")), ("date", t("2026-07-15"))]),
        ok(o(vec![
            ("currency", t("frank szwajcarski")),
            ("code", t("CHF")),
            ("rates", a(vec![o(vec![("effectiveDate", t("2026-07-15")), ("mid", f("4.5"))])])),
        ])),
    );
    assert_eq!(url, format!("{}/rates/A/CHF/2026-07-15/?format=json", ROOT));
    assert!(result.unwrap().contains("2026-07-15: **4.5000 PLN**"));
}

#[test]
fn a_whole_table_query_lists_every_rate() {
    let (url, result) = call(
        o(vec![]),
        ok(a(vec![o(vec![
            ("table", t("A")),
            ("effectiveDate", t("2026-08-03")),
            (
                "rates",
                a(vec![
                    o(vec![("currency", t("dolar amerykański")), ("code", t("USD")), ("mid", f("3.9"))]),
                    o(vec![("currency", t("korona czeska")), ("code", t("CZK")), ("bid", f("0.17")), ("ask", f("0.18"))]),
                ]),
            ),
        ])])),
    );
    assert_eq!(url, format!("{}/tables/A/?format=json", ROOT));
    let result = result.unwrap();
    assert!(result.contains("Table A from 2026-08-03"));
    assert!(result.contains("USD (dolar amerykański): **3.9000 PLN**"));
    assert!(result.contains("CZK (korona czeska): Bid: **0.1700**, Ask: **0.1800**"));
}

#[test]
fn a_last_n_table_query_uses_the_last_path_segment() {
    let (url, result) = call(
        o(vec![("table", t("B")), ("last", last(3))]),
        ok(a(vec![o(vec![("effectiveDate", t("2026-08-03")), ("rates", a(vec![]))])])),
    );
    assert_eq!(url, format!("{}/tables/B/last/3/?format=json", ROOT));
    assert!(result.unwrap().contains("Table B from 2026-08-03"));
}

#[test]
fn a_dated_table_query_puts_the_date_in_the_path() {
    let (url, _) = call(
        o(vec![("date", t("2026-07-15"))]),
        ok(a(vec![o(vec![("effectiveDate", t("2026-07-15")), ("rates", a(vec![]))])])),
    );
    assert_eq!(url, format!("{}/tables/A/2026-07-15/?format=json", ROOT));
}

#[test]
fn an_unrecognised_body_reports_no_data_rather_than_failing() {
    let (_, result) = call(o(vec![]), ok(o(vec![("unexpected", t("shape"))])));
    assert_eq!(result.unwrap(), "No currency data found or format not recognized.");
}

#[test]
fn a_404_from_nbp_is_reported_with_its_body() {
    let (url, result) = call(
        o(vec![("code", t("XXX"))]),
        Some(HttpReply {
            success: false,
            status: "404 Not Found".to_string(),
            text: "404 NotFound - Not Found - Brak danych".to_string(),
            json: None,
        }),
    );
    assert_eq!(url, format!("{}/rates/A/XXX/?format=json", ROOT));
    let message = result.unwrap_err();
    assert!(message.starts_with("NBP API returned error 404"), "{}", message);
    assert!(message.contains("Brak danych"), "{}", message);
}

#[test]
fn currency_malformed_json_is_reported_as_a_parse_failure() {
    let (_, result) = call(
        o(vec![]),
        Some(HttpReply { success: true, status: "200 OK".to_string(), text: "[{".to_string(), json: None }),
    );
    assert_eq!(result.unwrap_err(), "Failed to parse NBP API response");
}

#[test]
fn an_unreachable_api_is_reported_as_a_request_failure() {
    let (_, result) = call(o(vec![]), None);
    assert_eq!(result.unwrap_err(), "Failed to request currency data from NBP API");
}

#[test]
fn currency_bad_arguments_fail_before_any_request() {
    assert_eq!(tool().request(None).err().unwrap().to_string(), "Failed to parse currency tool arguments");
    assert_eq!(
        tool().request(Some(&o(vec![("date", t("15-07-2026 12:00"))]))).err().unwrap().to_string(),
        "Date must be in YYYY-MM-DD format"
    );
}
