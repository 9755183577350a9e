use agent_tools::alpha::{alpha_result, AlphaReply, CryptoTool, StockTool};
use agent_tools::framework::{ToolCategory, ToolType};
use agent_tools::google::{
    eq_ignore_ascii_case, kept_token, CachedToken, GmailListing, GoogleContactsReadTool, GoogleGmailReadTool,
    GoogleOAuthConfig, GooglePlacesSearchTool, GoogleYouTubeReadTool, HttpReply, PLACES_FIELD_MASK,
};
use agent_tools::json::{JsonNumber, JsonValue};

fn s(t: &str) -> JsonValue {
    JsonValue::Str(t.to_string())
}

fn n(v: u64) -> JsonValue {
    JsonValue::Number(JsonNumber::PosInt(v))
}

fn obj(pairs: Vec<(&str, JsonValue)>) -> JsonValue {
    JsonValue::Object(pairs.into_iter().map(|(k, v)| (k.to_string(), v)).collect())
}

fn arr(items: Vec<JsonValue>) -> JsonValue {
    JsonValue::Array(items)
}

fn ok(json: JsonValue) -> HttpReply {
    HttpReply { success: true, status: "200 OK".to_string(), text: String::new(), json: Some(json) }
}

#[test]
fn crypto_availability_follows_the_api_key() {
    assert!(CryptoTool::with_base_url("http://unused", Some("k")).is_available());
    assert!(!CryptoTool::with_base_url("http://unused", None).is_available());
}

#[test]
fn stock_availability_follows_the_api_key() {
    assert!(StockTool::with_base_url("http://unused", Some("k")).is_available());
    assert!(!StockTool::with_base_url("http://unused", None).is_available());
}

#[test]
fn metadata_describes_the_alpha_vantage_tools() {
    let c = CryptoTool::new(None);
    assert_eq!(c.metadata.id, "7");
    assert_eq!(c.metadata.category, ToolCategory::Financial);
    assert_eq!(c.metadata.tool_type, ToolType::Crypto);
    let st = StockTool::new(None);
    assert_eq!(st.metadata.id, "6");
    assert_eq!(st.metadata.tool_type, ToolType::Stock);
}

#[test]
fn crypto_queries_upper_case_their_symbols() {
    let tool = CryptoTool::with_base_url("http://av", Some("k"));
    let q = tool.plan(Some(&obj(vec![("from_currency", s("btc")), ("to_currency", s("usd"))]))).ok().unwrap();
    assert_eq!(q.function, "CURRENCY_EXCHANGE_RATE");
    assert_eq!(q.from_currency, "BTC");
    assert_eq!(q.url, "http://av?function=CURRENCY_EXCHANGE_RATE&apikey=k&from_currency=BTC&to_currency=USD");
    let q = tool
        .plan(Some(&obj(vec![
            ("function", s("DIGITAL_CURRENCY_DAILY")),
            ("from_currency", s("eth")),
            ("to_currency", s("eur")),
            ("limit", n(3)),
        ])))
        .ok()
        .unwrap();
    assert_eq!(q.url, "http://av?function=DIGITAL_CURRENCY_DAILY&apikey=k&symbol=ETH&market=EUR");
    assert_eq!(q.limit, Some(3));
    let err = |a: JsonValue| tool.plan(Some(&a)).err().unwrap().to_string();
    assert_eq!(err(obj(vec![])), "Missing required 'from_currency' parameter");
    assert_eq!(err(obj(vec![("from_currency", s("x"))])), "Missing required 'to_currency' parameter");
    assert!(err(obj(vec![("function", s("NOPE")), ("from_currency", s("x")), ("to_currency", s("y"))]))
        .starts_with("Invalid function 'NOPE'"));
    let keyless = CryptoTool::with_base_url("http://av", None);
    assert_eq!(
        keyless
            .plan(Some(&obj(vec![("from_currency", s("x")), ("to_currency", s("y"))])))
            .err()
            .unwrap()
            .to_string(),
        "ALPHA_ADVANTAGE_KEY environment variable not set"
    );
}

#[test]
fn alpha_vantage_errors_and_rate_limits_are_reported() {
    let r = alpha_result(AlphaReply::Json(obj(vec![("Error Message", s("bad symbol"))])), "send", false);
    assert_eq!(r.err().unwrap(), "Alpha Vantage API error: bad symbol");
    let r = alpha_result(AlphaReply::Json(obj(vec![("Note", s("Thank you for using"))])), "send", false);
    assert_eq!(r.err().unwrap(), "Alpha Vantage API limit reached: Thank you for using");
    assert!(alpha_result(AlphaReply::Json(obj(vec![("Note", s("just a note"))])), "send", false).is_ok());
    assert!(alpha_result(AlphaReply::Json(obj(vec![("Note", s("just a note"))])), "send", true).is_err());
    assert_eq!(alpha_result(AlphaReply::Unreachable, "send failed", false).err().unwrap(), "send failed");
    assert_eq!(
        alpha_result(AlphaReply::Status("500 Internal Server Error".into(), "boom".into()), "x", false)
            .err()
            .unwrap(),
        "Alpha Vantage API returned error 500 Internal Server Error: boom"
    );
}

#[test]
fn an_exchange_rate_is_rendered() {
    let d = obj(vec![(
        "Realtime Currency Exchange Rate",
        obj(vec![
            ("1. From_Currency Code", s("BTC")),
            ("2. From_Currency Name", s("Bitcoin")),
            ("3. To_Currency Code", s("USD")),
            ("4. To_Currency Name", s("United States Dollar")),
            ("5. Exchange Rate", s("65000.1")),
            ("6. Last Refreshed", s("2024-01-01 00:00:00")),
        ]),
    )]);
    let text = CryptoTool::format_response(&d, "CURRENCY_EXCHANGE_RATE", "BTC", "USD", None);
    assert!(text.starts_with("💱 **Exchange Rate: BTC (Bitcoin) to USD (United States Dollar)**\n\n"));
    assert!(text.contains("💰 **Rate: 65000.1**\n"));
    assert!(text.contains("• Bid: N/A\n"));
    assert_eq!(
        CryptoTool::format_response(&obj(vec![]), "CURRENCY_EXCHANGE_RATE", "BTC", "USD", None),
        "No exchange rate data found in response.\n"
    );
}

#[test]
fn oauth_settings_need_all_three_values() {
    assert!(GoogleOAuthConfig::is_configured(true, true, true));
    assert!(!GoogleOAuthConfig::is_configured(true, false, true));
    let reply = ok(obj(vec![("access_token", s("tok")), ("expires_in", n(3600))]));
    let (token, secs) = GoogleOAuthConfig::token_result(Some(&reply)).ok().unwrap();
    assert_eq!(token, "tok");
    assert_eq!(secs, 3540);
}

#[test]
fn places_entries_and_contacts() {
    let place = obj(vec![("displayName", obj(vec![("text", s("Cafe"))])), ("formattedAddress", s("Main St 1"))]);
    let entry = GooglePlacesSearchTool::place_entry(&place);
    assert!(entry.contains("Cafe"));
    assert!(entry.contains("Main St 1"));
    let tool = GooglePlacesSearchTool::new(String::new());
    assert!(!tool.is_available());

    let (q, url) = GoogleContactsReadTool::plan(None);
    assert_eq!(q, "");
    assert_eq!(
        url,
        "https://people.googleapis.com/v1/people/me/connections?personFields=names,emailAddresses,phoneNumbers&pageSize=10"
    );
    let (_, url) = GoogleContactsReadTool::plan(Some(&obj(vec![("query", s("Ann Lee"))])));
    assert_eq!(
        url,
        "https://people.googleapis.com/v1/people:searchContacts?query=Ann%20Lee&readMask=names,emailAddresses,phoneNumbers&pageSize=10"
    );
    let person = obj(vec![("names", arr(vec![obj(vec![("displayName", s("Ann"))])]))]);
    let reply = ok(obj(vec![("results", arr(vec![obj(vec![("person", person)]), obj(vec![])]))]));
    assert_eq!(
        GoogleContactsReadTool::read_result("Ann", Some(&reply)).ok().unwrap(),
        "Found 1 contacts:\n\nName: Ann\nEmail: No email\nPhone: No phone\n---"
    );
}

#[test]
fn youtube_defaults_to_the_liked_videos() {
    let (searched, req) = GoogleYouTubeReadTool::plan(None);
    assert!(!searched);
    assert!(req.url.contains("youtube"));
    let (searched, _) = GoogleYouTubeReadTool::plan(Some(&obj(vec![("action", s("search")), ("query", s("rust"))])));
    assert!(searched);
}

#[test]
fn gmail_reads_list_then_fetch_details() {
    let req = GoogleGmailReadTool::plan(Some(&obj(vec![("query", s("is:unread"))])));
    assert_eq!(req.url, "https://gmail.googleapis.com/gmail/v1/users/me/messages");
    assert_eq!(req.query, vec![("maxResults".to_string(), "5".to_string()), ("q".to_string(), "is:unread".to_string())]);
    let listing = GoogleGmailReadTool::listing(Some(&ok(obj(vec![(
        "messages",
        arr(vec![obj(vec![("id", s("m1"))]), obj(vec![("id", s("m2"))])]),
    )]))))
    .ok()
    .unwrap();
    match listing {
        GmailListing::Fetch(ids) => assert_eq!(ids, vec!["m1".to_string(), "m2".to_string()]),
        GmailListing::Answer(a) => panic!("{}", a),
    }
    match GoogleGmailReadTool::listing(Some(&ok(obj(vec![])))).ok().unwrap() {
        GmailListing::Answer(a) => assert_eq!(a, "No emails found matching the criteria."),
        GmailListing::Fetch(_) => panic!("nothing to fetch"),
    }
    let detail = ok(obj(vec![
        (
            "payload",
            obj(vec![(
                "headers",
                arr(vec![
                    obj(vec![("name", s("subject")), ("value", s("Hi"))]),
                    obj(vec![("name", s("From")), ("value", s("a@b.c"))]),
                ]),
            )]),
        ),
        ("snippet", s("hello")),
    ]));
    let entry = GoogleGmailReadTool::message_entry(Some(&detail)).unwrap();
    assert_eq!(entry, "---\nFrom: a@b.c\nDate: Unknown Date\nSubject: Hi\nSnippet: hello\n");
    assert_eq!(
        GoogleGmailReadTool::combine(vec![Some("A".into()), None, Some("B".into())]),
        "Retrieved 2 emails:\n\nA\nB"
    );
    assert!(eq_ignore_ascii_case("Subject", "sUBJECT"));
    assert!(!eq_ignore_ascii_case("Subject", "Subjec"));
}

#[test]
fn a_kept_token_is_reused_until_it_expires() {
    let kept = agent_tools::google::CachedToken::new("tok".to_string(), 5_000, 3_540);
    assert_eq!(kept.expires_at_ms, 5_000 + 3_540_000);
    assert_eq!(kept.fresh_at(5_000).as_deref(), Some("tok"));
    assert_eq!(kept.fresh_at(3_544_999).as_deref(), Some("tok"));
    assert_eq!(kept.fresh_at(3_545_000), None);
    let at_once = agent_tools::google::CachedToken::new("t".to_string(), 7, 0);
    assert_eq!(at_once.fresh_at(7), None);
    let far = agent_tools::google::CachedToken::new("t".to_string(), u64::MAX - 10, 1);
    assert_eq!(far.expires_at_ms, u64::MAX);
}

#[test]
fn a_second_call_within_the_keep_time_reuses_the_token() {
    assert_eq!(kept_token(&None, 0), None);
    let cache = Some(CachedToken::new("tok".to_string(), 1_000, 60));
    assert_eq!(kept_token(&cache, 1_000).as_deref(), Some("tok"));
    assert_eq!(kept_token(&cache, 60_999).as_deref(), Some("tok"));
    assert_eq!(kept_token(&cache, 61_000), None);
}

#[test]
fn a_places_search_sends_the_key_the_field_mask_and_the_query() {
    let tool = GooglePlacesSearchTool::new("k1".to_string());
    let req = tool.search_request("pizza in Rome", 3);
    assert_eq!(req.url, "https://places.googleapis.com/v1/places:searchText");
    assert_eq!(
        req.headers,
        vec![
            ("X-Goog-Api-Key".to_string(), "k1".to_string()),
            ("X-Goog-FieldMask".to_string(), PLACES_FIELD_MASK.to_string()),
        ]
    );
    assert!(PLACES_FIELD_MASK.starts_with("places.id,places.displayName,"));
    match &req.body {
        JsonValue::Object(es) => {
            assert_eq!(es[0].0, "textQuery");
            assert!(matches!(&es[0].1, JsonValue::Str(q) if q == "pizza in Rome"));
            assert_eq!(es[1].0, "pageSize");
            assert!(matches!(&es[1].1, JsonValue::Number(JsonNumber::PosInt(3))));
        },
        _ => panic!("the body is not an object"),
    }
}
