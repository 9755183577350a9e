use agent_tools::currency::{format_currency_response, CurrencyTool};
use agent_tools::render::Piece;
use agent_tools::framework::{ToolCategory, ToolType};
use agent_tools::google::HttpReply;
use agent_tools::json::{JsonNumber, JsonValue};
use agent_tools::mail::{parse_u16, EmailConfig, EmailTool, GmailDraft, GoogleGmailTool};
use agent_tools::weather::{
    city_query, degrees_to_direction, forecast_renderable_exec, temperature_unit, to_titlecase, units_supported,
    wind_unit, words_start_narrow_exec, current_place_of, forecast_place_of, ForecastTool, PlaceChoice, WeatherTool,
};

fn s(t: &str) -> JsonValue {
    JsonValue::Str(t.to_string())
}

fn num(t: &str) -> JsonValue {
    JsonValue::Number(JsonNumber::Float(t.to_string()))
}

fn obj(pairs: Vec<(&str, JsonValue)>) -> JsonValue {
    JsonValue::Object(pairs.into_iter().map(|(k, v)| (k.to_string(), v)).collect())
}

fn arr(items: Vec<JsonValue>) -> JsonValue {
    JsonValue::Array(items)
}

fn value(n: &JsonNumber) -> f64 {
    match n {
        JsonNumber::PosInt(u) => *u as f64,
        JsonNumber::NegInt(i) => *i as f64,
        JsonNumber::Float(t) => t.parse::<f64>().unwrap(),
    }
}

fn render(pieces: &[Piece]) -> String {
    pieces
        .iter()
        .map(|p| match p {
            Piece::Text(t) => t.clone(),
            Piece::Number(n, d) => format!("{:.*}", *d as usize, n.as_ref().map_or(0.0, value)),
            Piece::Thousandths(v) => format!("{:.1}", *v as f64 / 1000.0),
            Piece::Percent(n) => format!("{:.0}", n.as_ref().map_or(0.0, value) * 100.0),
            Piece::Highest(ns) => format!("{:.1}", ns.iter().map(value).fold(f64::MIN, f64::max)),
            Piece::Lowest(ns) => format!("{:.1}", ns.iter().map(value).fold(f64::MAX, f64::min)),
            Piece::HighestPercent(ns) => format!("{:.0}", ns.iter().map(value).fold(0.0, f64::max) * 100.0),
        })
        .collect()
}

fn reply(success: bool, json: Option<JsonValue>) -> HttpReply {
    HttpReply { success, status: "404 Not Found".to_string(), text: "missing".to_string(), json }
}

#[test]
fn metadata_describes_the_currency_tool() {
    let tool = CurrencyTool::new();
    assert_eq!(tool.metadata.id, "5");
    assert_eq!(tool.metadata.category, ToolCategory::Financial);
    assert_eq!(tool.metadata.tool_type, ToolType::Currency);
    assert_eq!(tool.base_url, "https://api.nbp.pl/api/exchangerates");
}

#[test]
fn currency_requests_follow_the_nbp_paths() {
    let tool = CurrencyTool::with_base_url("http://nbp");
    let url = |a: JsonValue| tool.request(Some(&a)).ok().unwrap();
    assert_eq!(url(obj(vec![("code", s("USD"))])), "http://nbp/rates/A/USD/?format=json");
    assert_eq!(
        url(obj(vec![("code", s("USD")), ("date", s("2024-01-02"))])),
        "http://nbp/rates/A/USD/2024-01-02/?format=json"
    );
    assert_eq!(
        url(obj(vec![("code", s("EUR")), ("table", s("C")), ("last", JsonValue::Number(JsonNumber::PosInt(5)))])),
        "http://nbp/rates/C/EUR/last/5/?format=json"
    );
    assert_eq!(url(obj(vec![])), "http://nbp/tables/A/?format=json");
    assert_eq!(url(obj(vec![("date", s("2024-01-02"))])), "http://nbp/tables/A/2024-01-02/?format=json");
    assert_eq!(
        tool.request(Some(&obj(vec![("date", s("2024-1-2"))]))).err().unwrap().to_string(),
        "Date must be in YYYY-MM-DD format"
    );
    // Ten bytes, not ten characters.
    assert!(tool.request(Some(&obj(vec![("date", s("2024-01-0é"))]))).is_err());
    assert_eq!(
        tool.request(None).err().unwrap().to_string(),
        "Failed to parse currency tool arguments"
    );
}

#[test]
fn currency_replies_are_checked() {
    assert_eq!(
        CurrencyTool::rates_of(None).err().unwrap().to_string(),
        "Failed to request currency data from NBP API"
    );
    assert_eq!(
        CurrencyTool::rates_of(Some(&reply(false, None))).err().unwrap().to_string(),
        "NBP API returned error 404 Not Found: missing"
    );
    assert_eq!(
        CurrencyTool::rates_of(Some(&reply(true, None))).err().unwrap().to_string(),
        "Failed to parse NBP API response"
    );
    assert!(CurrencyTool::rates_of(Some(&reply(true, Some(obj(vec![]))))).is_ok());
}

#[test]
fn a_currency_history_lists_each_rate() {
    let data = obj(vec![
        ("table", s("A")),
        ("currency", s("dolar amerykański")),
        ("code", s("USD")),
        (
            "rates",
            arr(vec![
                obj(vec![("effectiveDate", s("2024-01-02")), ("mid", num("3.9432"))]),
                obj(vec![("effectiveDate", s("2024-01-03")), ("bid", num("3.9")), ("ask", num("4"))]),
            ]),
        ),
    ]);
    assert_eq!(
        render(&format_currency_response(&data, "A")),
        "💱 **Exchange Rates for dolar amerykański (USD)**\n  📅 2024-01-02: **3.9432 PLN**\n  📅 2024-01-03: Bid: **3.9000 PLN**, Ask: **4.0000 PLN**\n"
    );
}

#[test]
fn a_list_of_tables_lists_each_table() {
    let data = arr(vec![obj(vec![
        ("effectiveDate", s("2024-01-02")),
        (
            "rates",
            arr(vec![
                obj(vec![("code", s("USD")), ("currency", s("dolar")), ("mid", num("3.5"))]),
                obj(vec![("code", s("EUR")), ("bid", num("4.25"))]),
            ]),
        ),
    ])]);
    assert_eq!(
        render(&format_currency_response(&data, "c")),
        "📅 **Table C from 2024-01-02**\n  • USD (dolar): **3.5000 PLN**\n  • EUR (Unknown): Bid: **4.2500**, Ask: **0.0000**\n\n"
    );
}

#[test]
fn an_unrecognized_reply_says_so() {
    for data in [obj(vec![("code", s("USD"))]), s("x"), JsonValue::Null, arr(vec![])] {
        assert_eq!(
            render(&format_currency_response(&data, "A")),
            "No currency data found or format not recognized."
        );
    }
}

#[test]
fn weather_tools_need_a_key() {
    let tool = WeatherTool::new(String::new());
    assert_eq!(tool.metadata.id, "weather_current");
    assert_eq!(tool.metadata.category, ToolCategory::Utility);
    assert_eq!(tool.metadata.tool_type, ToolType::Weather);
    assert!(!tool.is_available());
    assert!(WeatherTool::new("k".to_string()).is_available());
    let forecast = ForecastTool::new(String::new());
    assert_eq!(forecast.metadata.id, "weather_forecast");
    assert_eq!(forecast.metadata.category, ToolCategory::Utility);
    assert_eq!(forecast.metadata.tool_type, ToolType::Weather);
}

#[test]
fn wind_directions_cover_the_compass() {
    let cases = [
        (0, "N"), (22, "N"), (23, "NE"), (67, "NE"), (68, "E"), (112, "E"), (113, "SE"), (157, "SE"),
        (158, "S"), (202, "S"), (203, "SW"), (247, "SW"), (248, "W"), (292, "W"), (293, "NW"), (337, "NW"),
        (338, "N"), (359, "N"), (360, "N"), (405, "NE"),
    ];
    for (deg, dir) in cases {
        assert_eq!(degrees_to_direction(deg), dir, "{}", deg);
    }
}

#[test]
fn units_and_places() {
    assert!(units_supported("metric") && units_supported("imperial") && units_supported("standard"));
    assert!(!units_supported("kelvin"));
    assert_eq!(temperature_unit("metric"), "C");
    assert_eq!(temperature_unit("imperial"), "F");
    assert_eq!(temperature_unit("standard"), "K");
    assert_eq!(wind_unit("imperial"), "mph");
    assert_eq!(wind_unit("metric"), "m/s");
    assert_eq!(city_query("Springfield", Some("IL"), Some("US")), "Springfield,IL,US");
    assert_eq!(city_query("Paris", Some(""), None), "Paris");
    assert_eq!(city_query("Paris", None, Some("FR")), "Paris,FR");
}

#[test]
fn gmail_needs_recipient_subject_and_body() {
    let err = |a: Option<&JsonValue>| GoogleGmailTool::plan(a).err().unwrap().to_string();
    assert_eq!(err(None), "Failed to parse arguments");
    assert_eq!(err(Some(&obj(vec![]))), "Missing 'to'");
    assert_eq!(err(Some(&obj(vec![("to", s("a@b.c"))]))), "Missing 'subject'");
    assert_eq!(err(Some(&obj(vec![("to", s("a@b.c")), ("subject", s("s"))]))), "Missing 'body'");
    let d = GoogleGmailTool::plan(Some(&obj(vec![
        ("to", s("a@b.c")),
        ("subject", s("s")),
        ("body", s("<p>b</p>")),
        ("thread_id", s("th1")),
    ])))
    .ok()
    .unwrap();
    assert_eq!(d.to, "a@b.c");
    assert_eq!(d.thread_id.as_deref(), Some("th1"));
    assert!(d.message_id.is_none());
}

#[test]
fn gmail_payload_carries_the_encoded_message_and_thread() {
    let draft = GmailDraft {
        to: "friend@example.com".to_string(),
        subject: "Hello".to_string(),
        body: "<p>Hi</p>".to_string(),
        thread_id: Some("th1".to_string()),
        message_id: Some("<m1@example.com>".to_string()),
    };
    let p = GoogleGmailTool::payload(draft).ok().unwrap();
    let entries = match &p {
        JsonValue::Object(es) => es,
        _ => panic!("not an object"),
    };
    assert_eq!(entries[0].0, "raw");
    let raw = match &entries[0].1 {
        JsonValue::Str(r) => r.clone(),
        _ => panic!("raw is not text"),
    };
    assert!(!raw.is_empty());
    assert!(raw.chars().all(|c| c.is_ascii_alphanumeric() || c == '-' || c == '_' || c == '='));
    assert_eq!(raw.len() % 4, 0);
    assert_eq!(entries[1].0, "threadId");
    let bytes = base64::Engine::decode(&base64::engine::general_purpose::URL_SAFE, raw.as_bytes()).unwrap();
    let message = String::from_utf8(bytes).unwrap();
    for line in [
        "From: me@localhost\r\n",
        "To: friend@example.com\r\n",
        "Subject: Hello\r\n",
        "Content-Type: text/html; charset=utf-8\r\n",
        "In-Reply-To: <m1@example.com>\r\n",
        "References: <m1@example.com>\r\n",
        "Date: ",
    ] {
        assert!(message.contains(line), "{} missing from {}", line, message);
    }
    assert!(message.ends_with("<p>Hi</p>"), "{}", message);

    let bad = GmailDraft {
        to: "not an address".to_string(),
        subject: String::new(),
        body: String::new(),
        thread_id: None,
        message_id: None,
    };
    assert_eq!(GoogleGmailTool::payload(bad).err().unwrap().to_string(), "Invalid recipient email address");
    let sent = HttpReply { success: true, status: "200 OK".to_string(), text: String::new(), json: None };
    assert_eq!(
        GoogleGmailTool::send_result("a@b.c", Some(&sent)).ok().unwrap(),
        "Successfully sent email to a@b.c via Gmail API"
    );
}

#[test]
fn port_numbers_read_like_u16_from_str() {
    assert_eq!(parse_u16("587"), Some(587));
    assert_eq!(parse_u16("+465"), Some(465));
    assert_eq!(parse_u16("65535"), Some(65535));
    assert_eq!(parse_u16("65536"), None);
    assert_eq!(parse_u16(""), None);
    assert_eq!(parse_u16("+"), None);
    assert_eq!(parse_u16("-1"), None);
    assert_eq!(parse_u16("25a"), None);
    for t in ["0", "00025", "+0", "1000000", " 25", "９"] {
        assert_eq!(parse_u16(t), t.parse::<u16>().ok(), "{}", t);
    }
}

#[test]
fn smtp_settings_fall_back_in_order() {
    let some = |t: &str| Some(t.to_string());
    let c = EmailConfig::from_values(None, some("host"), some("user"), None, None, some("pw"), None, None, None).unwrap();
    assert_eq!(c.server, "host");
    assert_eq!(c.from, "user");
    assert_eq!(c.port, 587);
    assert!(!c.implicit_tls());
    let c = EmailConfig::from_values(some("srv"), some("host"), some("u"), some("u2"), some("p"), None, None, some("me@x"), some("465"))
        .unwrap();
    assert_eq!(c.server, "srv");
    assert_eq!(c.username, "u");
    assert_eq!(c.from, "me@x");
    assert!(c.implicit_tls());
    assert_eq!(EmailConfig::from_values(some("s"), None, some("u"), None, some("p"), None, None, None, some("x")).unwrap().port, 587);
    assert!(EmailConfig::from_values(None, None, some("u"), None, some("p"), None, None, None, None).is_none());
}

#[test]
fn the_smtp_tool_checks_its_setup_and_arguments() {
    let unconfigured = EmailTool::new(None, false);
    assert!(!unconfigured.is_available());
    assert_eq!(unconfigured.metadata.id, "send_email");
    assert_eq!(
        unconfigured.request(Some(&obj(vec![]))).err().unwrap().to_string(),
        "Email tool is not properly configured. Missing SMTP environment variables."
    );
    let cfg = EmailConfig::from_values(Some("s".into()), None, Some("u@x.y".into()), None, Some("p".into()), None, None, None, None);
    let tool = EmailTool::new(cfg, true);
    assert!(tool.is_available());
    assert_eq!(tool.from_address.as_deref(), Some("u@x.y"));
    assert_eq!(tool.request(None).err().unwrap().to_string(), "Failed to parse email tool arguments");
    assert_eq!(
        tool.request(Some(&obj(vec![("to", s("a@b.c")), ("body", s("b"))]))).err().unwrap().to_string(),
        "Missing required parameter: 'subject'"
    );
    assert!(EmailTool::check_addresses("u@x.y", "a@b.c").is_ok());
    assert_eq!(EmailTool::check_addresses("bad", "a@b.c").err().unwrap().to_string(), "Invalid sender email address");
    assert_eq!(EmailTool::check_addresses("u@x.y", "bad").err().unwrap().to_string(), "Invalid recipient email address");
    assert_eq!(EmailTool::send_result("a@b.c", Ok(())).ok().unwrap(), "Successfully sent email to a@b.c");
    assert_eq!(
        EmailTool::send_result("a@b.c", Err("timeout".to_string())).err().unwrap().to_string(),
        "Failed to send email: timeout"
    );
}

fn whole(v: u64) -> JsonValue {
    JsonValue::Number(JsonNumber::PosInt(v))
}

#[test]
fn current_weather_is_rendered_in_full() {
    let d = obj(vec![
        ("name", s("Warsaw")),
        ("coord", obj(vec![("lat", num("52.23")), ("lon", num("21.01"))])),
        ("main", obj(vec![("temp", num("20.5")), ("feels_like", whole(19)), ("humidity", whole(40)), ("pressure", whole(1012))])),
        ("wind", obj(vec![("speed", num("3.6")), ("deg", whole(90))])),
        ("weather", arr(vec![obj(vec![("description", s("light rain")), ("icon", s("10d"))])])),
        ("visibility", whole(10000)),
        ("clouds", obj(vec![("all", whole(75))])),
    ]);
    let pieces = WeatherTool::format_weather_response(&d, "metric").ok().unwrap();
    assert_eq!(
        render(&pieces),
        "🌡️ **Current Weather in Warsaw** (Lat: 52.2300, Lon: 21.0100)\n\n**Temperature:** 20.5°C (Feels like 19.0°C)\n**Conditions:** Light Rain\n**Humidity:** 40% | **Pressure:** 1012 hPa | **Wind:** 3.6 m/s (E)\n**Visibility:** 10.0 km\n**Cloudiness:** 75%\n\n![Weather Icon](https://openweathermap.org/img/wn/10d@2x.png)\n"
    );
}

#[test]
fn current_weather_defaults_and_errors() {
    let d = obj(vec![
        ("main", obj(vec![("temp", whole(280))])),
        ("weather", arr(vec![obj(vec![])])),
    ]);
    let text = render(&WeatherTool::format_weather_response(&d, "standard").ok().unwrap());
    assert_eq!(
        text,
        "🌡️ **Current Weather in Unknown Location** (Lat: 0.0000, Lon: 0.0000)\n\n**Temperature:** 280.0°K (Feels like 280.0°K)\n**Conditions:** Unknown\n**Humidity:** 0% | **Pressure:** 0 hPa | **Wind:** 0.0 m/s\n"
    );
    let err = |d: JsonValue| WeatherTool::format_weather_response(&d, "metric").err().unwrap();
    assert_eq!(err(obj(vec![])), "Missing 'main' field in weather response");
    assert_eq!(err(obj(vec![("main", obj(vec![]))])), "Missing temperature in weather response");
    assert_eq!(err(obj(vec![("main", obj(vec![("temp", whole(1))]))])), "Missing weather conditions in response");
    assert_eq!(
        err(obj(vec![("main", obj(vec![("temp", whole(1))])), ("weather", arr(vec![]))])),
        "Empty weather conditions array"
    );
}

#[test]
fn titles_are_cased_word_by_word() {
    assert_eq!(to_titlecase("  light   RAIN shower "), "Light Rain Shower");
    assert_eq!(to_titlecase(""), "");
    assert_eq!(to_titlecase("x"), "X");
    assert!(words_start_narrow_exec("clear sky"));
    assert!(!words_start_narrow_exec("éclair"));
}

fn slot(stamp: &str, temp: &str, desc: &str, icon: &str, pop: &str) -> JsonValue {
    obj(vec![
        ("dt_txt", s(stamp)),
        ("main", obj(vec![("temp", num(temp)), ("temp_min", num(temp)), ("temp_max", num(temp))])),
        ("weather", arr(vec![obj(vec![("description", s(desc)), ("icon", s(icon))])])),
        ("pop", num(pop)),
    ])
}

#[test]
fn a_forecast_for_one_date_lists_its_slots() {
    let d = obj(vec![
        ("city", obj(vec![("name", s("Gdansk"))])),
        (
            "list",
            arr(vec![
                slot("2024-01-01 09:00:00", "1.25", "few clouds", "02d", "0.2"),
                slot("2024-01-02 12:00:00", "3", "snow", "", "0"),
            ]),
        ),
    ]);
    assert!(forecast_renderable_exec(&d, Some("2024-01-01")));
    let text = render(&ForecastTool::format_forecast_response(&d, Some("2024-01-01"), "metric").ok().unwrap());
    assert_eq!(
        text,
        "🗓️ **5-Day Weather Forecast for Gdansk**\n\n**Forecast for 2024-01-01:**\n- `09:00`: 1.2°C, Few Clouds, ☔ 20% ![Icon](https://openweathermap.org/img/wn/02d@2x.png)\n"
    );
    let none = render(&ForecastTool::format_forecast_response(&d, Some("2030-01-01"), "metric").ok().unwrap());
    assert!(none.ends_with("(No data found for this date. Note: Forecast is only for next 5 days)\n"));
}

#[test]
fn a_forecast_summary_has_one_line_per_day_in_date_order() {
    let d = obj(vec![(
        "list",
        arr(vec![
            slot("2024-01-02 09:00:00", "1", "light rain", "10n", "0.5"),
            slot("2024-01-02 12:00:00", "4", "light rain", "10d", "0.1"),
            slot("2024-01-02 15:00:00", "2", "clear sky", "01d", "0"),
            slot("2024-01-01 21:00:00", "-3", "snow", "13n", "0.9"),
        ]),
    )]);
    assert!(forecast_renderable_exec(&d, None));
    let text = render(&ForecastTool::format_forecast_response(&d, None, "imperial").ok().unwrap());
    assert_eq!(
        text,
        "🗓️ **5-Day Weather Forecast for Unknown Location**\n\n**2024-01-01**: High -3.0°F / Low -3.0°F, Snow, ☔ 90% chance ![Icon](https://openweathermap.org/img/wn/13n@2x.png)\n**2024-01-02**: High 4.0°F / Low 1.0°F, Light Rain, Clear Sky, ☔ 50% chance ![Icon](https://openweathermap.org/img/wn/10d@2x.png)\n"
    );
    assert_eq!(
        ForecastTool::format_forecast_response(&obj(vec![]), None, "metric").err().unwrap(),
        "Missing 'list' in forecast data"
    );
    let short = obj(vec![("list", arr(vec![obj(vec![("dt_txt", s("2024-é"))])]))]);
    assert!(!forecast_renderable_exec(&short, None));
    let cut = obj(vec![("list", arr(vec![obj(vec![("dt_txt", s("2024-01-0é1"))])]))]);
    assert!(!forecast_renderable_exec(&cut, None));
}

#[test]
fn weather_and_forecast_read_their_place_with_their_own_messages() {
    assert_eq!(current_place_of("metric", true, true, true, true), Ok(PlaceChoice::Coordinates));
    assert_eq!(current_place_of("imperial", true, true, true, false), Ok(PlaceChoice::City));
    assert_eq!(
        current_place_of("kelvin", false, true, true, true).unwrap_err(),
        "Invalid units. Must be 'standard', 'metric', or 'imperial'"
    );
    assert_eq!(current_place_of("metric", false, true, true, true).unwrap_err(), "Latitude must be between -90 and 90");
    assert_eq!(current_place_of("metric", true, false, true, true).unwrap_err(), "Longitude must be between -180 and 180");
    assert_eq!(
        current_place_of("standard", true, true, false, false).unwrap_err(),
        "Either 'city' or both 'latitude' and 'longitude' must be provided"
    );
    assert_eq!(forecast_place_of("metric", true, true), Ok(PlaceChoice::Coordinates));
    assert_eq!(forecast_place_of("metric", true, false), Ok(PlaceChoice::City));
    assert_eq!(forecast_place_of("kelvin", true, true).unwrap_err(), "Invalid units");
    assert_eq!(forecast_place_of("metric", false, false).unwrap_err(), "Either city or lat/lon required");
}
