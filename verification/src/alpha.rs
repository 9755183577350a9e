//! The Alpha Vantage tools: cryptocurrency exchange rates and histories, and
//! stock price histories. The tools check their arguments, build the query
//! URL, check the reply for the API's error and rate-limit notes, and render
//! exchange rates and time series (most recent entries, oldest first).
use vstd::prelude::*;
use crate::framework::{metadata_is, ToolCategory, ToolError, ToolMetadata, ToolType};
use crate::json::{as_nat, as_text, get, lookup, text_at, JsonValue};
use crate::text::{
    contains_seq, copy_str, decimal, lemma_seq_lt_asym, lemma_seq_lt_total, lemma_seq_lt_trans, push_decimal, seq_lt,
};

verus! {

/// The real Alpha Vantage query endpoint.
pub const ALPHA_VANTAGE_URL: &'static str = "https://www.alphavantage.co/query";

/// The Unicode upper-case mapping of a string (`str::to_uppercase`).
pub uninterp spec fn uppercase(s: Seq<char>) -> Seq<char>;

/// Runs `str::to_uppercase`. The contract names its result: the full
/// Unicode upper-case mapping of the characters, which the library does not
/// restate.
#[verifier::external_body]
pub(crate) fn to_upper(s: &str) -> (r: String)
    ensures
        r@ == uppercase(s@),
{
    s.to_uppercase()
}

/// What came back for an Alpha Vantage query.
pub enum AlphaReply {
    /// A successful reply, parsed as JSON.
    Json(JsonValue),
    /// An unsuccessful status (its rendering, such as `500 Internal Server
    /// Error`) and the reply's text.
    Status(String, String),
    /// A successful reply that is not JSON.
    Unparseable,
    /// The query could not be sent.
    Unreachable,
}

/// The text of the member `key`, or `default`.
pub open spec fn member_text_or(v: JsonValue, key: Seq<char>, default: Seq<char>) -> Seq<char> {
    match as_text(get(v, key)) {
        Some(s) => s,
        None => default,
    }
}

/// What a reply comes to: the JSON, or the message of the failure. A reply
/// with an `Error Message` is an error; so is one with a `Note` when
/// `any_note` holds or the note thanks the caller (the rate limit).
pub open spec fn alpha_outcome(reply: AlphaReply, send: Seq<char>, any_note: bool) -> Result<
    JsonValue,
    Seq<char>,
> {
    match reply {
        AlphaReply::Unreachable => Err(send),
        AlphaReply::Status(status, body) => Err(
            "Alpha Vantage API returned error "@ + status@ + ": "@ + body@,
        ),
        AlphaReply::Unparseable => Err("Failed to parse Alpha Vantage API response"@),
        AlphaReply::Json(d) => if get(d, "Error Message"@) is Some {
            Err("Alpha Vantage API error: "@ + member_text_or(d, "Error Message"@, "Unknown error"@))
        } else if get(d, "Note"@) is Some && (any_note || contains_seq(
            member_text_or(d, "Note"@, ""@),
            "Thank you"@,
        )) {
            Err(
                "Alpha Vantage API limit reached: "@ + member_text_or(
                    d,
                    "Note"@,
                    "Rate limit exceeded"@,
                ),
            )
        } else {
            Ok(d)
        },
    }
}

fn member_text(v: &JsonValue, key: &str, default: &str) -> (r: String)
    ensures
        r@ == member_text_or(*v, key@, default@),
{
    match v.get(key) {
        Some(x) => match x.as_str() {
            Some(s) => copy_str(s),
            None => copy_str(default),
        },
        None => copy_str(default),
    }
}

/// What a reply comes to.
pub fn alpha_result(reply: AlphaReply, send: &str, any_note: bool) -> (r: Result<JsonValue, String>)
    ensures
        match alpha_outcome(reply, send@, any_note) {
            Ok(d) => r == Ok::<JsonValue, String>(d),
            Err(m) => r matches Err(s) && s@ == m,
        },
{
    match reply {
        AlphaReply::Unreachable => Err(copy_str(send)),
        AlphaReply::Status(status, body) => {
            let mut m = copy_str("Alpha Vantage API returned error ");
            m.append(status.as_str());
            m.append(": ");
            m.append(body.as_str());
            Err(m)
        },
        AlphaReply::Unparseable => Err(copy_str("Failed to parse Alpha Vantage API response")),
        AlphaReply::Json(d) => {
            if d.get("Error Message").is_some() {
                let mut m = copy_str("Alpha Vantage API error: ");
                m.append(member_text(&d, "Error Message", "Unknown error").as_str());
                return Err(m);
            }
            if d.get("Note").is_some() {
                let note = member_text(&d, "Note", "");
                if any_note || crate::text::str_contains(note.as_str(), "Thank you") {
                    let mut m = copy_str("Alpha Vantage API limit reached: ");
                    m.append(member_text(&d, "Note", "Rate limit exceeded").as_str());
                    return Err(m);
                }
            }
            Ok(d)
        },
    }
}

/// `x` inserted into entries ordered by descending key, after those whose key
/// is not below its own.
pub open spec fn insert_desc(s: Seq<(String, JsonValue)>, x: (String, JsonValue)) -> Seq<
    (String, JsonValue),
>
    decreases s.len(),
{
    if s.len() == 0 {
        seq![x]
    } else if seq_lt(s[0].0@, x.0@) {
        seq![x] + s
    } else {
        seq![s[0]] + insert_desc(s.drop_first(), x)
    }
}

/// The entries ordered by descending key; entries with equal keys keep their
/// order (a stable sort).
pub open spec fn sort_desc(s: Seq<(String, JsonValue)>) -> Seq<(String, JsonValue)>
    decreases s.len(),
{
    if s.len() == 0 {
        Seq::empty()
    } else {
        insert_desc(sort_desc(s.drop_last()), s.last())
    }
}

proof fn lemma_insert_desc(s: Seq<(String, JsonValue)>, x: (String, JsonValue), p: int)
    requires
        0 <= p <= s.len(),
        forall|i: int| 0 <= i < p ==> !seq_lt(#[trigger] s[i].0@, x.0@),
        p < s.len() ==> seq_lt(s[p].0@, x.0@),
    ensures
        insert_desc(s, x) == s.insert(p, x),
    decreases s.len(),
{
    if s.len() == 0 {
        assert(s.insert(p, x) =~= seq![x]);
    } else if p == 0 {
        assert(s.insert(0, x) =~= seq![x] + s);
    } else {
        assert(!seq_lt(s[0].0@, x.0@));
        let t = s.drop_first();
        assert forall|i: int| 0 <= i < p - 1 implies !seq_lt(#[trigger] t[i].0@, x.0@) by {
            assert(t[i] == s[i + 1]);
        }
        if p - 1 < t.len() {
            assert(t[p - 1] == s[p]);
        }
        lemma_insert_desc(t, x, p - 1);
        assert(seq![s[0]] + t.insert(p - 1, x) =~= s.insert(p, x));
    }
}

fn key_lt(a: &(String, JsonValue), b: &(String, JsonValue)) -> (r: bool)
    ensures
        r == seq_lt(a.0@, b.0@),
{
    crate::text::str_lt(a.0.as_str(), b.0.as_str())
}

/// The positions of the entries in descending key order.
pub fn sorted_positions(es: &Vec<(String, JsonValue)>) -> (r: Vec<usize>)
    ensures
        r@.len() == es@.len(),
        forall|i: int| 0 <= i < r@.len() ==> #[trigger] r@[i] < es@.len(),
        r@.map_values(|i: usize| es@[i as int]) == sort_desc(es@),
{
    let mut idx: Vec<usize> = Vec::new();
    let mut k: usize = 0;
    assert(es@.take(0) =~= Seq::<(String, JsonValue)>::empty());
    assert(idx@.map_values(|i: usize| es@[i as int]) =~= Seq::<(String, JsonValue)>::empty());
    while k < es.len()
        invariant
            k <= es@.len(),
            idx@.len() == k,
            forall|i: int| 0 <= i < idx@.len() ==> #[trigger] idx@[i] < k,
            idx@.map_values(|i: usize| es@[i as int]) == sort_desc(es@.take(k as int)),
        decreases es@.len() - k,
    {
        let ghost cur = idx@.map_values(|i: usize| es@[i as int]);
        let x = &es[k];
        let mut p: usize = 0;
        while p < idx.len() && !key_lt(&es[idx[p]], x)
            invariant
                p <= idx@.len(),
                idx@.len() == k,
                k < es@.len(),
                *x == es@[k as int],
                forall|i: int| 0 <= i < idx@.len() ==> #[trigger] idx@[i] < k,
                cur == idx@.map_values(|i: usize| es@[i as int]),
                forall|i: int| 0 <= i < p ==> !seq_lt(#[trigger] cur[i].0@, es@[k as int].0@),
            decreases idx@.len() - p,
        {
            assert(cur[p as int] == es@[idx@[p as int] as int]);
            p = p + 1;
        }
        proof {
            lemma_insert_desc(cur, es@[k as int], p as int);
            assert(es@.take(k + 1).drop_last() =~= es@.take(k as int));
            assert(es@.take(k + 1).last() == es@[k as int]);
        }
        idx.insert(p, k);
        assert(idx@.map_values(|i: usize| es@[i as int]) =~= cur.insert(p as int, es@[k as int]));
        k = k + 1;
    }
    assert(es@.take(es@.len() as int) =~= es@);
    idx
}

/// How a time series entry is rendered.
#[derive(Debug, Clone, Copy, PartialEq, Eq, Structural)]
pub enum SeriesKind {
    /// A cryptocurrency entry, with prices in the market currency.
    Crypto,
    /// A stock entry, with prices in dollars.
    Stock,
}

/// The text of the first of the keys the value has, or `N/A`.
pub open spec fn first_of(v: JsonValue, k1: Seq<char>, k2: Seq<char>, k3: Seq<char>) -> Seq<char> {
    let found = if get(v, k1) is Some {
        get(v, k1)
    } else if get(v, k2) is Some {
        get(v, k2)
    } else {
        get(v, k3)
    };
    match as_text(found) {
        Some(s) => s,
        None => "N/A"@,
    }
}

/// The price field `name` numbered `n` in the market currency, in US dollars,
/// or plain.
pub open spec fn price_of(v: JsonValue, n: Seq<char>, name: Seq<char>, market: Seq<char>) -> Seq<char> {
    first_of(
        v,
        n + "a. "@ + name + " ("@ + market + ")"@,
        n + "a. "@ + name + " (USD)"@,
        n + ". "@ + name,
    )
}

/// The rendering of one time series entry.
pub open spec fn series_line(kind: SeriesKind, market: Seq<char>, e: (String, JsonValue)) -> Seq<char> {
    let v = e.1;
    match kind {
        SeriesKind::Crypto => "**"@ + e.0@ + "**\n  • Open: "@ + price_of(v, "1"@, "open"@, market)
            + " "@ + market + " | High: "@ + price_of(v, "2"@, "high"@, market) + " | Low: "@
            + price_of(v, "3"@, "low"@, market) + " | Close: "@ + price_of(
            v,
            "4"@,
            "close"@,
            market,
        ) + " | Vol: "@ + member_text_or(v, "5. volume"@, "N/A"@) + "\n\n"@,
        SeriesKind::Stock => "**"@ + e.0@ + "**\n  • Open: $"@ + member_text_or(
            v,
            "1. open"@,
            "N/A"@,
        ) + " | High: $"@ + member_text_or(v, "2. high"@, "N/A"@) + " | Low: $"@ + member_text_or(
            v,
            "3. low"@,
            "N/A"@,
        ) + " | Close: $"@ + member_text_or(v, "4. close"@, "N/A"@) + "\n  • Volume: "@
            + member_text_or(v, "5. volume"@, "N/A"@) + "\n\n"@,
    }
}

/// The entries at positions `hi - 1` down to `lo`, in that order.
pub open spec fn lines_down(kind: SeriesKind, market: Seq<char>, s: Seq<(String, JsonValue)>, hi: int, lo: int) -> Seq<
    char,
>
    decreases hi - lo,
{
    if hi <= lo {
        Seq::empty()
    } else {
        lines_down(kind, market, s, hi, lo + 1) + series_line(kind, market, s[lo])
    }
}

/// How many entries are shown: the limit (ten by default, all for zero), at
/// most all of them.
pub open spec fn shown_count(n: nat, limit: Option<u64>) -> nat {
    let l = match limit {
        Some(l) => l as nat,
        None => 10,
    };
    if l == 0 || n < l {
        n
    } else {
        l
    }
}

/// A time series: its most recent entries, oldest first, and how many more
/// there are.
pub open spec fn series_text(kind: SeriesKind, market: Seq<char>, es: Seq<(String, JsonValue)>, limit: Option<u64>) -> Seq<
    char,
> {
    let s = sort_desc(es);
    let c = shown_count(s.len(), limit);
    "📅 **Recent "@ + decimal(c) + " entries (Chronological):**\n\n"@ + lines_down(
        kind,
        market,
        s,
        c as int,
        0,
    ) + if s.len() > c {
        "_...and "@ + decimal((s.len() - c) as nat) + " more entries available_\n"@
    } else {
        Seq::empty()
    }
}

fn price_text(v: &JsonValue, n: &str, name: &str, market: &str) -> (r: String)
    ensures
        r@ == price_of(*v, n@, name@, market@),
{
    let mut k1 = copy_str(n);
    k1.append("a. ");
    k1.append(name);
    k1.append(" (");
    k1.append(market);
    k1.append(")");
    let mut k2 = copy_str(n);
    k2.append("a. ");
    k2.append(name);
    k2.append(" (USD)");
    let mut k3 = copy_str(n);
    k3.append(". ");
    k3.append(name);
    let found = match v.get(k1.as_str()) {
        Some(x) => Some(x),
        None => match v.get(k2.as_str()) {
            Some(x) => Some(x),
            None => v.get(k3.as_str()),
        },
    };
    match found {
        Some(x) => match x.as_str() {
            Some(s) => copy_str(s),
            None => copy_str("N/A"),
        },
        None => copy_str("N/A"),
    }
}

fn series_line_text(kind: SeriesKind, market: &str, e: &(String, JsonValue)) -> (r: String)
    ensures
        r@ == series_line(kind, market@, *e),
{
    let v = &e.1;
    let mut o = copy_str("**");
    o.append(e.0.as_str());
    match kind {
        SeriesKind::Crypto => {
            o.append("**\n  • Open: ");
            o.append(price_text(v, "1", "open", market).as_str());
            o.append(" ");
            o.append(market);
            o.append(" | High: ");
            o.append(price_text(v, "2", "high", market).as_str());
            o.append(" | Low: ");
            o.append(price_text(v, "3", "low", market).as_str());
            o.append(" | Close: ");
            o.append(price_text(v, "4", "close", market).as_str());
            o.append(" | Vol: ");
            o.append(member_text(v, "5. volume", "N/A").as_str());
            o.append("\n\n");
        },
        SeriesKind::Stock => {
            o.append("**\n  • Open: $");
            o.append(member_text(v, "1. open", "N/A").as_str());
            o.append(" | High: $");
            o.append(member_text(v, "2. high", "N/A").as_str());
            o.append(" | Low: $");
            o.append(member_text(v, "3. low", "N/A").as_str());
            o.append(" | Close: $");
            o.append(member_text(v, "4. close", "N/A").as_str());
            o.append("\n  • Volume: ");
            o.append(member_text(v, "5. volume", "N/A").as_str());
            o.append("\n\n");
        },
    }
    o
}

/// Renders a time series: its most recent entries, oldest first.
pub fn format_series(kind: SeriesKind, market: &str, es: &Vec<(String, JsonValue)>, limit: Option<u64>) -> (r: String)
    ensures
        r@ == series_text(kind, market@, es@, limit),
{
    let idx = sorted_positions(es);
    let ghost s = sort_desc(es@);
    let n = idx.len();
    let c: usize = match limit {
        Some(l) => if l == 0 || (n as u64) < l {
            n
        } else {
            l as usize
        },
        None => if n < 10 {
            n
        } else {
            10
        },
    };
    assert(c == shown_count(s.len(), limit));
    let mut out = copy_str("📅 **Recent ");
    push_decimal(&mut out, c as u64);
    out.append(" entries (Chronological):**\n\n");
    let ghost head = out@;
    let mut j: usize = c;
    assert(lines_down(kind, market@, s, c as int, c as int) =~= Seq::<char>::empty());
    while j > 0
        invariant
            j <= c <= n,
            n == es@.len(),
            idx@.len() == n,
            forall|i: int| 0 <= i < idx@.len() ==> #[trigger] idx@[i] < es@.len(),
            s == idx@.map_values(|i: usize| es@[i as int]),
            out@ == head + lines_down(kind, market@, s, c as int, j as int),
        decreases j,
    {
        let e = &es[idx[j - 1]];
        assert(*e == s[j - 1]);
        let t = series_line_text(kind, market, e);
        out.append(t.as_str());
        j = j - 1;
    }
    if n > c {
        out.append("_...and ");
        push_decimal(&mut out, (n - c) as u64);
        out.append(" more entries available_\n");
    }
    out
}

/// A cryptocurrency query: the function, the symbols, and how many entries to
/// show.
pub struct CryptoQuery {
    pub function: String,
    pub from_currency: String,
    pub to_currency: String,
    pub limit: Option<u64>,
    pub url: String,
}

/// The functions the crypto tool accepts.
pub open spec fn crypto_function(f: Seq<char>) -> bool {
    f == "CURRENCY_EXCHANGE_RATE"@ || f == "DIGITAL_CURRENCY_DAILY"@ || f
        == "DIGITAL_CURRENCY_WEEKLY"@ || f == "DIGITAL_CURRENCY_MONTHLY"@
}

/// The query URL of a crypto function.
pub open spec fn crypto_url(base: Seq<char>, f: Seq<char>, key: Seq<char>, from: Seq<char>, to: Seq<char>) -> Seq<
    char,
> {
    base + "?function="@ + f + "&apikey="@ + key + if f == "CURRENCY_EXCHANGE_RATE"@ {
        "&from_currency="@ + from + "&to_currency="@ + to
    } else {
        "&symbol="@ + from + "&market="@ + to
    }
}

/// The series key of a digital-currency function.
pub open spec fn crypto_series_key(f: Seq<char>) -> Seq<char> {
    if f == "DIGITAL_CURRENCY_WEEKLY"@ {
        "Time Series (Digital Currency Weekly)"@
    } else if f == "DIGITAL_CURRENCY_MONTHLY"@ {
        "Time Series (Digital Currency Monthly)"@
    } else {
        "Time Series (Digital Currency Daily)"@
    }
}

/// An object's members, when the value is an object.
pub open spec fn members_of(v: Option<JsonValue>) -> Option<Seq<(String, JsonValue)>> {
    match v {
        Some(JsonValue::Object(m)) => Some(m@),
        _ => None,
    }
}

/// The answer of the crypto tool for a reply `d`.
pub open spec fn crypto_text(d: JsonValue, f: Seq<char>, from: Seq<char>, to: Seq<char>, limit: Option<u64>) -> Seq<
    char,
> {
    if f == "CURRENCY_EXCHANGE_RATE"@ {
        match get(d, "Realtime Currency Exchange Rate"@) {
            Some(JsonValue::Object(m)) => {
                let r = JsonValue::Object(m);
                "💱 **Exchange Rate: "@ + member_text_or(r, "1. From_Currency Code"@, from) + " ("@
                    + member_text_or(r, "2. From_Currency Name"@, ""@) + ") to "@ + member_text_or(
                    r,
                    "3. To_Currency Code"@,
                    to,
                ) + " ("@ + member_text_or(r, "4. To_Currency Name"@, ""@) + ")**\n\n"@
                    + "💰 **Rate: "@ + member_text_or(r, "5. Exchange Rate"@, "N/A"@) + "**\n"@
                    + "🕒 Last Refreshed: "@ + member_text_or(r, "6. Last Refreshed"@, "N/A"@)
                    + "\n"@ + "• Bid: "@ + member_text_or(r, "8. Bid Price"@, "N/A"@) + "\n"@
                    + "• Ask: "@ + member_text_or(r, "9. Ask Price"@, "N/A"@) + "\n"@
            },
            _ => "No exchange rate data found in response.\n"@,
        }
    } else {
        (match get(d, "Meta Data"@) {
            Some(meta) => "📊 **Crypto Data for "@ + member_text_or(
                meta,
                "2. Digital Currency Code"@,
                from,
            ) + " ("@ + member_text_or(meta, "3. Digital Currency Name"@, ""@) + ") in "@
                + member_text_or(meta, "4. Market Code"@, to) + "**\n"@ + "🕐 Last Refreshed: "@
                + member_text_or(meta, "6. Last Refreshed"@, "Unknown"@) + "\n\n"@,
            None => Seq::empty(),
        }) + match members_of(get(d, crypto_series_key(f))) {
            Some(es) => series_text(SeriesKind::Crypto, to, es, limit),
            None => "No time series data found.\n"@,
        }
    }
}

/// Cryptocurrency exchange rates and histories from Alpha Vantage.
pub struct CryptoTool {
    pub metadata: ToolMetadata,
    pub api_key: Option<String>,
    pub base_url: String,
}

impl CryptoTool {
    /// A crypto tool with the configured `ALPHA_ADVANTAGE_KEY` value.
    pub fn new(api_key: Option<String>) -> (t: Self)
        ensures
            t.api_key == api_key,
            t.base_url@ == ALPHA_VANTAGE_URL@,
            metadata_is(
                t.metadata,
                "7"@,
                "Cryptocurrency & Global Exchange"@,
                ToolType::Crypto,
                "Fetch real-time cryptocurrency exchange rates and historical crypto data (daily/weekly/monthly) via Alpha Vantage API"@,
                ToolCategory::Financial,
            ),
    {
        CryptoTool {
            metadata: ToolMetadata::from_parts(
                "7",
                "Cryptocurrency & Global Exchange",
                ToolType::Crypto,
                "Fetch real-time cryptocurrency exchange rates and historical crypto data (daily/weekly/monthly) via Alpha Vantage API",
                ToolCategory::Financial,
            ),
            api_key,
            base_url: copy_str(ALPHA_VANTAGE_URL),
        }
    }

    /// A tool with this key talking to `base_url`.
    pub fn with_base_url(base_url: &str, api_key: Option<&str>) -> (t: Self)
        ensures
            t.base_url@ == base_url@,
            match api_key {
                Some(k) => t.api_key matches Some(s) && s@ == k@,
                None => t.api_key is None,
            },
            t.metadata.id@ == "7"@,
    {
        let key = match api_key {
            Some(k) => Some(copy_str(k)),
            None => None,
        };
        let mut t = Self::new(key);
        t.base_url = copy_str(base_url);
        t
    }

    /// The tool is available only with an API key.
    pub fn is_available(&self) -> (b: bool)
        ensures
            b == (self.api_key is Some),
    {
        self.api_key.is_some()
    }

    /// The query a call makes (its arguments `None` when they were not
    /// JSON); the symbols are upper-cased.
    pub fn plan(&self, args: Option<&JsonValue>) -> (r: Result<CryptoQuery, ToolError>)
        ensures
            match args {
                None => r matches Err(e) && e.message@ == "Failed to parse crypto tool arguments"@,
                Some(a) => {
                    let f = match text_at(*a, seq!["function"]) {
                        Some(f) => f,
                        None => "CURRENCY_EXCHANGE_RATE"@,
                    };
                    match (text_at(*a, seq!["from_currency"]), text_at(*a, seq!["to_currency"])) {
                        (None, _) => r matches Err(e) && e.message@
                            == "Missing required 'from_currency' parameter"@,
                        (Some(_), None) => r matches Err(e) && e.message@
                            == "Missing required 'to_currency' parameter"@,
                        (Some(from), Some(to)) => if !crypto_function(f) {
                            r matches Err(e) && e.message@ == "Invalid function '"@ + f
                                + "'. Must be one of: [\"CURRENCY_EXCHANGE_RATE\", \"DIGITAL_CURRENCY_DAILY\", \"DIGITAL_CURRENCY_WEEKLY\", \"DIGITAL_CURRENCY_MONTHLY\"]"@
                        } else {
                            match self.api_key {
                                None => r matches Err(e) && e.message@
                                    == "ALPHA_ADVANTAGE_KEY environment variable not set"@,
                                Some(k) => r matches Ok(q) && q.function@ == f
                                    && q.from_currency@ == uppercase(from) && q.to_currency@
                                    == uppercase(to) && q.limit == as_nat(
                                    lookup(*a, seq!["limit"]),
                                ) && q.url@ == crypto_url(
                                    self.base_url@,
                                    f,
                                    k@,
                                    uppercase(from),
                                    uppercase(to),
                                ),
                            }
                        },
                    }
                },
            },
    {
        let a = match args {
            Some(a) => a,
            None => {
                return Err(ToolError::msg("Failed to parse crypto tool arguments"));
            },
        };
        let function = match a.text1("function") {
            Some(f) => copy_str(f),
            None => copy_str("CURRENCY_EXCHANGE_RATE"),
        };
        let from = match a.text1("from_currency") {
            Some(s) => to_upper(s),
            None => {
                return Err(ToolError::msg("Missing required 'from_currency' parameter"));
            },
        };
        let to = match a.text1("to_currency") {
            Some(s) => to_upper(s),
            None => {
                return Err(ToolError::msg("Missing required 'to_currency' parameter"));
            },
        };
        let limit = a.u64_1("limit");
        let f = function.as_str();
        let exchange = crate::text::str_eq(f, "CURRENCY_EXCHANGE_RATE");
        if !(exchange || crate::text::str_eq(f, "DIGITAL_CURRENCY_DAILY") || crate::text::str_eq(
            f,
            "DIGITAL_CURRENCY_WEEKLY",
        ) || crate::text::str_eq(f, "DIGITAL_CURRENCY_MONTHLY")) {
            let mut m = copy_str("Invalid function '");
            m.append(f);
            m.append(
                "'. Must be one of: [\"CURRENCY_EXCHANGE_RATE\", \"DIGITAL_CURRENCY_DAILY\", \"DIGITAL_CURRENCY_WEEKLY\", \"DIGITAL_CURRENCY_MONTHLY\"]",
            );
            return Err(ToolError::new(m));
        }
        let key = match &self.api_key {
            Some(k) => k,
            None => {
                return Err(ToolError::msg("ALPHA_ADVANTAGE_KEY environment variable not set"));
            },
        };
        let mut url = self.base_url.clone();
        url.append("?function=");
        url.append(f);
        url.append("&apikey=");
        url.append(key.as_str());
        if exchange {
            url.append("&from_currency=");
            url.append(from.as_str());
            url.append("&to_currency=");
            url.append(to.as_str());
        } else {
            url.append("&symbol=");
            url.append(from.as_str());
            url.append("&market=");
            url.append(to.as_str());
        }
        Ok(CryptoQuery { function, from_currency: from, to_currency: to, limit, url })
    }

    /// Renders the reply to a query.
    pub fn format_response(d: &JsonValue, function: &str, from: &str, to: &str, limit: Option<u64>) -> (r: String)
        ensures
            r@ == crypto_text(*d, function@, from@, to@, limit),
    {
        if crate::text::str_eq(function, "CURRENCY_EXCHANGE_RATE") {
            match d.get("Realtime Currency Exchange Rate") {
                Some(rv) => match rv {
                    JsonValue::Object(_) => {
                        let mut o = copy_str("💱 **Exchange Rate: ");
                        o.append(member_text(rv, "1. From_Currency Code", from).as_str());
                        o.append(" (");
                        o.append(member_text(rv, "2. From_Currency Name", "").as_str());
                        o.append(") to ");
                        o.append(member_text(rv, "3. To_Currency Code", to).as_str());
                        o.append(" (");
                        o.append(member_text(rv, "4. To_Currency Name", "").as_str());
                        o.append(")**\n\n");
                        o.append("💰 **Rate: ");
                        o.append(member_text(rv, "5. Exchange Rate", "N/A").as_str());
                        o.append("**\n");
                        o.append("🕒 Last Refreshed: ");
                        o.append(member_text(rv, "6. Last Refreshed", "N/A").as_str());
                        o.append("\n");
                        o.append("• Bid: ");
                        o.append(member_text(rv, "8. Bid Price", "N/A").as_str());
                        o.append("\n");
                        o.append("• Ask: ");
                        o.append(member_text(rv, "9. Ask Price", "N/A").as_str());
                        o.append("\n");
                        o
                    },
                    _ => copy_str("No exchange rate data found in response.\n"),
                },
                None => copy_str("No exchange rate data found in response.\n"),
            }
        } else {
            let mut o = String::new();
            match d.get("Meta Data") {
                Some(meta) => {
                    o.append("📊 **Crypto Data for ");
                    o.append(member_text(meta, "2. Digital Currency Code", from).as_str());
                    o.append(" (");
                    o.append(member_text(meta, "3. Digital Currency Name", "").as_str());
                    o.append(") in ");
                    o.append(member_text(meta, "4. Market Code", to).as_str());
                    o.append("**\n");
                    o.append("🕐 Last Refreshed: ");
                    o.append(member_text(meta, "6. Last Refreshed", "Unknown").as_str());
                    o.append("\n\n");
                },
                None => {},
            }
            let key = if crate::text::str_eq(function, "DIGITAL_CURRENCY_WEEKLY") {
                "Time Series (Digital Currency Weekly)"
            } else if crate::text::str_eq(function, "DIGITAL_CURRENCY_MONTHLY") {
                "Time Series (Digital Currency Monthly)"
            } else {
                "Time Series (Digital Currency Daily)"
            };
            match d.get(key) {
                Some(JsonValue::Object(es)) => {
                    o.append(format_series(SeriesKind::Crypto, to, es, limit).as_str());
                },
                _ => o.append("No time series data found.\n"),
            }
            o
        }
    }

    /// The answer to a call from the reply to its query; a failed query fails
    /// the call.
    pub fn finish(q: &CryptoQuery, reply: AlphaReply) -> (r: Result<String, ToolError>)
        ensures
            match alpha_outcome(reply, "Failed to request data from Alpha Vantage API"@, false) {
                Err(m) => r matches Err(e) && e.message@ == m,
                Ok(d) => r matches Ok(s) && s@ == crypto_text(
                    d,
                    q.function@,
                    q.from_currency@,
                    q.to_currency@,
                    q.limit,
                ),
            },
    {
        match alpha_result(reply, "Failed to request data from Alpha Vantage API", false) {
            Err(m) => Err(ToolError::new(m)),
            Ok(d) => Ok(
                Self::format_response(
                    &d,
                    q.function.as_str(),
                    q.from_currency.as_str(),
                    q.to_currency.as_str(),
                    q.limit,
                ),
            ),
        }
    }
}

/// A stock query: the function, how many entries to show, and the URL.
pub struct StockQuery {
    pub function: String,
    pub limit: Option<u64>,
    pub url: String,
}

/// The functions the stock tool accepts.
pub open spec fn stock_function(f: Seq<char>) -> bool {
    f == "TIME_SERIES_DAILY"@ || f == "TIME_SERIES_WEEKLY"@ || f == "TIME_SERIES_MONTHLY"@
}

/// The series key of a stock function.
pub open spec fn stock_series_key(f: Seq<char>) -> Seq<char> {
    if f == "TIME_SERIES_WEEKLY"@ {
        "Weekly Time Series"@
    } else if f == "TIME_SERIES_MONTHLY"@ {
        "Monthly Time Series"@
    } else {
        "Time Series (Daily)"@
    }
}

/// The answer of the stock tool for a reply `d`.
pub open spec fn stock_text(d: JsonValue, f: Seq<char>, limit: Option<u64>) -> Seq<char> {
    (match get(d, "Meta Data"@) {
        Some(meta) => "📊 **Stock Data for "@ + member_text_or(meta, "2. Symbol"@, "Unknown"@)
            + "**\n"@ + "🕐 Last Refreshed: "@ + member_text_or(
            meta,
            "3. Last Refreshed"@,
            "Unknown"@,
        ) + "\n\n"@,
        None => Seq::empty(),
    }) + match members_of(get(d, stock_series_key(f))) {
        Some(es) => series_text(SeriesKind::Stock, ""@, es, limit),
        None => "No time series data found in response.\n"@,
    }
}

/// Stock price histories from Alpha Vantage.
pub struct StockTool {
    pub metadata: ToolMetadata,
    pub api_key: Option<String>,
    pub base_url: String,
}

impl StockTool {
    /// A stock tool with the configured `ALPHA_ADVANTAGE_KEY` value.
    pub fn new(api_key: Option<String>) -> (t: Self)
        ensures
            t.api_key == api_key,
            t.base_url@ == ALPHA_VANTAGE_URL@,
            metadata_is(
                t.metadata,
                "6"@,
                "Stock Market Data"@,
                ToolType::Stock,
                "Fetch stock market data (daily/weekly/monthly time series) via Alpha Vantage API"@,
                ToolCategory::Financial,
            ),
    {
        StockTool {
            metadata: ToolMetadata::from_parts(
                "6",
                "Stock Market Data",
                ToolType::Stock,
                "Fetch stock market data (daily/weekly/monthly time series) via Alpha Vantage API",
                ToolCategory::Financial,
            ),
            api_key,
            base_url: copy_str(ALPHA_VANTAGE_URL),
        }
    }

    /// A tool with this key talking to `base_url`.
    pub fn with_base_url(base_url: &str, api_key: Option<&str>) -> (t: Self)
        ensures
            t.base_url@ == base_url@,
            match api_key {
                Some(k) => t.api_key matches Some(s) && s@ == k@,
                None => t.api_key is None,
            },
            t.metadata.id@ == "6"@,
    {
        let key = match api_key {
            Some(k) => Some(copy_str(k)),
            None => None,
        };
        let mut t = Self::new(key);
        t.base_url = copy_str(base_url);
        t
    }

    /// The tool is available only with an API key.
    pub fn is_available(&self) -> (b: bool)
        ensures
            b == (self.api_key is Some),
    {
        self.api_key.is_some()
    }

    /// The query a call makes (its arguments `None` when they were not
    /// JSON); the symbol is upper-cased.
    pub fn plan(&self, args: Option<&JsonValue>) -> (r: Result<StockQuery, ToolError>)
        ensures
            match args {
                None => r matches Err(e) && e.message@ == "Failed to parse stock tool arguments"@,
                Some(a) => match text_at(*a, seq!["symbol"]) {
                    None => r matches Err(e) && e.message@ == "Missing required 'symbol' parameter"@,
                    Some(sym) => {
                        let f = match text_at(*a, seq!["function"]) {
                            Some(f) => f,
                            None => "TIME_SERIES_DAILY"@,
                        };
                        if !stock_function(f) {
                            r matches Err(e) && e.message@ == "Invalid function '"@ + f
                                + "'. Must be one of: TIME_SERIES_DAILY, TIME_SERIES_WEEKLY, TIME_SERIES_MONTHLY"@
                        } else {
                            match self.api_key {
                                None => r matches Err(e) && e.message@
                                    == "ALPHA_ADVANTAGE_KEY environment variable not set"@,
                                Some(k) => r matches Ok(q) && q.function@ == f && q.limit
                                    == as_nat(lookup(*a, seq!["limit"])) && q.url@
                                    == self.base_url@ + "?function="@ + f + "&symbol="@
                                    + uppercase(sym) + "&apikey="@ + k@ + match text_at(
                                    *a,
                                    seq!["outputsize"],
                                ) {
                                    Some(size) => "&outputsize="@ + size,
                                    None => Seq::empty(),
                                },
                            }
                        }
                    },
                },
            },
    {
        let a = match args {
            Some(a) => a,
            None => {
                return Err(ToolError::msg("Failed to parse stock tool arguments"));
            },
        };
        let symbol = match a.text1("symbol") {
            Some(s) => to_upper(s),
            None => {
                return Err(ToolError::msg("Missing required 'symbol' parameter"));
            },
        };
        let function = match a.text1("function") {
            Some(f) => copy_str(f),
            None => copy_str("TIME_SERIES_DAILY"),
        };
        let outputsize = a.text1("outputsize");
        let limit = a.u64_1("limit");
        let f = function.as_str();
        if !(crate::text::str_eq(f, "TIME_SERIES_DAILY") || crate::text::str_eq(
            f,
            "TIME_SERIES_WEEKLY",
        ) || crate::text::str_eq(f, "TIME_SERIES_MONTHLY")) {
            let mut m = copy_str("Invalid function '");
            m.append(f);
            m.append(
                "'. Must be one of: TIME_SERIES_DAILY, TIME_SERIES_WEEKLY, TIME_SERIES_MONTHLY",
            );
            return Err(ToolError::new(m));
        }
        let key = match &self.api_key {
            Some(k) => k,
            None => {
                return Err(ToolError::msg("ALPHA_ADVANTAGE_KEY environment variable not set"));
            },
        };
        let mut url = self.base_url.clone();
        url.append("?function=");
        url.append(f);
        url.append("&symbol=");
        url.append(symbol.as_str());
        url.append("&apikey=");
        url.append(key.as_str());
        match outputsize {
            Some(size) => {
                url.append("&outputsize=");
                url.append(size);
            },
            None => {},
        }
        Ok(StockQuery { function, limit, url })
    }

    /// Renders the reply to a query.
    pub fn format_stock_response(d: &JsonValue, function: &str, limit: Option<u64>) -> (r: String)
        ensures
            r@ == stock_text(*d, function@, limit),
    {
        let mut o = String::new();
        match d.get("Meta Data") {
            Some(meta) => {
                o.append("📊 **Stock Data for ");
                o.append(member_text(meta, "2. Symbol", "Unknown").as_str());
                o.append("**\n");
                o.append("🕐 Last Refreshed: ");
                o.append(member_text(meta, "3. Last Refreshed", "Unknown").as_str());
                o.append("\n\n");
            },
            None => {},
        }
        let key = if crate::text::str_eq(function, "TIME_SERIES_WEEKLY") {
            "Weekly Time Series"
        } else if crate::text::str_eq(function, "TIME_SERIES_MONTHLY") {
            "Monthly Time Series"
        } else {
            "Time Series (Daily)"
        };
        match d.get(key) {
            Some(JsonValue::Object(es)) => {
                o.append(format_series(SeriesKind::Stock, "", es, limit).as_str());
            },
            _ => o.append("No time series data found in response.\n"),
        }
        o
    }

    /// The answer to a call from the reply to its query; a failed query fails
    /// the call.
    pub fn finish(q: &StockQuery, reply: AlphaReply) -> (r: Result<String, ToolError>)
        ensures
            match alpha_outcome(reply, "Failed to request stock data from Alpha Vantage API"@, true) {
                Err(m) => r matches Err(e) && e.message@ == m,
                Ok(d) => r matches Ok(s) && s@ == stock_text(d, q.function@, q.limit),
            },
    {
        match alpha_result(reply, "Failed to request stock data from Alpha Vantage API", true) {
            Err(m) => Err(ToolError::new(m)),
            Ok(d) => Ok(Self::format_stock_response(&d, q.function.as_str(), q.limit)),
        }
    }
}

/// Entries ordered by descending key: no key orders before a later one.
pub open spec fn sorted_desc(s: Seq<(String, JsonValue)>) -> bool {
    forall|i: int, j: int| 0 <= i < j < s.len() ==> !seq_lt(#[trigger] s[i].0@, #[trigger] s[j].0@)
}

/// Inserting into ordered entries puts the new one at some position.
proof fn lemma_insert_desc_position(s: Seq<(String, JsonValue)>, x: (String, JsonValue)) -> (p: int)
    ensures
        0 <= p <= s.len(),
        insert_desc(s, x) == s.insert(p, x),
    decreases s.len(),
{
    if s.len() == 0 {
        assert(s.insert(0, x) =~= seq![x]);
        0
    } else if seq_lt(s[0].0@, x.0@) {
        assert(s.insert(0, x) =~= seq![x] + s);
        0
    } else {
        let t = s.drop_first();
        let q = lemma_insert_desc_position(t, x);
        assert(seq![s[0]] + t.insert(q, x) =~= s.insert(q + 1, x));
        q + 1
    }
}

/// A key that orders before none of the entries, nor before the new one,
/// orders before none of the entries after the insertion.
proof fn lemma_insert_desc_bound(s: Seq<(String, JsonValue)>, x: (String, JsonValue), k: Seq<char>)
    requires
        !seq_lt(k, x.0@),
        forall|j: int| 0 <= j < s.len() ==> !seq_lt(k, #[trigger] s[j].0@),
    ensures
        forall|j: int| 0 <= j < insert_desc(s, x).len() ==> !seq_lt(k, #[trigger] insert_desc(s, x)[j].0@),
{
    let p = lemma_insert_desc_position(s, x);
    let r = s.insert(p, x);
    assert forall|j: int| 0 <= j < r.len() implies !seq_lt(k, #[trigger] r[j].0@) by {
        if j < p {
            assert(r[j] == s[j]);
        } else if j > p {
            assert(r[j] == s[j - 1]);
        }
    }
}

/// A key `b` that `a` does not order before, with `a` ordering before `x`:
/// then `x` does not order before `b`.
proof fn lemma_below_chain(a: Seq<char>, b: Seq<char>, x: Seq<char>)
    requires
        !seq_lt(a, b),
        seq_lt(a, x),
    ensures
        !seq_lt(x, b),
{
    if b == a {
        lemma_seq_lt_asym(a, x);
    } else {
        lemma_seq_lt_total(a, b);
        lemma_seq_lt_trans(b, a, x);
        lemma_seq_lt_asym(b, x);
    }
}

/// Inserting into entries ordered by descending key keeps them ordered.
proof fn lemma_insert_desc_sorted(s: Seq<(String, JsonValue)>, x: (String, JsonValue))
    requires
        sorted_desc(s),
    ensures
        sorted_desc(insert_desc(s, x)),
    decreases s.len(),
{
    if s.len() == 0 {
    } else if seq_lt(s[0].0@, x.0@) {
        let r = seq![x] + s;
        assert forall|i: int, j: int| 0 <= i < j < r.len() implies !seq_lt(#[trigger] r[i].0@, #[trigger] r[j].0@) by {
            assert(r[j] == s[j - 1]);
            if i == 0 {
                if j == 1 {
                    lemma_seq_lt_asym(s[0].0@, x.0@);
                } else {
                    assert(!seq_lt(s[0].0@, s[j - 1].0@));
                    lemma_below_chain(s[0].0@, s[j - 1].0@, x.0@);
                }
            } else {
                assert(r[i] == s[i - 1]);
            }
        }
    } else {
        let t = s.drop_first();
        assert forall|i: int, j: int| 0 <= i < j < t.len() implies !seq_lt(#[trigger] t[i].0@, #[trigger] t[j].0@) by {
            assert(t[i] == s[i + 1]);
            assert(t[j] == s[j + 1]);
        }
        lemma_insert_desc_sorted(t, x);
        assert forall|j: int| 0 <= j < t.len() implies !seq_lt(s[0].0@, #[trigger] t[j].0@) by {
            assert(t[j] == s[j + 1]);
        }
        lemma_insert_desc_bound(t, x, s[0].0@);
        let it = insert_desc(t, x);
        let r = seq![s[0]] + it;
        assert forall|i: int, j: int| 0 <= i < j < r.len() implies !seq_lt(#[trigger] r[i].0@, #[trigger] r[j].0@) by {
            assert(r[j] == it[j - 1]);
            if i > 0 {
                assert(r[i] == it[i - 1]);
            }
        }
        assert(insert_desc(s, x) == r);
    }
}

/// A series is listed newest first: its entries ordered by descending key
/// (date), holding exactly the entries it was given.
pub proof fn law_series_newest_first(s: Seq<(String, JsonValue)>)
    ensures
        sorted_desc(sort_desc(s)),
        sort_desc(s).to_multiset() == s.to_multiset(),
    decreases s.len(),
{
    broadcast use vstd::seq_lib::group_to_multiset_ensures;

    if s.len() > 0 {
        let d = s.drop_last();
        law_series_newest_first(d);
        lemma_insert_desc_sorted(sort_desc(d), s.last());
        let p = lemma_insert_desc_position(sort_desc(d), s.last());
        vstd::seq_lib::to_multiset_insert(sort_desc(d), p, s.last());
        assert(d.push(s.last()) =~= s);
    } else {
        assert(sort_desc(s) =~= s);
    }
}

/// Law: a series shows its newest entries up to the limit. With no limit it
/// shows ten, or all when there are fewer, exactly as with a limit of ten;
/// with a limit `l` it shows `l`, all for zero or when there are fewer; and
/// it counts the entries left out.
pub proof fn law_series_shows_up_to_the_limit(
    kind: SeriesKind,
    market: Seq<char>,
    es: Seq<(String, JsonValue)>,
    limit: Option<u64>,
)
    ensures
        series_text(kind, market, es, None) == series_text(kind, market, es, Some(10)),
        ({
            let n = es.len();
            let c: nat = match limit {
                None => if n < 10 {
                    n
                } else {
                    10
                },
                Some(l) => if l == 0 || n < l {
                    n
                } else {
                    l as nat
                },
            };
            series_text(kind, market, es, limit) == "📅 **Recent "@ + decimal(c) + " entries (Chronological):**\n\n"@
                + lines_down(kind, market, sort_desc(es), c as int, 0) + if n > c {
                "_...and "@ + decimal((n - c) as nat) + " more entries available_\n"@
            } else {
                Seq::empty()
            }
        }),
{
    broadcast use vstd::seq_lib::group_to_multiset_ensures;

    law_series_newest_first(es);
    assert(sort_desc(es).len() == es.len()) by {
        assert(sort_desc(es).to_multiset().len() == es.to_multiset().len());
    }
}

/// Law: the entries shown run oldest first: of the positions `lo` up to
/// `hi - 1` of a newest-first series, the one at `hi - 1` comes first and
/// the one at `lo` (the newest) last.
pub proof fn law_series_lines_run_oldest_first(
    kind: SeriesKind,
    market: Seq<char>,
    s: Seq<(String, JsonValue)>,
    hi: int,
    lo: int,
)
    requires
        lo < hi,
    ensures
        lines_down(kind, market, s, hi, lo) == series_line(kind, market, s[hi - 1]) + lines_down(
            kind,
            market,
            s,
            hi - 1,
            lo,
        ),
        lines_down(kind, market, s, hi, lo) == lines_down(kind, market, s, hi, lo + 1) + series_line(
            kind,
            market,
            s[lo],
        ),
    decreases hi - lo,
{
    if hi - 1 > lo {
        law_series_lines_run_oldest_first(kind, market, s, hi, lo + 1);
        assert(lines_down(kind, market, s, hi - 1, lo) == lines_down(kind, market, s, hi - 1, lo + 1) + series_line(
            kind,
            market,
            s[lo],
        ));
        assert(series_line(kind, market, s[hi - 1]) + lines_down(kind, market, s, hi - 1, lo + 1) + series_line(
            kind,
            market,
            s[lo],
        ) =~= series_line(kind, market, s[hi - 1]) + (lines_down(kind, market, s, hi - 1, lo + 1) + series_line(
            kind,
            market,
            s[lo],
        )));
    } else {
        assert(lines_down(kind, market, s, hi - 1, lo) == Seq::<char>::empty());
        assert(lines_down(kind, market, s, hi, lo + 1) == Seq::<char>::empty());
        assert(series_line(kind, market, s[lo]) + Seq::<char>::empty() =~= series_line(kind, market, s[lo]));
        assert(Seq::<char>::empty() + series_line(kind, market, s[lo]) =~= series_line(kind, market, s[lo]));
    }
}

} // verus!
