//! The Google tools: OAuth token handling, Places search, Contacts, YouTube
//! and reading Gmail. Each tool reads its arguments, says which request to
//! send, and renders the reply; sending, and keeping the access token, are
//! the caller's.
use vstd::prelude::*;
use crate::framework::{metadata_is, ToolCategory, ToolError, ToolMetadata, ToolType};
use crate::json::{as_list, as_nat, get, keys_of, lemma_lookup1, lemma_member_at, lookup, text_at, text_or, JsonNumber, JsonValue};
use crate::text::{copy_str, decimal, join, push_decimal, signed_decimal};

verus! {

/// A reply to a request: whether its status was a success, the status's
/// rendering (such as `404 Not Found`), its text, and the text parsed as JSON
/// (`None` when it is not JSON).
pub struct HttpReply {
    pub success: bool,
    pub status: String,
    pub text: String,
    pub json: Option<JsonValue>,
}

/// The reply's JSON, or `null` when it had none.
pub open spec fn json_or_null(r: HttpReply) -> JsonValue {
    match r.json {
        Some(v) => v,
        None => JsonValue::Null,
    }
}

/// Whether percent-encoding leaves a byte as it is: ASCII letters, digits
/// and `-`, `.`, `_`, `~`.
pub open spec fn url_safe_byte(b: u8) -> bool {
    (48 <= b <= 57) || (65 <= b <= 90) || (97 <= b <= 122) || b == 45 || b == 46 || b == 95 || b == 126
}

/// The upper-case hexadecimal digit for `d` (below sixteen).
pub open spec fn hex_digit(d: int) -> char {
    if d < 10 {
        (48 + d) as char
    } else {
        (55 + d) as char
    }
}

/// Percent-encoding of bytes: a byte left as it is stands for itself, any
/// other is written `%` and its two upper-case hexadecimal digits.
pub open spec fn percent_encoded(bytes: Seq<u8>) -> Seq<char>
    decreases bytes.len(),
{
    if bytes.len() == 0 {
        Seq::empty()
    } else {
        let b = bytes[0];
        let head = if url_safe_byte(b) {
            seq![b as char]
        } else {
            seq!['%', hex_digit(b as int / 16), hex_digit(b as int % 16)]
        };
        head + percent_encoded(bytes.drop_first())
    }
}

/// Percent-encoding of a string: of its UTF-8 bytes.
pub open spec fn url_encoded(s: Seq<char>) -> Seq<char> {
    percent_encoded(vstd::utf8::encode_utf8(s))
}

/// Runs `urlencoding::encode`, which percent-encodes every UTF-8 byte of `s`
/// but ASCII letters, digits and `-_.~`, with upper-case hexadecimal digits
/// (`encode_into`, `to_hex_digit`); the contract states exactly that.
#[verifier::external_body]
fn url_encode(s: &str) -> (r: String)
    ensures
        r@ == url_encoded(s@),
{
    urlencoding::encode(s).into_owned()
}

/// The arguments of a call; arguments that were not JSON count as having no
/// members (`null` has none, as `{}` has none).
pub open spec fn args_or_empty(args: Option<JsonValue>) -> JsonValue {
    match args {
        Some(a) => a,
        None => JsonValue::Null,
    }
}

/// A natural number at `path`, or `default`.
pub open spec fn nat_or(v: JsonValue, path: Seq<&str>, default: nat) -> nat {
    match as_nat(lookup(v, path)) {
        Some(n) => n as nat,
        None => default,
    }
}

/// `Found {n} {noun}:` and the entries, or `none` when there are none.
pub open spec fn found_text(entries: Seq<Seq<char>>, noun: Seq<char>, none: Seq<char>) -> Seq<char> {
    if entries.len() == 0 {
        none
    } else {
        "Found "@ + decimal(entries.len()) + " "@ + noun + ":\n\n"@ + join(entries, "\n"@)
    }
}

pub(crate) fn found_result(entries: &Vec<String>, noun: &str, none: &str) -> (r: String)
    ensures
        r@ == found_text(entries@.map_values(|s: String| s@), noun@, none@),
{
    let ghost views = entries@.map_values(|s: String| s@);
    if entries.len() == 0 {
        return copy_str(none);
    }
    let mut out = copy_str("Found ");
    push_decimal(&mut out, entries.len() as u64);
    out.append(" ");
    out.append(noun);
    out.append(":\n\n");
    let ghost head = out@;
    let mut i: usize = 0;
    assert(views.take(0) =~= Seq::<Seq<char>>::empty());
    while i < entries.len()
        invariant
            i <= entries@.len(),
            views == entries@.map_values(|s: String| s@),
            out@ == head + join(views.take(i as int), "\n"@),
        decreases entries@.len() - i,
    {
        assert(views.take(i + 1).drop_last() =~= views.take(i as int));
        if i > 0 {
            out.append("\n");
        }
        out.append(entries[i].as_str());
        assert(out@ =~= head + join(views.take(i + 1), "\n"@));
        i = i + 1;
    }
    assert(views.take(views.len() as int) =~= views);
    out
}

// ---------------------------------------------------------------------------
// OAuth.
// ---------------------------------------------------------------------------

/// An access token kept for reuse, and the time it stops being used, in
/// milliseconds on the caller's clock.
pub struct CachedToken {
    pub token: String,
    pub expires_at_ms: u64,
}

/// `keep_secs` seconds after `now_ms`, in milliseconds, or the clock's last
/// millisecond when that lies beyond it.
pub open spec fn expiry_ms(now_ms: u64, keep_secs: u64) -> u64 {
    if now_ms + keep_secs * 1000 <= u64::MAX {
        (now_ms + keep_secs * 1000) as u64
    } else {
        u64::MAX
    }
}

/// An optional string as plain text.
pub open spec fn opt_string_view(o: Option<String>) -> Option<Seq<char>> {
    match o {
        Some(s) => Some(s@),
        None => None,
    }
}

/// The token a cache answers with at `now_ms`: the kept one, before it
/// expires; none otherwise, and a new one must be asked for.
pub open spec fn fresh_token(cache: Option<CachedToken>, now_ms: u64) -> Option<Seq<char>> {
    match cache {
        Some(c) => if now_ms < c.expires_at_ms {
            Some(c.token@)
        } else {
            None
        },
        None => None,
    }
}

/// Law: a token fetched at `fetched_ms` and kept for `keep_secs` seconds
/// answers every later call made before those seconds have passed, so no
/// new token is asked for.
pub proof fn law_kept_token_answers_later_calls(
    c: CachedToken,
    token: Seq<char>,
    fetched_ms: u64,
    keep_secs: u64,
    later_ms: u64,
)
    requires
        c.token@ == token,
        c.expires_at_ms == expiry_ms(fetched_ms, keep_secs),
        fetched_ms <= later_ms < fetched_ms + keep_secs * 1000,
        later_ms < u64::MAX,
    ensures
        fresh_token(Some(c), later_ms) == Some(token),
{
}

/// The token the cache answers with at `now_ms`, if any.
pub fn kept_token(cache: &Option<CachedToken>, now_ms: u64) -> (r: Option<String>)
    ensures
        opt_string_view(r) == fresh_token(*cache, now_ms),
{
    match cache {
        Some(c) => c.fresh_at(now_ms),
        None => None,
    }
}

impl CachedToken {
    /// The token, kept for `keep_secs` seconds from `now_ms`.
    pub fn new(token: String, now_ms: u64, keep_secs: u64) -> (r: Self)
        ensures
            r.token == token,
            r.expires_at_ms == expiry_ms(now_ms, keep_secs),
    {
        let room: u64 = (u64::MAX - now_ms) / 1000;
        let expires_at_ms = if keep_secs <= room {
            assert(keep_secs * 1000 <= u64::MAX - now_ms) by (nonlinear_arith)
                requires
                    keep_secs <= room,
                    room == (u64::MAX - now_ms) / 1000,
            ;
            now_ms + keep_secs * 1000
        } else {
            assert(keep_secs * 1000 > u64::MAX - now_ms) by (nonlinear_arith)
                requires
                    keep_secs > room,
                    room == (u64::MAX - now_ms) / 1000,
            ;
            u64::MAX
        };
        CachedToken { token, expires_at_ms }
    }

    /// The token while it is still in use at `now_ms`: before the time it
    /// expires.
    pub fn fresh_at(&self, now_ms: u64) -> (r: Option<String>)
        ensures
            opt_string_view(r) == fresh_token(Some(*self), now_ms),
    {
        if now_ms < self.expires_at_ms {
            Some(self.token.clone())
        } else {
            None
        }
    }
}


/// The credentials of the Google OAuth client: its id and secret and the
/// refresh token.
pub struct GoogleOAuthConfig {
    pub client_id: String,
    pub client_secret: String,
    pub refresh_token: String,
}

impl GoogleOAuthConfig {
    /// Whether the three settings are all present.
    pub fn is_configured(client_id: bool, client_secret: bool, refresh_token: bool) -> (b: bool)
        ensures
            b == (client_id && client_secret && refresh_token),
    {
        client_id && client_secret && refresh_token
    }

    /// The credentials from the values of `GOOGLE_CLIENT_ID`,
    /// `GOOGLE_CLIENT_SECRET` and `GOOGLE_REFRESH_TOKEN`; the first missing
    /// one is reported.
    pub fn from_values(
        client_id: Option<String>,
        client_secret: Option<String>,
        refresh_token: Option<String>,
    ) -> (r: Result<Self, ToolError>)
        ensures
            match (client_id, client_secret, refresh_token) {
                (None, _, _) => r matches Err(e) && e.message@ == "Missing GOOGLE_CLIENT_ID"@,
                (Some(_), None, _) => r matches Err(e) && e.message@
                    == "Missing GOOGLE_CLIENT_SECRET"@,
                (Some(_), Some(_), None) => r matches Err(e) && e.message@
                    == "Missing GOOGLE_REFRESH_TOKEN"@,
                (Some(a), Some(b), Some(c)) => r matches Ok(cfg) && cfg.client_id == a
                    && cfg.client_secret == b && cfg.refresh_token == c,
            },
    {
        let client_id = match client_id {
            Some(v) => v,
            None => {
                return Err(ToolError::msg("Missing GOOGLE_CLIENT_ID"));
            },
        };
        let client_secret = match client_secret {
            Some(v) => v,
            None => {
                return Err(ToolError::msg("Missing GOOGLE_CLIENT_SECRET"));
            },
        };
        let refresh_token = match refresh_token {
            Some(v) => v,
            None => {
                return Err(ToolError::msg("Missing GOOGLE_REFRESH_TOKEN"));
            },
        };
        Ok(GoogleOAuthConfig { client_id, client_secret, refresh_token })
    }

    /// The form of a token refresh request.
    pub fn token_form(&self) -> (r: Vec<(String, String)>)
        ensures
            r@.map_values(|p: (String, String)| (p.0@, p.1@)) == seq![
                ("client_id"@, self.client_id@),
                ("client_secret"@, self.client_secret@),
                ("refresh_token"@, self.refresh_token@),
                ("grant_type"@, "refresh_token"@),
            ],
    {
        let mut f: Vec<(String, String)> = Vec::new();
        f.push((copy_str("client_id"), self.client_id.clone()));
        f.push((copy_str("client_secret"), self.client_secret.clone()));
        f.push((copy_str("refresh_token"), self.refresh_token.clone()));
        f.push((copy_str("grant_type"), copy_str("refresh_token")));
        assert(f@.map_values(|p: (String, String)| (p.0@, p.1@)) =~= seq![
            ("client_id"@, self.client_id@),
            ("client_secret"@, self.client_secret@),
            ("refresh_token"@, self.refresh_token@),
            ("grant_type"@, "refresh_token"@),
        ]);
        f
    }

    /// The access token a refresh returned and how many seconds to keep it:
    /// a minute less than it is valid for, and no less than zero.
    pub fn token_result(reply: Option<&HttpReply>) -> (r: Result<(String, u64), ToolError>)
        ensures
            match reply {
                None => r matches Err(e) && e.message@ == "Failed to send token refresh request"@,
                Some(h) => if !h.success {
                    r matches Err(e) && e.message@ == "Token refresh failed with "@ + h.status@
                        + ": "@ + h.text@
                } else {
                    match h.json {
                        None => r matches Err(e) && e.message@ == "Failed to parse token response"@,
                        Some(d) => match (
                            text_at(d, seq!["access_token"]),
                            as_nat(lookup(d, seq!["expires_in"])),
                        ) {
                            (Some(t), Some(n)) => r matches Ok(x) && x.0@ == t && x.1 == (if n
                                < 60 {
                                0
                            } else {
                                n - 60
                            }),
                            _ => r matches Err(e) && e.message@
                                == "Failed to parse token response"@,
                        },
                    }
                },
            },
    {
        let h = match reply {
            None => {
                return Err(ToolError::msg("Failed to send token refresh request"));
            },
            Some(h) => h,
        };
        if !h.success {
            let mut m = copy_str("Token refresh failed with ");
            m.append(h.status.as_str());
            m.append(": ");
            m.append(h.text.as_str());
            return Err(ToolError::new(m));
        }
        match &h.json {
            None => Err(ToolError::msg("Failed to parse token response")),
            Some(d) => match (d.text1("access_token"), d.u64_1("expires_in")) {
                (Some(t), Some(n)) => Ok((copy_str(t), n.saturating_sub(60))),
                _ => Err(ToolError::msg("Failed to parse token response")),
            },
        }
    }
}

// ---------------------------------------------------------------------------
// Places.
// ---------------------------------------------------------------------------

/// A number rendered as `f64`'s `Display` does (integers as themselves, other
/// numbers by the text they were read with), or `0`.
pub open spec fn number_text(v: Option<JsonValue>) -> Seq<char> {
    match v {
        Some(JsonValue::Number(JsonNumber::PosInt(u))) => decimal(u as nat),
        Some(JsonValue::Number(JsonNumber::NegInt(i))) => signed_decimal(i as int),
        Some(JsonValue::Number(JsonNumber::Float(t))) => t@,
        _ => "0"@,
    }
}

/// The string items of a list, joined with `, `.
pub open spec fn strings_joined(items: Option<Seq<JsonValue>>) -> Seq<char> {
    match items {
        Some(l) => join(strings_of(l), ", "@),
        None => Seq::empty(),
    }
}

/// The string items of a list, in order.
pub open spec fn strings_of(l: Seq<JsonValue>) -> Seq<Seq<char>>
    decreases l.len(),
{
    if l.len() == 0 {
        Seq::empty()
    } else {
        match l.last() {
            JsonValue::Str(s) => strings_of(l.drop_last()).push(s@),
            _ => strings_of(l.drop_last()),
        }
    }
}

/// The entry of one place.
pub open spec fn place_entry(p: JsonValue) -> Seq<char> {
    "Name: "@ + text_or(p, seq!["displayName", "text"], "Unknown Place"@) + "\nAddress: "@ + text_or(
        p,
        seq!["formattedAddress"],
        "No address"@,
    ) + "\nRating: "@ + number_text(get(p, "rating"@)) + " ("@ + decimal(
        nat_or(p, seq!["userRatingCount"], 0),
    ) + " reviews)\nPrice: "@ + text_or(p, seq!["priceLevel"], "Unknown"@) + "\nTypes: "@
        + strings_joined(as_list(get(p, "types"@))) + "\nPhone: "@ + text_or(
        p,
        seq!["nationalPhoneNumber"],
        "No phone"@,
    ) + "\nWebsite: "@ + text_or(p, seq!["websiteUri"], "No website"@) + "\n---"@
}

/// The places of a reply.
pub open spec fn places_of(d: JsonValue) -> Seq<JsonValue> {
    match as_list(get(d, "places"@)) {
        Some(l) => l,
        None => Seq::empty(),
    }
}

/// What a Places call does: answer at once, or search.
pub enum PlacesPlan {
    Answer(String),
    Search { text_query: String, page_size: u64 },
}

/// The Places text search endpoint.
pub const PLACES_SEARCH_URL: &'static str = "https://places.googleapis.com/v1/places:searchText";

/// The fields a Places search asks for.
pub const PLACES_FIELD_MASK: &'static str = "places.id,places.displayName,places.formattedAddress,places.rating,places.userRatingCount,places.priceLevel,places.types,places.nationalPhoneNumber,places.websiteUri";

/// A JSON request to send by `POST`: its URL, headers and body.
pub struct PostRequest {
    pub url: String,
    pub headers: Vec<(String, String)>,
    pub body: JsonValue,
}

/// Searches Google Places.
pub struct GooglePlacesSearchTool {
    pub metadata: ToolMetadata,
    pub api_key: String,
}

fn number_display(v: Option<&JsonValue>) -> (r: String)
    ensures
        r@ == number_text(
            match v {
                Some(x) => Some(*x),
                None => None,
            },
        ),
{
    match v {
        Some(JsonValue::Number(JsonNumber::PosInt(u))) => crate::text::u64_to_string(*u),
        Some(JsonValue::Number(JsonNumber::NegInt(i))) => {
            let mut s = String::new();
            crate::text::push_signed_decimal(&mut s, *i);
            s
        },
        Some(JsonValue::Number(JsonNumber::Float(t))) => t.clone(),
        _ => copy_str("0"),
    }
}

fn strings_text(items: Option<&Vec<JsonValue>>) -> (r: String)
    ensures
        r@ == strings_joined(
            match items {
                Some(v) => Some(v@),
                None => None,
            },
        ),
{
    match items {
        None => String::new(),
        Some(v) => {
            let mut out = String::new();
            let mut i: usize = 0;
            let mut n: usize = 0;
            assert(v@.take(0) =~= Seq::<JsonValue>::empty());
            while i < v.len()
                invariant
                    i <= v@.len(),
                    n == strings_of(v@.take(i as int)).len(),
                    n <= i,
                    out@ == join(strings_of(v@.take(i as int)), ", "@),
                decreases v@.len() - i,
            {
                assert(v@.take(i + 1).drop_last() =~= v@.take(i as int));
                assert(v@.take(i + 1).last() == v@[i as int]);
                let ghost prev = strings_of(v@.take(i as int));
                match &v[i] {
                    JsonValue::Str(s) => {
                        assert(strings_of(v@.take(i + 1)) == prev.push(s@));
                        assert(prev.push(s@).drop_last() =~= prev);
                        if n > 0 {
                            out.append(", ");
                        }
                        out.append(s.as_str());
                        n = n + 1;
                        assert(out@ =~= join(strings_of(v@.take(i + 1)), ", "@));
                    },
                    _ => {},
                }
                i = i + 1;
            }
            assert(v@.take(v@.len() as int) =~= v@);
            out
        },
    }
}

impl GooglePlacesSearchTool {
    /// A Places tool with the configured `GOOGLE_PLACES_API_KEY` value (empty
    /// when unset).
    pub fn new(api_key: String) -> (t: Self)
        ensures
            t.api_key == api_key,
            metadata_is(
                t.metadata,
                "google_places_search"@,
                "Google Places Search"@,
                ToolType::GooglePlacesSearch,
                "Search for places, restaurants, or businesses using Google Places API."@,
                ToolCategory::Google,
            ),
    {
        GooglePlacesSearchTool {
            metadata: ToolMetadata::from_parts(
                "google_places_search",
                "Google Places Search",
                ToolType::GooglePlacesSearch,
                "Search for places, restaurants, or businesses using Google Places API.",
                ToolCategory::Google,
            ),
            api_key,
        }
    }

    /// The tool is available only with an API key.
    pub fn is_available(&self) -> (b: bool)
        ensures
            b == (self.api_key@.len() > 0),
    {
        !crate::text::is_empty_str(self.api_key.as_str())
    }

    /// What a call does: without a query it is answered at once; otherwise
    /// it searches for at most `max_results` places (five by default, twenty
    /// at most).
    pub fn plan(args: Option<&JsonValue>) -> (r: PlacesPlan)
        ensures
            ({
                let a = args_or_empty(
                    match args {
                        Some(x) => Some(*x),
                        None => None,
                    },
                );
                let q = text_or(a, seq!["text_query"], ""@);
                let n = nat_or(a, seq!["max_results"], 5);
                if q.len() == 0 {
                    r matches PlacesPlan::Answer(s) && s@ == "Error: text_query is required."@
                } else {
                    r matches PlacesPlan::Search { text_query, page_size } && text_query@ == q
                        && page_size == (if n > 20 {
                        20
                    } else {
                        n
                    })
                }
            }),
    {
        let (q, n) = match args {
            Some(a) => (a.text1_or("text_query", ""), a.u64_1("max_results")),
            None => {
                proof {
                    assert(lookup(JsonValue::Null, seq!["text_query"]) is None);
                    assert(lookup(JsonValue::Null, seq!["max_results"]) is None);
                    reveal_strlit("");
                }
                (String::new(), None)
            },
        };
        let n = match n {
            Some(n) => n,
            None => 5,
        };
        if crate::text::is_empty_str(q.as_str()) {
            PlacesPlan::Answer(copy_str("Error: text_query is required."))
        } else {
            PlacesPlan::Search {
                text_query: q,
                page_size: if n > 20 {
                    20
                } else {
                    n
                },
            }
        }
    }

    /// The search for `text_query`, at most `page_size` places: the API key
    /// and the field mask as headers, the query and page size as the body.
    pub fn search_request(&self, text_query: &str, page_size: u64) -> (r: PostRequest)
        ensures
            r.url@ == PLACES_SEARCH_URL@,
            query_view(r.headers@) == seq![
                ("X-Goog-Api-Key"@, self.api_key@),
                ("X-Goog-FieldMask"@, PLACES_FIELD_MASK@),
            ],
            keys_of(r.body) == seq!["textQuery"@, "pageSize"@],
            text_at(r.body, seq!["textQuery"]) == Some(text_query@),
            lookup(r.body, seq!["pageSize"]) == Some(JsonValue::Number(JsonNumber::PosInt(page_size))),
    {
        let mut headers: Vec<(String, String)> = Vec::new();
        headers.push((copy_str("X-Goog-Api-Key"), self.api_key.clone()));
        headers.push((copy_str("X-Goog-FieldMask"), copy_str(PLACES_FIELD_MASK)));
        let mut m: Vec<(String, JsonValue)> = Vec::new();
        m.push((copy_str("textQuery"), JsonValue::Str(copy_str(text_query))));
        m.push((copy_str("pageSize"), JsonValue::Number(JsonNumber::PosInt(page_size))));
        proof {
            reveal_strlit("textQuery");
            reveal_strlit("pageSize");
            assert("textQuery"@.len() != "pageSize"@.len());
            lemma_member_at(m@, 0, "textQuery"@);
            lemma_member_at(m@, 1, "pageSize"@);
        }
        let body = JsonValue::Object(m);
        proof {
            lemma_lookup1(body, "textQuery");
            lemma_lookup1(body, "pageSize");
        }
        assert(keys_of(body) =~= seq!["textQuery"@, "pageSize"@]);
        assert(query_view(headers@) =~= seq![
            ("X-Goog-Api-Key"@, self.api_key@),
            ("X-Goog-FieldMask"@, PLACES_FIELD_MASK@),
        ]);
        PostRequest { url: copy_str(PLACES_SEARCH_URL), headers, body }
    }

    /// The entry of one place.
    pub fn place_entry(p: &JsonValue) -> (r: String)
        ensures
            r@ == place_entry(*p),
    {
        let mut o = copy_str("Name: ");
        o.append(p.text2_or("displayName", "text", "Unknown Place").as_str());
        o.append("\nAddress: ");
        o.append(p.text1_or("formattedAddress", "No address").as_str());
        o.append("\nRating: ");
        o.append(number_display(p.get("rating")).as_str());
        o.append(" (");
        push_decimal(
            &mut o,
            match p.u64_1("userRatingCount") {
                Some(n) => n,
                None => 0,
            },
        );
        o.append(" reviews)\nPrice: ");
        o.append(p.text1_or("priceLevel", "Unknown").as_str());
        o.append("\nTypes: ");
        let types = match p.get("types") {
            Some(t) => t.as_array(),
            None => None,
        };
        o.append(strings_text(types).as_str());
        o.append("\nPhone: ");
        o.append(p.text1_or("nationalPhoneNumber", "No phone").as_str());
        o.append("\nWebsite: ");
        o.append(p.text1_or("websiteUri", "No website").as_str());
        o.append("\n---");
        o
    }

    /// The answer to a search from its reply (`None` when it could not be
    /// sent).
    pub fn search_result(reply: Option<&HttpReply>) -> (r: Result<String, ToolError>)
        ensures
            match reply {
                None => r matches Err(e) && e.message@ == "Failed to request Google Places API"@,
                Some(h) => if !h.success {
                    r matches Err(e) && e.message@ == "Google Places API returned error "@
                        + h.status@ + ": "@ + h.text@
                } else {
                    r matches Ok(s) && s@ == found_text(
                        places_of(json_or_null(*h)).map_values(|p: JsonValue| place_entry(p)),
                        "places"@,
                        "No places found."@,
                    )
                },
            },
    {
        let h = match reply {
            None => {
                return Err(ToolError::msg("Failed to request Google Places API"));
            },
            Some(h) => h,
        };
        if !h.success {
            let mut m = copy_str("Google Places API returned error ");
            m.append(h.status.as_str());
            m.append(": ");
            m.append(h.text.as_str());
            return Err(ToolError::new(m));
        }
        let null = JsonValue::Null;
        let d: &JsonValue = match &h.json {
            Some(v) => v,
            None => &null,
        };
        assert(*d == json_or_null(*h));
        let places: Option<&Vec<JsonValue>> = match d.get("places") {
            Some(p) => p.as_array(),
            None => None,
        };
        let mut entries: Vec<String> = Vec::new();
        match places {
            Some(ps) => {
                let mut i: usize = 0;
                while i < ps.len()
                    invariant
                        i <= ps@.len(),
                        entries@.len() == i,
                        forall|j: int| 0 <= j < i ==> #[trigger] entries@[j]@ == place_entry(ps@[j]),
                    decreases ps@.len() - i,
                {
                    let e = Self::place_entry(&ps[i]);
                    entries.push(e);
                    i = i + 1;
                }
                assert(entries@.map_values(|s: String| s@) =~= places_of(*d).map_values(
                    |p: JsonValue| place_entry(p),
                ));
            },
            None => {
                assert(entries@.map_values(|s: String| s@) =~= places_of(*d).map_values(
                    |p: JsonValue| place_entry(p),
                ));
            },
        }
        Ok(found_result(&entries, "places", "No places found."))
    }
}


/// A plain GET request: its URL and query parameters.
pub struct GetRequest {
    pub url: String,
    pub query: Vec<(String, String)>,
}

/// The query parameters as plain values.
pub open spec fn query_view(q: Seq<(String, String)>) -> Seq<(Seq<char>, Seq<char>)> {
    q.map_values(|p: (String, String)| (p.0@, p.1@))
}

/// The first item's text at `key`, for a member holding a list.
pub open spec fn first_text(v: JsonValue, list: Seq<char>, key: Seq<char>, default: Seq<char>) -> Seq<char> {
    match as_list(get(v, list)) {
        Some(l) => if l.len() > 0 {
            match get(l[0], key) {
                Some(JsonValue::Str(s)) => s@,
                _ => default,
            }
        } else {
            default
        },
        None => default,
    }
}

fn first_text_of(v: &JsonValue, list: &str, key: &str, default: &str) -> (r: String)
    ensures
        r@ == first_text(*v, list@, key@, default@),
{
    match v.get(list) {
        Some(l) => match l.as_array() {
            Some(items) => if items.len() > 0 {
                match items[0].get(key) {
                    Some(JsonValue::Str(s)) => s.clone(),
                    _ => copy_str(default),
                }
            } else {
                copy_str(default)
            },
            None => copy_str(default),
        },
        None => copy_str(default),
    }
}

/// The entry of one contact.
pub open spec fn contact_entry(p: JsonValue) -> Seq<char> {
    "Name: "@ + first_text(p, "names"@, "displayName"@, "Unknown"@) + "\nEmail: "@ + first_text(
        p,
        "emailAddresses"@,
        "value"@,
        "No email"@,
    ) + "\nPhone: "@ + first_text(p, "phoneNumbers"@, "value"@, "No phone"@) + "\n---"@
}

/// The people of a search reply: the `person` of each result that has one.
pub open spec fn found_people(results: Seq<JsonValue>) -> Seq<JsonValue>
    decreases results.len(),
{
    if results.len() == 0 {
        Seq::empty()
    } else {
        match get(results.last(), "person"@) {
            Some(p) => found_people(results.drop_last()).push(p),
            None => found_people(results.drop_last()),
        }
    }
}

/// The people of a reply: the connections, or the search results.
pub open spec fn people_of(d: JsonValue, searched: bool) -> Seq<JsonValue> {
    if !searched {
        match as_list(get(d, "connections"@)) {
            Some(l) => l,
            None => Seq::empty(),
        }
    } else {
        match as_list(get(d, "results"@)) {
            Some(l) => found_people(l),
            None => Seq::empty(),
        }
    }
}

/// The URL of a contacts request.
pub open spec fn contacts_url(query: Seq<char>, n: nat) -> Seq<char> {
    if query.len() == 0 {
        "https://people.googleapis.com/v1/people/me/connections?personFields=names,emailAddresses,phoneNumbers&pageSize="@
            + decimal(n)
    } else {
        "https://people.googleapis.com/v1/people:searchContacts?query="@ + url_encoded(query)
            + "&readMask=names,emailAddresses,phoneNumbers&pageSize="@ + decimal(n)
    }
}

/// Reads Google contacts.
pub struct GoogleContactsReadTool {
    pub metadata: ToolMetadata,
}

impl GoogleContactsReadTool {
    /// The tool.
    pub fn new() -> (t: Self)
        ensures
            metadata_is(
                t.metadata,
                "google_contacts_read"@,
                "Read Google Contacts"@,
                ToolType::GoogleContactsRead,
                "Read contacts from Google using the People API."@,
                ToolCategory::Google,
            ),
    {
        GoogleContactsReadTool {
            metadata: ToolMetadata::from_parts(
                "google_contacts_read",
                "Read Google Contacts",
                ToolType::GoogleContactsRead,
                "Read contacts from Google using the People API.",
                ToolCategory::Google,
            ),
        }
    }

    /// The query a call names (empty for none) and the URL to read: the
    /// connections, or a search, for at most `max_results` (ten by default).
    pub fn plan(args: Option<&JsonValue>) -> (r: (String, String))
        ensures
            ({
                let a = args_or_empty(
                    match args {
                        Some(x) => Some(*x),
                        None => None,
                    },
                );
                r.0@ == text_or(a, seq!["query"], ""@) && r.1@ == contacts_url(
                    text_or(a, seq!["query"], ""@),
                    nat_or(a, seq!["max_results"], 10),
                )
            }),
    {
        let (q, n) = match args {
            Some(a) => (a.text1_or("query", ""), a.u64_1("max_results")),
            None => {
                proof {
                    assert(lookup(JsonValue::Null, seq!["query"]) is None);
                    assert(lookup(JsonValue::Null, seq!["max_results"]) is None);
                    reveal_strlit("");
                }
                (String::new(), None)
            },
        };
        let n = match n {
            Some(n) => n,
            None => 10,
        };
        let mut url = String::new();
        if crate::text::is_empty_str(q.as_str()) {
            url.append(
                "https://people.googleapis.com/v1/people/me/connections?personFields=names,emailAddresses,phoneNumbers&pageSize=",
            );
            push_decimal(&mut url, n);
        } else {
            url.append("https://people.googleapis.com/v1/people:searchContacts?query=");
            url.append(url_encode(q.as_str()).as_str());
            url.append("&readMask=names,emailAddresses,phoneNumbers&pageSize=");
            push_decimal(&mut url, n);
        }
        (q, url)
    }

    /// The entry of one contact.
    pub fn contact_entry(p: &JsonValue) -> (r: String)
        ensures
            r@ == contact_entry(*p),
    {
        let mut o = copy_str("Name: ");
        o.append(first_text_of(p, "names", "displayName", "Unknown").as_str());
        o.append("\nEmail: ");
        o.append(first_text_of(p, "emailAddresses", "value", "No email").as_str());
        o.append("\nPhone: ");
        o.append(first_text_of(p, "phoneNumbers", "value", "No phone").as_str());
        o.append("\n---");
        o
    }

    /// The answer to a read from its reply (`None` when it could not be
    /// sent); `query` is the query the call named.
    pub fn read_result(query: &str, reply: Option<&HttpReply>) -> (r: Result<String, ToolError>)
        ensures
            match reply {
                None => r matches Err(e) && e.message@ == "Failed to read Google Contacts"@,
                Some(h) => if !h.success {
                    r matches Err(e) && e.message@ == "Google Contacts API failed: "@ + h.text@
                } else {
                    r matches Ok(s) && s@ == found_text(
                        people_of(json_or_null(*h), query@.len() > 0).map_values(
                            |p: JsonValue| contact_entry(p),
                        ),
                        "contacts"@,
                        "No contacts found."@,
                    )
                },
            },
    {
        let h = match reply {
            None => {
                return Err(ToolError::msg("Failed to read Google Contacts"));
            },
            Some(h) => h,
        };
        if !h.success {
            let mut m = copy_str("Google Contacts API failed: ");
            m.append(h.text.as_str());
            return Err(ToolError::new(m));
        }
        let null = JsonValue::Null;
        let d: &JsonValue = match &h.json {
            Some(v) => v,
            None => &null,
        };
        let searched = !crate::text::is_empty_str(query);
        let mut entries: Vec<String> = Vec::new();
        if !searched {
            match (match d.get("connections") {
                Some(x) => x.as_array(),
                None => None,
            }) {
                Some(ps) => {
                    let mut i: usize = 0;
                    while i < ps.len()
                        invariant
                            i <= ps@.len(),
                            entries@.len() == i,
                            forall|j: int| 0 <= j < i ==> #[trigger] entries@[j]@ == contact_entry(ps@[j]),
                        decreases ps@.len() - i,
                    {
                        entries.push(Self::contact_entry(&ps[i]));
                        i = i + 1;
                    }
                    assert(entries@.map_values(|s: String| s@) =~= ps@.map_values(
                        |p: JsonValue| contact_entry(p),
                    ));
                },
                None => {},
            }
        } else {
            match (match d.get("results") {
                Some(x) => x.as_array(),
                None => None,
            }) {
                Some(rs) => {
                    let mut i: usize = 0;
                    assert(rs@.take(0) =~= Seq::<JsonValue>::empty());
                    while i < rs.len()
                        invariant
                            i <= rs@.len(),
                            entries@.map_values(|s: String| s@) == found_people(
                                rs@.take(i as int),
                            ).map_values(|p: JsonValue| contact_entry(p)),
                        decreases rs@.len() - i,
                    {
                        assert(rs@.take(i + 1).drop_last() =~= rs@.take(i as int));
                        assert(rs@.take(i + 1).last() == rs@[i as int]);
                        let ghost before = entries@.map_values(|s: String| s@);
                        match rs[i].get("person") {
                            Some(p) => {
                                entries.push(Self::contact_entry(p));
                                assert(entries@.map_values(|s: String| s@) =~= before.push(
                                    contact_entry(*p),
                                ));
                            },
                            None => {},
                        }
                        i = i + 1;
                    }
                    assert(rs@.take(rs@.len() as int) =~= rs@);
                },
                None => {},
            }
        }
        Ok(found_result(&entries, "contacts", "No contacts found."))
    }
}

/// What a YouTube call reads: a search, or the liked videos.
pub open spec fn youtube_is_search(a: JsonValue) -> bool {
    text_or(a, seq!["action"], "liked"@) == "search"@
}

/// The request of a YouTube call.
pub open spec fn youtube_request(a: JsonValue) -> (Seq<char>, Seq<(Seq<char>, Seq<char>)>) {
    let n = decimal(nat_or(a, seq!["max_results"], 5));
    if youtube_is_search(a) {
        (
            "https://www.googleapis.com/youtube/v3/search"@,
            seq![
                ("part"@, "snippet"@),
                ("q"@, text_or(a, seq!["query"], ""@)),
                ("type"@, "video"@),
                ("maxResults"@, n),
            ],
        )
    } else {
        (
            "https://www.googleapis.com/youtube/v3/videos"@,
            seq![("part"@, "snippet"@), ("myRating"@, "like"@), ("maxResults"@, n)],
        )
    }
}

/// The entry of one video; search results keep the id under `videoId`.
pub open spec fn video_entry(v: JsonValue, searched: bool) -> Seq<char> {
    let id = if searched {
        text_or(v, seq!["id", "videoId"], ""@)
    } else {
        text_or(v, seq!["id"], ""@)
    };
    "Video ID: "@ + id + "\nTitle: "@ + text_or(v, seq!["snippet", "title"], ""@) + "\nChannel: "@
        + text_or(v, seq!["snippet", "channelTitle"], ""@) + "\nUrl: https://www.youtube.com/watch?v="@
        + id + "\n---"@
}

/// The videos of a reply.
pub open spec fn items_of(d: JsonValue) -> Seq<JsonValue> {
    match as_list(get(d, "items"@)) {
        Some(l) => l,
        None => Seq::empty(),
    }
}

/// Reads YouTube: liked videos, or a search.
pub struct GoogleYouTubeReadTool {
    pub metadata: ToolMetadata,
}

impl GoogleYouTubeReadTool {
    /// The tool.
    pub fn new() -> (t: Self)
        ensures
            metadata_is(
                t.metadata,
                "google_youtube_read"@,
                "Read YouTube Videos"@,
                ToolType::GoogleYouTubeRead,
                "Read data from YouTube (e.g. liked videos, search)."@,
                ToolCategory::Google,
            ),
    {
        GoogleYouTubeReadTool {
            metadata: ToolMetadata::from_parts(
                "google_youtube_read",
                "Read YouTube Videos",
                ToolType::GoogleYouTubeRead,
                "Read data from YouTube (e.g. liked videos, search).",
                ToolCategory::Google,
            ),
        }
    }

    /// Whether a call searches, and its request.
    pub fn plan(args: Option<&JsonValue>) -> (r: (bool, GetRequest))
        ensures
            ({
                let a = args_or_empty(
                    match args {
                        Some(x) => Some(*x),
                        None => None,
                    },
                );
                r.0 == youtube_is_search(a) && r.1.url@ == youtube_request(a).0 && query_view(
                    r.1.query@,
                ) == youtube_request(a).1
            }),
    {
        let null = JsonValue::Null;
        let a: &JsonValue = match args {
            Some(a) => a,
            None => &null,
        };
        let action = a.text1_or("action", "liked");
        let n = match a.u64_1("max_results") {
            Some(n) => n,
            None => 5,
        };
        let searched = crate::text::str_eq(action.as_str(), "search");
        let mut q: Vec<(String, String)> = Vec::new();
        q.push((copy_str("part"), copy_str("snippet")));
        if searched {
            q.push((copy_str("q"), a.text1_or("query", "")));
            q.push((copy_str("type"), copy_str("video")));
            q.push((copy_str("maxResults"), crate::text::u64_to_string(n)));
            let r = GetRequest { url: copy_str("https://www.googleapis.com/youtube/v3/search"), query: q };
            assert(query_view(r.query@) =~= youtube_request(*a).1);
            (true, r)
        } else {
            q.push((copy_str("myRating"), copy_str("like")));
            q.push((copy_str("maxResults"), crate::text::u64_to_string(n)));
            let r = GetRequest { url: copy_str("https://www.googleapis.com/youtube/v3/videos"), query: q };
            assert(query_view(r.query@) =~= youtube_request(*a).1);
            (false, r)
        }
    }

    /// The entry of one video.
    pub fn video_entry(v: &JsonValue, searched: bool) -> (r: String)
        ensures
            r@ == video_entry(*v, searched),
    {
        let id = if searched {
            v.text2_or("id", "videoId", "")
        } else {
            v.text1_or("id", "")
        };
        let mut o = copy_str("Video ID: ");
        o.append(id.as_str());
        o.append("\nTitle: ");
        o.append(v.text2_or("snippet", "title", "").as_str());
        o.append("\nChannel: ");
        o.append(v.text2_or("snippet", "channelTitle", "").as_str());
        o.append("\nUrl: https://www.youtube.com/watch?v=");
        o.append(id.as_str());
        o.append("\n---");
        o
    }

    /// The answer to a read from its reply (`None` when it could not be
    /// sent).
    pub fn read_result(searched: bool, reply: Option<&HttpReply>) -> (r: Result<String, ToolError>)
        ensures
            match reply {
                None => r matches Err(e) && e.message@ == (if searched {
                    "Failed to search YouTube videos"@
                } else {
                    "Failed to get liked YouTube videos"@
                }),
                Some(h) => if !h.success {
                    r matches Err(e) && e.message@ == "YouTube API failed: "@ + h.text@
                } else {
                    r matches Ok(s) && s@ == found_text(
                        items_of(json_or_null(*h)).map_values(|v: JsonValue| video_entry(v, searched)),
                        "videos"@,
                        "No videos found."@,
                    )
                },
            },
    {
        let h = match reply {
            None => {
                return Err(
                    ToolError::msg(
                        if searched {
                            "Failed to search YouTube videos"
                        } else {
                            "Failed to get liked YouTube videos"
                        },
                    ),
                );
            },
            Some(h) => h,
        };
        if !h.success {
            let mut m = copy_str("YouTube API failed: ");
            m.append(h.text.as_str());
            return Err(ToolError::new(m));
        }
        let null = JsonValue::Null;
        let d: &JsonValue = match &h.json {
            Some(v) => v,
            None => &null,
        };
        let mut entries: Vec<String> = Vec::new();
        match (match d.get("items") {
                Some(x) => x.as_array(),
                None => None,
            }) {
            Some(vs) => {
                let mut i: usize = 0;
                while i < vs.len()
                    invariant
                        i <= vs@.len(),
                        entries@.len() == i,
                        forall|j: int| 0 <= j < i ==> #[trigger] entries@[j]@ == video_entry(vs@[j], searched),
                    decreases vs@.len() - i,
                {
                    entries.push(Self::video_entry(&vs[i], searched));
                    i = i + 1;
                }
                assert(entries@.map_values(|s: String| s@) =~= vs@.map_values(
                    |v: JsonValue| video_entry(v, searched),
                ));
            },
            None => {},
        }
        Ok(found_result(&entries, "videos", "No videos found."))
    }
}


/// A character's code with ASCII upper-case letters lowered.
pub open spec fn ascii_lower_code(c: char) -> u32 {
    let u = c as u32;
    if 65 <= u && u <= 90 {
        (u + 32) as u32
    } else {
        u
    }
}

/// `a` and `b` are equal ignoring ASCII case (`eq_ignore_ascii_case`).
pub open spec fn ascii_ieq(a: Seq<char>, b: Seq<char>) -> bool {
    a.len() == b.len() && forall|i: int| 0 <= i < a.len() ==> #[trigger] ascii_lower_code(a[i]) == ascii_lower_code(b[i])
}

fn lower_code(c: char) -> (u: u32)
    ensures
        u == ascii_lower_code(c),
{
    let u = c as u32;
    if 65 <= u && u <= 90 {
        u + 32
    } else {
        u
    }
}

/// Whether `a` and `b` are equal ignoring ASCII case.
pub fn eq_ignore_ascii_case(a: &str, b: &str) -> (r: bool)
    ensures
        r == ascii_ieq(a@, b@),
{
    let va = crate::text::chars_of(a);
    let vb = crate::text::chars_of(b);
    if va.len() != vb.len() {
        return false;
    }
    let mut i: usize = 0;
    while i < va.len()
        invariant
            i <= va@.len(),
            va@.len() == vb@.len(),
            va@ == a@,
            vb@ == b@,
            forall|j: int| 0 <= j < i ==> #[trigger] ascii_lower_code(va@[j]) == ascii_lower_code(vb@[j]),
        decreases va@.len() - i,
    {
        if lower_code(va[i]) != lower_code(vb[i]) {
            return false;
        }
        i = i + 1;
    }
    true
}

/// The value of the last header named `name` (ignoring ASCII case).
pub open spec fn header_value(hdrs: Seq<JsonValue>, name: Seq<char>) -> Option<Seq<char>>
    decreases hdrs.len(),
{
    if hdrs.len() == 0 {
        None
    } else if ascii_ieq(text_or(hdrs.last(), seq!["name"], ""@), name) {
        Some(text_or(hdrs.last(), seq!["value"], ""@))
    } else {
        header_value(hdrs.drop_last(), name)
    }
}

/// A header's value, or `default`.
pub open spec fn header_or(d: JsonValue, name: Seq<char>, default: Seq<char>) -> Seq<char> {
    match as_list(lookup(d, seq!["payload", "headers"])) {
        Some(h) => match header_value(h, name) {
            Some(v) => v,
            None => default,
        },
        None => default,
    }
}

/// The entry of one message's details.
pub open spec fn message_entry(d: JsonValue) -> Seq<char> {
    "---\nFrom: "@ + header_or(d, "From"@, "Unknown Sender"@) + "\nDate: "@ + header_or(
        d,
        "Date"@,
        "Unknown Date"@,
    ) + "\nSubject: "@ + header_or(d, "Subject"@, "No Subject"@) + "\nSnippet: "@ + text_or(
        d,
        seq!["snippet"],
        ""@,
    ) + "\n"@
}

/// The ids of the listed messages that have one.
pub open spec fn ids_of(ms: Seq<JsonValue>) -> Seq<Seq<char>>
    decreases ms.len(),
{
    if ms.len() == 0 {
        Seq::empty()
    } else {
        match text_at(ms.last(), seq!["id"]) {
            Some(id) => ids_of(ms.drop_last()).push(id),
            None => ids_of(ms.drop_last()),
        }
    }
}

/// The entries of the details that came back, in order.
pub open spec fn kept_entries(es: Seq<Option<String>>) -> Seq<Seq<char>>
    decreases es.len(),
{
    if es.len() == 0 {
        Seq::empty()
    } else {
        match es.last() {
            Some(e) => kept_entries(es.drop_last()).push(e@),
            None => kept_entries(es.drop_last()),
        }
    }
}

/// What the list of messages leads to: an answer, or the ids whose details
/// to fetch.
pub enum GmailListing {
    Answer(String),
    Fetch(Vec<String>),
}

/// Reads recent Gmail messages.
pub struct GoogleGmailReadTool {
    pub metadata: ToolMetadata,
}

impl GoogleGmailReadTool {
    /// The tool.
    pub fn new() -> (t: Self)
        ensures
            metadata_is(
                t.metadata,
                "read_gmail_oauth"@,
                "Read Emails (Gmail)"@,
                ToolType::GoogleGmailRead,
                "Read recent emails from the user's Gmail account."@,
                ToolCategory::Google,
            ),
    {
        GoogleGmailReadTool {
            metadata: ToolMetadata::from_parts(
                "read_gmail_oauth",
                "Read Emails (Gmail)",
                ToolType::GoogleGmailRead,
                "Read recent emails from the user's Gmail account.",
                ToolCategory::Google,
            ),
        }
    }

    /// The request listing the messages: at most `max_results` (five by
    /// default), matching the query when one is given.
    pub fn plan(args: Option<&JsonValue>) -> (r: GetRequest)
        ensures
            ({
                let a = args_or_empty(
                    match args {
                        Some(x) => Some(*x),
                        None => None,
                    },
                );
                let q = text_or(a, seq!["query"], ""@);
                r.url@ == "https://gmail.googleapis.com/gmail/v1/users/me/messages"@ && query_view(
                    r.query@,
                ) == seq![("maxResults"@, decimal(nat_or(a, seq!["max_results"], 5)))] + if q.len()
                    == 0 {
                    Seq::empty()
                } else {
                    seq![("q"@, q)]
                }
            }),
    {
        let null = JsonValue::Null;
        let a: &JsonValue = match args {
            Some(a) => a,
            None => &null,
        };
        let n = match a.u64_1("max_results") {
            Some(n) => n,
            None => 5,
        };
        let q = a.text1_or("query", "");
        let mut query: Vec<(String, String)> = Vec::new();
        query.push((copy_str("maxResults"), crate::text::u64_to_string(n)));
        let ghost first = query_view(query@);
        if !crate::text::is_empty_str(q.as_str()) {
            query.push((copy_str("q"), q));
        }
        let r = GetRequest {
            url: copy_str("https://gmail.googleapis.com/gmail/v1/users/me/messages"),
            query,
        };
        assert(query_view(r.query@) =~= seq![("maxResults"@, decimal(nat_or(*a, seq!["max_results"], 5)))]
            + if text_or(*a, seq!["query"], ""@).len() == 0 {
            Seq::empty()
        } else {
            seq![("q"@, text_or(*a, seq!["query"], ""@))]
        });
        r
    }

    /// What the list reply leads to (`None` when it could not be sent).
    pub fn listing(reply: Option<&HttpReply>) -> (r: Result<GmailListing, ToolError>)
        ensures
            match reply {
                None => r matches Err(e) && e.message@ == "Failed to list Gmail messages"@,
                Some(h) => if !h.success {
                    r matches Err(e) && e.message@ == "Gmail API list failed with "@ + h.status@
                        + ": "@ + h.text@
                } else {
                    match as_list(get(json_or_null(*h), "messages"@)) {
                        Some(ms) => if ms.len() > 0 {
                            r matches Ok(GmailListing::Fetch(ids)) && ids@.map_values(
                                |s: String| s@,
                            ) == ids_of(ms)
                        } else {
                            r matches Ok(GmailListing::Answer(s)) && s@
                                == "No emails found matching the criteria."@
                        },
                        None => r matches Ok(GmailListing::Answer(s)) && s@
                            == "No emails found matching the criteria."@,
                    }
                },
            },
    {
        let h = match reply {
            None => {
                return Err(ToolError::msg("Failed to list Gmail messages"));
            },
            Some(h) => h,
        };
        if !h.success {
            let mut m = copy_str("Gmail API list failed with ");
            m.append(h.status.as_str());
            m.append(": ");
            m.append(h.text.as_str());
            return Err(ToolError::new(m));
        }
        let null = JsonValue::Null;
        let d: &JsonValue = match &h.json {
            Some(v) => v,
            None => &null,
        };
        let ms = match d.get("messages") {
            Some(x) => x.as_array(),
            None => None,
        };
        match ms {
            Some(ms) => if ms.len() > 0 {
                let mut ids: Vec<String> = Vec::new();
                let mut i: usize = 0;
                assert(ms@.take(0) =~= Seq::<JsonValue>::empty());
                while i < ms.len()
                    invariant
                        i <= ms@.len(),
                        ids@.map_values(|s: String| s@) == ids_of(ms@.take(i as int)),
                    decreases ms@.len() - i,
                {
                    assert(ms@.take(i + 1).drop_last() =~= ms@.take(i as int));
                    assert(ms@.take(i + 1).last() == ms@[i as int]);
                    let ghost before = ids@.map_values(|s: String| s@);
                    match ms[i].text1("id") {
                        Some(id) => {
                            ids.push(copy_str(id));
                            assert(ids@.map_values(|s: String| s@) =~= before.push(id@));
                        },
                        None => {},
                    }
                    i = i + 1;
                }
                assert(ms@.take(ms@.len() as int) =~= ms@);
                Ok(GmailListing::Fetch(ids))
            } else {
                Ok(GmailListing::Answer(copy_str("No emails found matching the criteria.")))
            },
            None => Ok(GmailListing::Answer(copy_str("No emails found matching the criteria."))),
        }
    }

    /// The URL of a message's subject, sender and date.
    pub fn detail_url(id: &str) -> (r: String)
        ensures
            r@ == "https://gmail.googleapis.com/gmail/v1/users/me/messages/"@ + id@
                + "?format=metadata&metadataHeaders=Subject&metadataHeaders=From&metadataHeaders=Date"@,
    {
        let mut u = copy_str("https://gmail.googleapis.com/gmail/v1/users/me/messages/");
        u.append(id);
        u.append("?format=metadata&metadataHeaders=Subject&metadataHeaders=From&metadataHeaders=Date");
        u
    }

    fn header_text(d: &JsonValue, name: &str, default: &str) -> (r: String)
        ensures
            r@ == header_or(*d, name@, default@),
    {
        match d.at2("payload", "headers") {
            Some(h) => match h.as_array() {
                Some(hs) => {
                    let mut i: usize = hs.len();
                    assert(hs@.take(hs@.len() as int) =~= hs@);
                    while i > 0
                        invariant
                            i <= hs@.len(),
                            as_list(lookup(*d, seq!["payload", "headers"])) == Some(hs@),
                            header_value(hs@, name@) == header_value(hs@.take(i as int), name@),
                        decreases i,
                    {
                        let ghost t = hs@.take(i as int);
                        assert(t.last() == hs@[i - 1]);
                        assert(t.drop_last() =~= hs@.take(i - 1));
                        let n = hs[i - 1].text1_or("name", "");
                        if eq_ignore_ascii_case(n.as_str(), name) {
                            return hs[i - 1].text1_or("value", "");
                        }
                        i = i - 1;
                    }
                    assert(hs@.take(0) =~= Seq::<JsonValue>::empty());
                    copy_str(default)
                },
                None => copy_str(default),
            },
            None => copy_str(default),
        }
    }

    /// The entry of a message from the reply to its details request: `None`
    /// when the request failed, could not be sent or did not succeed.
    pub fn message_entry(reply: Option<&HttpReply>) -> (r: Option<String>)
        ensures
            match reply {
                Some(h) => if h.success {
                    r matches Some(s) && s@ == message_entry(json_or_null(*h))
                } else {
                    r is None
                },
                None => r is None,
            },
    {
        let h = match reply {
            None => {
                return None;
            },
            Some(h) => h,
        };
        if !h.success {
            return None;
        }
        let null = JsonValue::Null;
        let d: &JsonValue = match &h.json {
            Some(v) => v,
            None => &null,
        };
        let mut o = copy_str("---\nFrom: ");
        o.append(Self::header_text(d, "From", "Unknown Sender").as_str());
        o.append("\nDate: ");
        o.append(Self::header_text(d, "Date", "Unknown Date").as_str());
        o.append("\nSubject: ");
        o.append(Self::header_text(d, "Subject", "No Subject").as_str());
        o.append("\nSnippet: ");
        o.append(d.text1_or("snippet", "").as_str());
        o.append("\n");
        Some(o)
    }

    /// The answer: the entries of the messages whose details came back.
    pub fn combine(entries: Vec<Option<String>>) -> (r: String)
        ensures
            r@ == "Retrieved "@ + decimal(kept_entries(entries@).len()) + " emails:\n\n"@ + join(
                kept_entries(entries@),
                "\n"@,
            ),
    {
        let mut kept: Vec<String> = Vec::new();
        let mut i: usize = 0;
        assert(entries@.take(0) =~= Seq::<Option<String>>::empty());
        while i < entries.len()
            invariant
                i <= entries@.len(),
                kept@.map_values(|s: String| s@) == kept_entries(entries@.take(i as int)),
            decreases entries@.len() - i,
        {
            assert(entries@.take(i + 1).drop_last() =~= entries@.take(i as int));
            assert(entries@.take(i + 1).last() == entries@[i as int]);
            let ghost before = kept@.map_values(|s: String| s@);
            match &entries[i] {
                Some(e) => {
                    kept.push(e.clone());
                    assert(kept@.map_values(|s: String| s@) =~= before.push(e@));
                },
                None => {},
            }
            i = i + 1;
        }
        assert(entries@.take(entries@.len() as int) =~= entries@);
        let ghost views = kept@.map_values(|s: String| s@);
        let mut out = copy_str("Retrieved ");
        push_decimal(&mut out, kept.len() as u64);
        out.append(" emails:\n\n");
        let ghost head = out@;
        let mut k: usize = 0;
        assert(views.take(0) =~= Seq::<Seq<char>>::empty());
        while k < kept.len()
            invariant
                k <= kept@.len(),
                views == kept@.map_values(|s: String| s@),
                out@ == head + join(views.take(k as int), "\n"@),
            decreases kept@.len() - k,
        {
            assert(views.take(k + 1).drop_last() =~= views.take(k as int));
            if k > 0 {
                out.append("\n");
            }
            out.append(kept[k].as_str());
            assert(out@ =~= head + join(views.take(k + 1), "\n"@));
            k = k + 1;
        }
        assert(views.take(views.len() as int) =~= views);
        out
    }
}

} // verus!
