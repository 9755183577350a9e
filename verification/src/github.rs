//! The GitHub tools. The public tool searches repositories, lists trending
//! ones and a user's repositories; the authenticated tool reads
//! notifications, repositories, workflow runs, issues, events, pull requests
//! and follower counts, and edits pull requests. Each call is a short
//! conversation with the API: the tool says which request to send, the caller
//! sends it and hands the reply back, and the tool either answers or asks for
//! the next request.
use vstd::prelude::*;
use crate::framework::{metadata_is, ToolCategory, ToolError, ToolMetadata, ToolType};
use crate::github_format::{
    followers_text, format_events, format_followers, format_issues, format_notifications,
    format_pr_checks, format_pr_commits, format_pr_details, format_pulls, format_repo_list_full,
    format_repo_list_short, format_workflow_runs, list_or, notifications_text, pr_checks_text,
    pr_details_text, array_of, repo_items, GhItem,
};
use crate::json::{as_nat, get, lookup, text_at, text_or, JsonValue};
use crate::text::{copy_str, decimal, has_prefix, trim};

verus! {

/// The real GitHub REST API root.
pub const GITHUB_API_URL: &'static str = "https://api.github.com";

/// The HTTP method of a request.
#[derive(Debug, Clone, Copy, PartialEq, Eq, Structural)]
pub enum HttpVerb {
    Get,
    Patch,
}

/// A GitHub API request, with what a failure of each stage is reported as.
pub struct GitHubRequest {
    pub verb: HttpVerb,
    pub url: String,
    pub query: Vec<(String, String)>,
    /// The `title` field of a PATCH body, when it has one.
    pub patch_title: Option<String>,
    /// The `body` field of a PATCH body, when it has one.
    pub patch_body: Option<String>,
    /// What a request that could not be sent is reported as.
    pub send_context: String,
    /// What a reply that is not JSON is reported as.
    pub parse_context: String,
    /// What a 403 reply is reported as, where it has its own message.
    pub forbidden: Option<String>,
}

/// A request as plain values.
pub struct RequestView {
    pub verb: HttpVerb,
    pub url: Seq<char>,
    pub query: Seq<(Seq<char>, Seq<char>)>,
    pub patch_title: Option<Seq<char>>,
    pub patch_body: Option<Seq<char>>,
    pub send_context: Seq<char>,
    pub parse_context: Seq<char>,
    pub forbidden: Option<Seq<char>>,
}

/// The views of an optional string.
pub open spec fn opt_seq(o: Option<String>) -> Option<Seq<char>> {
    match o {
        Some(s) => Some(s@),
        None => None,
    }
}

/// A request as plain values.
pub open spec fn request_view(r: GitHubRequest) -> RequestView {
    RequestView {
        verb: r.verb,
        url: r.url@,
        query: r.query@.map_values(|p: (String, String)| (p.0@, p.1@)),
        patch_title: opt_seq(r.patch_title),
        patch_body: opt_seq(r.patch_body),
        send_context: r.send_context@,
        parse_context: r.parse_context@,
        forbidden: opt_seq(r.forbidden),
    }
}

/// A GET request.
pub open spec fn get_view(
    url: Seq<char>,
    query: Seq<(Seq<char>, Seq<char>)>,
    send: Seq<char>,
    parse: Seq<char>,
    forbidden: Option<Seq<char>>,
) -> RequestView {
    RequestView {
        verb: HttpVerb::Get,
        url,
        query,
        patch_title: None,
        patch_body: None,
        send_context: send,
        parse_context: parse,
        forbidden,
    }
}

/// What came back for a request.
pub enum ApiReply {
    /// A successful reply, parsed as JSON.
    Json(JsonValue),
    /// An unsuccessful status: its code and its rendering (such as
    /// `404 Not Found`).
    Status(u16, String),
    /// A successful reply that is not JSON.
    Unparseable,
    /// The request could not be sent.
    Unreachable,
}

/// What a reply comes to: the JSON, or the message of the failure.
pub open spec fn reply_result(req: RequestView, reply: ApiReply) -> Result<JsonValue, Seq<char>> {
    match reply {
        ApiReply::Json(v) => Ok(v),
        ApiReply::Status(code, text) => if code == 403 && req.forbidden is Some {
            Err(req.forbidden.unwrap())
        } else {
            Err("GitHub API error: "@ + text@)
        },
        ApiReply::Unparseable => Err(req.parse_context),
        ApiReply::Unreachable => Err(req.send_context),
    }
}

/// The number of leading quote characters.
pub open spec fn lead_quotes(s: Seq<char>) -> nat
    decreases s.len(),
{
    if s.len() > 0 && (s[0] == '"' || s[0] == '\'') {
        1 + lead_quotes(s.drop_first())
    } else {
        0
    }
}

/// The number of trailing quote characters.
pub open spec fn trail_quotes(s: Seq<char>) -> nat
    decreases s.len(),
{
    if s.len() > 0 && (s.last() == '"' || s.last() == '\'') {
        1 + trail_quotes(s.drop_last())
    } else {
        0
    }
}

/// `s` without leading and trailing quote characters.
pub open spec fn strip_quotes(s: Seq<char>) -> Seq<char> {
    let a = s.skip(lead_quotes(s) as int);
    a.take(a.len() - trail_quotes(a))
}

/// A configured token: trimmed, unquoted, and without a `Bearer ` or
/// `token ` scheme.
pub open spec fn normalized_token(raw: Seq<char>) -> Seq<char> {
    let t = strip_quotes(trim(raw));
    if has_prefix(t, "Bearer "@) {
        trim(t.skip(7))
    } else if has_prefix(t, "token "@) {
        trim(t.skip(6))
    } else {
        t
    }
}

proof fn lemma_lead_quotes(s: Seq<char>, k: int)
    requires
        0 <= k <= s.len(),
        forall|i: int| 0 <= i < k ==> (#[trigger] s[i] == '"' || s[i] == '\''),
        k < s.len() ==> !(s[k] == '"' || s[k] == '\''),
    ensures
        lead_quotes(s) == k,
    decreases s.len(),
{
    if k > 0 {
        assert(s[0] == '"' || s[0] == '\'');
        assert forall|i: int| 0 <= i < k - 1 implies (#[trigger] s.drop_first()[i] == '"'
            || s.drop_first()[i] == '\'') by {
            assert(s.drop_first()[i] == s[i + 1]);
        }
        if k < s.len() {
            assert(s.drop_first()[k - 1] == s[k]);
        }
        lemma_lead_quotes(s.drop_first(), k - 1);
    }
}

proof fn lemma_trail_quotes(s: Seq<char>, k: int)
    requires
        0 <= k <= s.len(),
        forall|i: int| s.len() - k <= i < s.len() ==> (#[trigger] s[i] == '"' || s[i] == '\''),
        k < s.len() ==> !(s[s.len() - k - 1] == '"' || s[s.len() - k - 1] == '\''),
    ensures
        trail_quotes(s) == k,
    decreases s.len(),
{
    if k > 0 {
        assert(s.last() == s[s.len() - 1]);
        assert forall|i: int| s.len() - 1 - (k - 1) <= i < s.len() - 1 implies (
        #[trigger] s.drop_last()[i] == '"' || s.drop_last()[i] == '\'') by {
            assert(s.drop_last()[i] == s[i]);
        }
        if k < s.len() {
            assert(s.drop_last()[s.len() - 1 - (k - 1) - 1] == s[s.len() - k - 1]);
        }
        lemma_trail_quotes(s.drop_last(), k - 1);
    }
}

fn is_quote(c: char) -> (b: bool)
    ensures
        b == (c == '"' || c == '\''),
{
    c == '"' || c == '\''
}

/// `s` without leading and trailing quote characters.
pub fn strip_quotes_str(s: &str) -> (r: String)
    ensures
        r@ == strip_quotes(s@),
{
    let v = crate::text::chars_of(s);
    let n = v.len();
    let mut a: usize = 0;
    while a < n && is_quote(v[a])
        invariant
            n == v@.len(),
            a <= n,
            forall|i: int| 0 <= i < a ==> (#[trigger] v@[i] == '"' || v@[i] == '\''),
        decreases n - a,
    {
        a = a + 1;
    }
    proof {
        lemma_lead_quotes(v@, a as int);
    }
    let mut b: usize = n;
    while b > a && is_quote(v[b - 1])
        invariant
            n == v@.len(),
            a <= b <= n,
            forall|i: int| b <= i < n ==> (#[trigger] v@[i] == '"' || v@[i] == '\''),
        decreases b,
    {
        b = b - 1;
    }
    let ghost t = v@.skip(a as int);
    proof {
        assert forall|i: int| t.len() - (n - b) <= i < t.len() implies (#[trigger] t[i] == '"'
            || t[i] == '\'') by {
            assert(t[i] == v@[a + i]);
        }
        if n - b < t.len() {
            assert(t[t.len() - (n - b) - 1] == v@[b - 1]);
        }
        lemma_trail_quotes(t, (n - b) as int);
        assert(strip_quotes(v@) =~= v@.subrange(a as int, b as int));
    }
    let piece = vstd::slice::slice_subrange(v.as_slice(), a, b);
    crate::text::string_from_chars(piece)
}

/// A configured token: trimmed, unquoted, and without a `Bearer ` or
/// `token ` scheme.
pub fn normalize_token(raw: &str) -> (r: String)
    ensures
        r@ == normalized_token(raw@),
{
    let t = strip_quotes_str(crate::text::trim_str(raw).as_str());
    let v = crate::text::chars_of(t.as_str());
    if crate::text::starts_with(t.as_str(), "Bearer ") {
        proof {
            reveal_strlit("Bearer ");
        }
        let rest = crate::text::string_from_chars(vstd::slice::slice_subrange(v.as_slice(), 7, v.len()));
        assert(rest@ =~= t@.skip(7));
        crate::text::trim_str(rest.as_str())
    } else if crate::text::starts_with(t.as_str(), "token ") {
        proof {
            reveal_strlit("token ");
        }
        let rest = crate::text::string_from_chars(vstd::slice::slice_subrange(v.as_slice(), 6, v.len()));
        assert(rest@ =~= t@.skip(6));
        crate::text::trim_str(rest.as_str())
    } else {
        t
    }
}

fn pair(a: &str, b: &str) -> (r: (String, String))
    ensures
        r.0@ == a@,
        r.1@ == b@,
{
    (copy_str(a), copy_str(b))
}

fn build_request(
    verb: HttpVerb,
    url: String,
    query: Vec<(String, String)>,
    send: &str,
    parse: &str,
    forbidden: Option<&str>,
) -> (r: GitHubRequest)
    ensures
        request_view(r) == (RequestView {
            verb,
            url: url@,
            query: query@.map_values(|p: (String, String)| (p.0@, p.1@)),
            patch_title: None,
            patch_body: None,
            send_context: send@,
            parse_context: parse@,
            forbidden: match forbidden {
                Some(f) => Some(f@),
                None => None,
            },
        }),
{
    GitHubRequest {
        verb,
        url,
        query,
        patch_title: None,
        patch_body: None,
        send_context: copy_str(send),
        parse_context: copy_str(parse),
        forbidden: match forbidden {
            Some(f) => Some(copy_str(f)),
            None => None,
        },
    }
}

// ---------------------------------------------------------------------------
// The public tool.
// ---------------------------------------------------------------------------

/// What a public call asks for.
pub enum PublicTask {
    Trending,
    Search,
    UserRepos { username: String },
}

/// The decision a public call comes to, as plain values.
pub enum PublicDecision {
    Trending { language: Option<Seq<char>>, days: int },
    Search { query: Seq<char>, language: Option<Seq<char>> },
    UserRepos { username: Seq<char> },
}

/// How a public call's arguments are read.
pub open spec fn public_decision(a: JsonValue) -> Result<PublicDecision, Seq<char>> {
    let action = text_or(a, seq!["action"], ""@);
    if action == "trending"@ {
        let timeframe = text_at(a, seq!["timeframe"]);
        Ok(
            PublicDecision::Trending {
                language: text_at(a, seq!["language"]),
                days: if timeframe == Some("weekly"@) {
                    7
                } else if timeframe == Some("monthly"@) {
                    30
                } else {
                    1
                },
            },
        )
    } else if action == "search"@ {
        match text_at(a, seq!["query"]) {
            Some(q) => Ok(PublicDecision::Search { query: q, language: text_at(a, seq!["language"]) }),
            None => Err("'query' is required for search"@),
        }
    } else if action == "user_repos"@ {
        match text_at(a, seq!["username"]) {
            Some(u) => Ok(PublicDecision::UserRepos { username: u }),
            None => Err("'username' is required for user_repos"@),
        }
    } else {
        Err("Unknown action: "@ + action)
    }
}

/// The repository search for `query`, most starred first.
pub open spec fn search_view(base: Seq<char>, query: Seq<char>) -> RequestView {
    get_view(
        base + "/search/repositories"@,
        seq![("q"@, query), ("sort"@, "stars"@), ("per_page"@, "5"@)],
        "Failed to search repositories"@,
        "Failed to parse search response"@,
        None,
    )
}

/// The filter a search adds for `language`, when one is given.
pub open spec fn language_filter(language: Option<Seq<char>>) -> Seq<char> {
    match language {
        Some(l) => " language:"@ + l,
        None => Seq::empty(),
    }
}

/// The search query for `query` (in `language`).
pub open spec fn search_query(query: Seq<char>, language: Option<Seq<char>>) -> Seq<char> {
    query + language_filter(language)
}

/// The search query of repositories created after `date` (in `language`).
pub open spec fn trending_query(date: Seq<char>, language: Option<Seq<char>>) -> Seq<char> {
    search_query("created:>"@ + date, language)
}

/// An optional text as plain text.
pub open spec fn opt_str_view(o: Option<&str>) -> Option<Seq<char>> {
    match o {
        Some(l) => Some(l@),
        None => None,
    }
}

/// A user's repositories, most recently updated first.
pub open spec fn user_repos_view(base: Seq<char>, username: Seq<char>) -> RequestView {
    get_view(
        base + "/users/"@ + username + "/repos"@,
        seq![("sort"@, "updated"@), ("per_page"@, "10"@)],
        "Failed to fetch user repositories"@,
        "Failed to parse repositories"@,
        None,
    )
}

/// The answer to a public call whose reply was `d`.
pub open spec fn public_text(task: PublicTask, d: JsonValue) -> Seq<char> {
    match task {
        PublicTask::Trending => "🔥 **Trending Repositories**\n\n"@ + list_or(
            GhItem::RepoFull,
            repo_items(d),
            "No repositories found."@,
        ),
        PublicTask::Search => "🔍 **GitHub Search Results**\n\n"@ + list_or(
            GhItem::RepoFull,
            repo_items(d),
            "No repositories found."@,
        ),
        PublicTask::UserRepos { username } => "📂 **Repositories for "@ + username@ + "**\n\n"@
            + list_or(GhItem::RepoFull, repo_items(d), "No repositories found."@),
    }
}

/// chrono's date arithmetic on a `%Y-%m-%d` date: the date parsed
/// (`NaiveDate::parse_from_str`), moved `days` days back (forward, for a
/// negative number) with `checked_sub_signed(Duration::days(days))` and
/// formatted again; nothing when the text does not parse or the move leaves
/// chrono's range.
pub uninterp spec fn date_days_before(date: Seq<char>, days: int) -> Option<Seq<char>>;

/// Today's date in UTC and the date `days` days before it (after it, for a
/// negative number), both as `%Y-%m-%d`, from one reading of the clock
/// (chrono's `Utc::now`, less `Duration::days`, each formatted). Today
/// depends on the clock and nothing is stated of it; the other date is
/// today moved back `days` days, a day in UTC being `Duration::days(1)`
/// long. `Duration::days` and the subtraction panic far beyond the bound,
/// which keeps every call clear of them.
#[verifier::external_body]
pub(crate) fn utc_dates(days: i64) -> (r: (String, String))
    requires
        -36500 <= days <= 36500,
    ensures
        date_days_before(r.0@, days as int) == Some(r.1@),
{
    let now = chrono::Utc::now();
    let earlier = now - chrono::Duration::days(days);
    (now.format("%Y-%m-%d").to_string(), earlier.format("%Y-%m-%d").to_string())
}

/// GitHub tool for public information.
pub struct GitHubPublicTool {
    pub metadata: ToolMetadata,
    /// The token sent along for higher rate limits (empty for none).
    pub token: String,
    pub base_url: String,
}

impl GitHubPublicTool {
    /// A public tool using the configured `GITHUB_TOKEN` value, if any.
    pub fn new(raw_token: &str) -> (t: Self)
        ensures
            t.token@ == normalized_token(raw_token@),
            t.base_url@ == GITHUB_API_URL@,
            metadata_is(
                t.metadata,
                "github_public"@,
                "GitHub Public"@,
                ToolType::GitHubPublic,
                "Search public repositories and users"@,
                ToolCategory::Development,
            ),
    {
        GitHubPublicTool {
            metadata: ToolMetadata::from_parts(
                "github_public",
                "GitHub Public",
                ToolType::GitHubPublic,
                "Search public repositories and users",
                ToolCategory::Development,
            ),
            token: normalize_token(raw_token),
            base_url: copy_str(GITHUB_API_URL),
        }
    }

    /// The same tool talking to `base_url` in place of the real API.
    pub fn with_base_url(self, base_url: &str) -> (t: Self)
        ensures
            t.base_url@ == base_url@,
            t.token == self.token,
            t.metadata == self.metadata,
    {
        GitHubPublicTool { base_url: copy_str(base_url), ..self }
    }

    /// The public tool is always available.
    pub fn is_available(&self) -> (b: bool)
        ensures
            b,
    {
        true
    }

    /// The repository search sending `q` as it stands.
    fn repo_search_request(&self, q: &str) -> (r: GitHubRequest)
        ensures
            request_view(r) == search_view(self.base_url@, q@),
    {
        let mut url = self.base_url.clone();
        url.append("/search/repositories");
        let mut qs: Vec<(String, String)> = Vec::new();
        qs.push(pair("q", q));
        qs.push(pair("sort", "stars"));
        qs.push(pair("per_page", "5"));
        let r = build_request(
            HttpVerb::Get,
            url,
            qs,
            "Failed to search repositories",
            "Failed to parse search response",
            None,
        );
        assert(request_view(r).query =~= seq![("q"@, q@), ("sort"@, "stars"@), ("per_page"@, "5"@)]);
        assert(request_view(r).url =~= self.base_url@ + "/search/repositories"@);
        assert(request_view(r) == search_view(self.base_url@, q@));
        r
    }

    /// The search request for `query`, in `language` when one is given.
    pub fn search_request(&self, query: &str, language: Option<&str>) -> (r: GitHubRequest)
        ensures
            request_view(r) == search_view(self.base_url@, search_query(query@, opt_str_view(language))),
    {
        let mut q = copy_str(query);
        match language {
            Some(l) => {
                q.append(" language:");
                q.append(l);
            },
            None => {},
        }
        assert(q@ =~= search_query(query@, opt_str_view(language)));
        self.repo_search_request(q.as_str())
    }

    /// The search for repositories created after `date`, in `language` when
    /// one is given.
    pub fn trending_request(&self, date: &str, language: Option<&str>) -> (r: GitHubRequest)
        ensures
            request_view(r) == search_view(self.base_url@, trending_query(date@, opt_str_view(language))),
    {
        let mut q = copy_str("created:>");
        q.append(date);
        self.search_request(q.as_str(), language)
    }

    /// The request for a user's repositories.
    pub fn user_repos_request(&self, username: &str) -> (r: GitHubRequest)
        ensures
            request_view(r) == user_repos_view(self.base_url@, username@),
    {
        let mut url = self.base_url.clone();
        url.append("/users/");
        url.append(username);
        url.append("/repos");
        let mut q: Vec<(String, String)> = Vec::new();
        q.push(pair("sort", "updated"));
        q.push(pair("per_page", "10"));
        let r = build_request(
            HttpVerb::Get,
            url,
            q,
            "Failed to fetch user repositories",
            "Failed to parse repositories",
            None,
        );
        assert(request_view(r).query =~= seq![("sort"@, "updated"@), ("per_page"@, "10"@)]);
        assert(request_view(r).url =~= self.base_url@ + "/users/"@ + username@ + "/repos"@);
        assert(request_view(r) == user_repos_view(self.base_url@, username@));
        r
    }

    /// The request a call makes. Trending searches for repositories created
    /// since a day, a week or thirty days ago, by the clock.
    pub fn plan(&self, args: Option<&JsonValue>) -> (r: Result<(GitHubRequest, PublicTask), ToolError>)
        ensures
            match args {
                None => r matches Err(e) && e.message@ == "Failed to parse arguments"@,
                Some(a) => match public_decision(*a) {
                    Err(m) => r matches Err(e) && e.message@ == m,
                    Ok(PublicDecision::Trending { language, days }) => r matches Ok(p) && (p.1
                        is Trending) && exists|today: Seq<char>, date: Seq<char>|
                        #![trigger date_days_before(today, days), trending_query(date, language)]
                        date_days_before(today, days) == Some(date) && request_view(p.0)
                            == search_view(self.base_url@, trending_query(date, language)),
                    Ok(PublicDecision::Search { query, language }) => r matches Ok(p) && (p.1
                        is Search) && request_view(p.0) == search_view(
                        self.base_url@,
                        search_query(query, language),
                    ),
                    Ok(PublicDecision::UserRepos { username }) => r matches Ok(p) && (p.1 matches PublicTask::UserRepos { username: u }
                        && u@ == username) && request_view(p.0) == user_repos_view(
                        self.base_url@,
                        username,
                    ),
                },
            },
    {
        let a = match args {
            Some(a) => a,
            None => {
                return Err(ToolError::msg("Failed to parse arguments"));
            },
        };
        let action = a.text1_or("action", "");
        if crate::text::str_eq(action.as_str(), "trending") {
            let timeframe = a.text1("timeframe");
            let days: i64 = match timeframe {
                Some(t) => if crate::text::str_eq(t, "weekly") {
                    7
                } else if crate::text::str_eq(t, "monthly") {
                    30
                } else {
                    1
                },
                None => 1,
            };
            let (today, date) = utc_dates(days);
            let language = a.text1("language");
            let req = self.trending_request(date.as_str(), language);
            proof {
                reveal_strlit("weekly");
                reveal_strlit("monthly");
                let tf = text_at(*a, seq!["timeframe"]);
                assert(days as int == if tf == Some("weekly"@) {
                    7int
                } else if tf == Some("monthly"@) {
                    30int
                } else {
                    1int
                });
                assert(opt_str_view(language) == text_at(*a, seq!["language"]));
                assert(public_decision(*a) == Ok::<PublicDecision, Seq<char>>(
                    PublicDecision::Trending { language: text_at(*a, seq!["language"]), days: days as int },
                ));
            }
            assert(date_days_before(today@, days as int) == Some(date@));
            let res: Result<(GitHubRequest, PublicTask), ToolError> = Ok((req, PublicTask::Trending));
            assert(match public_decision(*a) {
                Ok(PublicDecision::Trending { language, days }) => res matches Ok(p) && (p.1
                    is Trending) && exists|today: Seq<char>, date: Seq<char>|
                    #![trigger date_days_before(today, days), trending_query(date, language)]
                    date_days_before(today, days) == Some(date) && request_view(p.0)
                        == search_view(self.base_url@, trending_query(date, language)),
                _ => false,
            });
            res
        } else if crate::text::str_eq(action.as_str(), "search") {
            match a.text1("query") {
                Some(q) => {
                    let language = a.text1("language");
                    let req = self.search_request(q, language);
                    assert(opt_str_view(language) == text_at(*a, seq!["language"]));
                    proof {
                        reveal_strlit("search");
                        reveal_strlit("trending");
                        assert(public_decision(*a) == Ok::<PublicDecision, Seq<char>>(
                            PublicDecision::Search { query: q@, language: text_at(*a, seq!["language"]) },
                        ));
                    }
                    Ok((req, PublicTask::Search))
                },
                None => Err(ToolError::msg("'query' is required for search")),
            }
        } else if crate::text::str_eq(action.as_str(), "user_repos") {
            match a.text1("username") {
                Some(u) => Ok(
                    (self.user_repos_request(u), PublicTask::UserRepos { username: copy_str(u) }),
                ),
                None => Err(ToolError::msg("'username' is required for user_repos")),
            }
        } else {
            let mut m = copy_str("Unknown action: ");
            m.append(action.as_str());
            Err(ToolError::new(m))
        }
    }

    /// The answer to a call, from the reply to its request: a failed request
    /// fails the call.
    pub fn finish(task: &PublicTask, req: &GitHubRequest, reply: &ApiReply) -> (r: Result<String, ToolError>)
        ensures
            match reply_result(request_view(*req), *reply) {
                Err(m) => r matches Err(e) && e.message@ == m,
                Ok(d) => r matches Ok(s) && s@ == public_text(*task, d),
            },
    {
        match reply_outcome(req, reply) {
            Err(m) => Err(ToolError::new(m)),
            Ok(d) => {
                let list = format_repo_list_full(d);
                let mut s = match task {
                    PublicTask::Trending => copy_str("🔥 **Trending Repositories**\n\n"),
                    PublicTask::Search => copy_str("🔍 **GitHub Search Results**\n\n"),
                    PublicTask::UserRepos { username } => {
                        let mut h = copy_str("📂 **Repositories for ");
                        h.append(username.as_str());
                        h.append("**\n\n");
                        h
                    },
                };
                s.append(list.as_str());
                Ok(s)
            },
        }
    }
}

/// What a reply comes to: the JSON, or the message of the failure.
pub fn reply_outcome<'a>(req: &GitHubRequest, reply: &'a ApiReply) -> (r: Result<&'a JsonValue, String>)
    ensures
        match reply_result(request_view(*req), *reply) {
            Ok(d) => r matches Ok(v) && *v == d,
            Err(m) => r matches Err(s) && s@ == m,
        },
{
    match reply {
        ApiReply::Json(v) => Ok(v),
        ApiReply::Status(code, text) => {
            if *code == 403 {
                match &req.forbidden {
                    Some(f) => {
                        return Err(f.clone());
                    },
                    None => {},
                }
            }
            let mut m = copy_str("GitHub API error: ");
            m.append(text.as_str());
            Err(m)
        },
        ApiReply::Unparseable => Err(req.parse_context.clone()),
        ApiReply::Unreachable => Err(req.send_context.clone()),
    }
}


// ---------------------------------------------------------------------------
// The authenticated tool.
// ---------------------------------------------------------------------------

/// What an authenticated call asks for.
pub enum AuthTask {
    Notifications,
    MyRepos { page: u32 },
    OrgRepos { org: String, page: u32 },
    Actions { owner: String, repo: String },
    RepoIssues { owner: String, repo: String },
    MyIssues { filter: String, state: String, page: u32 },
    Events { username: String },
    RepoPulls { owner: String, repo: String },
    MyPulls { page: u32 },
    Followers,
    PrDetails { owner: String, repo: String, number: u64 },
    PrChecks { owner: String, repo: String, number: u64 },
    PrCommits { owner: String, repo: String, number: u64 },
    UpdatePr {
        owner: String,
        repo: String,
        number: u64,
        title: Option<String>,
        description: Option<String>,
    },
}

/// An authenticated call's task as plain values.
pub enum TaskView {
    Notifications,
    MyRepos { page: u32 },
    OrgRepos { org: Seq<char>, page: u32 },
    Actions { owner: Seq<char>, repo: Seq<char> },
    RepoIssues { owner: Seq<char>, repo: Seq<char> },
    MyIssues { filter: Seq<char>, state: Seq<char>, page: u32 },
    Events { username: Seq<char> },
    RepoPulls { owner: Seq<char>, repo: Seq<char> },
    MyPulls { page: u32 },
    Followers,
    PrDetails { owner: Seq<char>, repo: Seq<char>, number: u64 },
    PrChecks { owner: Seq<char>, repo: Seq<char>, number: u64 },
    PrCommits { owner: Seq<char>, repo: Seq<char>, number: u64 },
    UpdatePr {
        owner: Seq<char>,
        repo: Seq<char>,
        number: u64,
        title: Option<Seq<char>>,
        description: Option<Seq<char>>,
    },
}

/// A task as plain values.
pub open spec fn task_view(t: AuthTask) -> TaskView {
    match t {
        AuthTask::Notifications => TaskView::Notifications,
        AuthTask::MyRepos { page } => TaskView::MyRepos { page },
        AuthTask::OrgRepos { org, page } => TaskView::OrgRepos { org: org@, page },
        AuthTask::Actions { owner, repo } => TaskView::Actions { owner: owner@, repo: repo@ },
        AuthTask::RepoIssues { owner, repo } => TaskView::RepoIssues { owner: owner@, repo: repo@ },
        AuthTask::MyIssues { filter, state, page } => TaskView::MyIssues {
            filter: filter@,
            state: state@,
            page,
        },
        AuthTask::Events { username } => TaskView::Events { username: username@ },
        AuthTask::RepoPulls { owner, repo } => TaskView::RepoPulls { owner: owner@, repo: repo@ },
        AuthTask::MyPulls { page } => TaskView::MyPulls { page },
        AuthTask::Followers => TaskView::Followers,
        AuthTask::PrDetails { owner, repo, number } => TaskView::PrDetails {
            owner: owner@,
            repo: repo@,
            number,
        },
        AuthTask::PrChecks { owner, repo, number } => TaskView::PrChecks {
            owner: owner@,
            repo: repo@,
            number,
        },
        AuthTask::PrCommits { owner, repo, number } => TaskView::PrCommits {
            owner: owner@,
            repo: repo@,
            number,
        },
        AuthTask::UpdatePr { owner, repo, number, title, description } => TaskView::UpdatePr {
            owner: owner@,
            repo: repo@,
            number,
            title: opt_seq(title),
            description: opt_seq(description),
        },
    }
}

/// Where a pull-request CI check stands.
pub enum AuthStage {
    /// The task's first request is out.
    First,
    /// The pull request is known; its head commit's combined status is out.
    Status { sha: String },
    /// The combined status came back; the check runs are out.
    Checks { sha: String, status: Result<JsonValue, String> },
}

/// A stage as plain values.
pub enum StageView {
    First,
    Status { sha: Seq<char> },
    Checks { sha: Seq<char>, status: Result<JsonValue, Seq<char>> },
}

/// A stage as plain values.
pub open spec fn stage_view(s: AuthStage) -> StageView {
    match s {
        AuthStage::First => StageView::First,
        AuthStage::Status { sha } => StageView::Status { sha: sha@ },
        AuthStage::Checks { sha, status } => StageView::Checks {
            sha: sha@,
            status: match status {
                Ok(v) => Ok(v),
                Err(m) => Err(m@),
            },
        },
    }
}

/// What an authenticated call waits for.
pub struct AuthWait {
    pub task: AuthTask,
    pub stage: AuthStage,
}

/// The next step of an authenticated call: its answer, or a request to send
/// and what to do with the reply.
pub enum AuthStep {
    Done(String),
    Send(GitHubRequest, AuthWait),
}

/// A step as plain values.
pub enum StepView {
    Done(Seq<char>),
    Send(RequestView, TaskView, StageView),
}

/// A step as plain values.
pub open spec fn step_view(s: AuthStep) -> StepView {
    match s {
        AuthStep::Done(t) => StepView::Done(t@),
        AuthStep::Send(r, w) => StepView::Send(request_view(r), task_view(w.task), stage_view(w.stage)),
    }
}

/// The message of the owner-and-repo check.
pub open spec fn owner_repo_required() -> Seq<char> {
    "Owner and repo required (add GITHUB_OWNER to .env if owner omitted)"@
}

/// The owner a call names, or the configured one.
pub open spec fn owner_of(owner0: Seq<char>, a: JsonValue) -> Seq<char> {
    let o = text_or(a, seq!["owner"], ""@);
    if o.len() == 0 {
        owner0
    } else {
        o
    }
}

/// The page a call names (as a 32-bit number), or the first.
pub open spec fn page_of(a: JsonValue) -> u32 {
    match as_nat(lookup(a, seq!["page"])) {
        Some(n) => n as u32,
        None => 1,
    }
}

/// The pull request a call names: owner and repository fall back to the
/// configured ones, the number is required.
pub open spec fn pr_target(owner0: Seq<char>, repo0: Seq<char>, a: JsonValue) -> Result<
    (Seq<char>, Seq<char>, u64),
    Seq<char>,
> {
    let owner = owner_of(owner0, a);
    let r = text_or(a, seq!["repo"], ""@);
    let repo = if r.len() == 0 {
        repo0
    } else {
        r
    };
    if owner.len() == 0 || repo.len() == 0 {
        Err(owner_repo_required())
    } else {
        match as_nat(lookup(a, seq!["pr_number"])) {
            Some(n) => Ok((owner, repo, n)),
            None => Err("'pr_number' is required for this action"@),
        }
    }
}

/// How an authenticated call's arguments are read, given the configured
/// owner and repository.
pub open spec fn auth_decision(owner0: Seq<char>, repo0: Seq<char>, a: JsonValue) -> Result<
    TaskView,
    Seq<char>,
> {
    let action = text_or(a, seq!["action"], ""@);
    let owner = owner_of(owner0, a);
    let repo = text_or(a, seq!["repo"], ""@);
    if action == "notifications"@ {
        Ok(TaskView::Notifications)
    } else if action == "list_my_repos"@ {
        Ok(TaskView::MyRepos { page: page_of(a) })
    } else if action == "list_org_repos"@ {
        match text_at(a, seq!["org"]) {
            Some(org) => Ok(TaskView::OrgRepos { org, page: page_of(a) }),
            None => Err("'org' is required for list_org_repos"@),
        }
    } else if action == "actions"@ {
        if owner.len() == 0 || repo.len() == 0 {
            Err(owner_repo_required())
        } else {
            Ok(TaskView::Actions { owner, repo })
        }
    } else if action == "issues"@ {
        if owner.len() == 0 || repo.len() == 0 {
            Ok(
                TaskView::MyIssues {
                    filter: text_or(a, seq!["filter"], "assigned"@),
                    state: text_or(a, seq!["state"], "open"@),
                    page: page_of(a),
                },
            )
        } else {
            Ok(TaskView::RepoIssues { owner, repo })
        }
    } else if action == "events"@ {
        let u = text_or(a, seq!["username"], ""@);
        if u.len() == 0 {
            Err("Username required for events"@)
        } else {
            Ok(TaskView::Events { username: u })
        }
    } else if action == "pulls"@ {
        if owner.len() == 0 || repo.len() == 0 {
            Ok(TaskView::MyPulls { page: page_of(a) })
        } else {
            Ok(TaskView::RepoPulls { owner, repo })
        }
    } else if action == "followers"@ {
        Ok(TaskView::Followers)
    } else if action == "pr_details"@ || action == "pr_checks"@ || action == "pr_commits"@
        || action == "update_pr"@ {
        match pr_target(owner0, repo0, a) {
            Err(m) => Err(m),
            Ok((o, r, n)) => if action == "pr_details"@ {
                Ok(TaskView::PrDetails { owner: o, repo: r, number: n })
            } else if action == "pr_checks"@ {
                Ok(TaskView::PrChecks { owner: o, repo: r, number: n })
            } else if action == "pr_commits"@ {
                Ok(TaskView::PrCommits { owner: o, repo: r, number: n })
            } else {
                let title = text_at(a, seq!["title"]);
                let description = text_at(a, seq!["description"]);
                if title is None && description is None {
                    Err("At least one of 'title' or 'description' is required for update_pr"@)
                } else {
                    Ok(TaskView::UpdatePr { owner: o, repo: r, number: n, title, description })
                }
            },
        }
    } else {
        Err("Unknown action: "@ + action)
    }
}

/// The pull-request actions, which fall back to the configured repository.
pub open spec fn is_pr_action(action: Seq<char>) -> bool {
    action == "pr_details"@ || action == "pr_checks"@ || action == "pr_commits"@ || action == "update_pr"@
}

/// Law: for the pull-request actions a configured repository stands in for
/// an omitted `repo` argument. A call `a` that names no repository, on a
/// tool configured with `repo`, comes to the same decision (the same task,
/// so the same requests and the same answer) as the call `b` that differs
/// from `a` only by naming `repo`, on a tool configured with any repository.
pub proof fn law_configured_repo_stands_in(
    owner0: Seq<char>,
    repo0: Seq<char>,
    repo: Seq<char>,
    a: JsonValue,
    b: JsonValue,
)
    requires
        repo.len() > 0,
        is_pr_action(text_or(a, seq!["action"], ""@)),
        text_or(a, seq!["repo"], ""@).len() == 0,
        text_or(b, seq!["repo"], ""@) == repo,
        forall|k: Seq<char>| k != "repo"@ ==> #[trigger] get(b, k) == get(a, k),
    ensures
        auth_decision(owner0, repo, a) == auth_decision(owner0, repo0, b),
{
    reveal_strlit("repo");
    reveal_strlit("action");
    reveal_strlit("owner");
    reveal_strlit("pr_number");
    reveal_strlit("title");
    reveal_strlit("description");
    assert("action"@.len() != "repo"@.len() && "owner"@[0] != "repo"@[0]);
    assert(get(b, "action"@) == get(a, "action"@));
    assert(get(b, "owner"@) == get(a, "owner"@));
    assert(get(b, "pr_number"@) == get(a, "pr_number"@));
    assert(get(b, "title"@) == get(a, "title"@));
    assert(get(b, "description"@) == get(a, "description"@));
    assert(lookup(b, seq!["action"]) == lookup(a, seq!["action"]));
    assert(lookup(b, seq!["owner"]) == lookup(a, seq!["owner"]));
    assert(lookup(b, seq!["pr_number"]) == lookup(a, seq!["pr_number"]));
    assert(lookup(b, seq!["title"]) == lookup(a, seq!["title"]));
    assert(lookup(b, seq!["description"]) == lookup(a, seq!["description"]));
    assert(pr_target(owner0, repo, a) == pr_target(owner0, repo0, b));
    let action = text_or(a, seq!["action"], ""@);
    assert(action == text_or(b, seq!["action"], ""@));
    reveal_strlit("notifications");
    reveal_strlit("list_my_repos");
    reveal_strlit("list_org_repos");
    reveal_strlit("actions");
    reveal_strlit("issues");
    reveal_strlit("events");
    reveal_strlit("pulls");
    reveal_strlit("followers");
    reveal_strlit("pr_details");
    reveal_strlit("pr_checks");
    reveal_strlit("pr_commits");
    reveal_strlit("update_pr");
    assert(action != "notifications"@ && action != "list_my_repos"@ && action != "list_org_repos"@);
    assert(action != "actions"@ && action != "issues"@ && action != "events"@);
    assert(action != "pulls"@);
    assert("followers"@[0] != "pr_checks"@[0] && "followers"@[0] != "update_pr"@[0]);
    assert(action != "followers"@);
}

/// `{base}/repos/{owner}/{repo}`.
pub open spec fn repo_url(base: Seq<char>, owner: Seq<char>, repo: Seq<char>) -> Seq<char> {
    base + "/repos/"@ + owner + "/"@ + repo
}

/// `{base}/repos/{owner}/{repo}/pulls/{number}`.
pub open spec fn pull_url(base: Seq<char>, owner: Seq<char>, repo: Seq<char>, n: u64) -> Seq<char> {
    repo_url(base, owner, repo) + "/pulls/"@ + decimal(n as nat)
}

/// The issues of the authenticated user.
pub open spec fn my_issues_view(base: Seq<char>, filter: Seq<char>, state: Seq<char>, page: u32) -> RequestView {
    get_view(
        base + "/issues"@,
        seq![
            ("filter"@, filter),
            ("state"@, state),
            ("sort"@, "updated"@),
            ("per_page"@, "100"@),
            ("page"@, decimal(page as nat)),
        ],
        "Failed to fetch authenticated issues"@,
        "Failed to parse issues"@,
        None,
    )
}

/// The first request of a task.
pub open spec fn task_request(base: Seq<char>, t: TaskView) -> RequestView {
    match t {
        TaskView::Notifications => get_view(
            base + "/notifications"@,
            seq![("all"@, "false"@), ("per_page"@, "10"@)],
            "Failed to fetch notifications"@,
            "Failed to parse notifications"@,
            None,
        ),
        TaskView::MyRepos { page } => get_view(
            base + "/user/repos"@,
            seq![
                ("sort"@, "updated"@),
                ("per_page"@, "100"@),
                ("type"@, "owner"@),
                ("page"@, decimal(page as nat)),
            ],
            "Failed to fetch repositories"@,
            "Failed to parse repositories"@,
            Some(
                "Access Forbidden (403). Check that your GITHUB_TOKEN has the 'metadata' or 'contents' scope enabled."@,
            ),
        ),
        TaskView::OrgRepos { org, page } => get_view(
            base + "/orgs/"@ + org + "/repos"@,
            seq![("sort"@, "updated"@), ("per_page"@, "100"@), ("page"@, decimal(page as nat))],
            "Failed to fetch organization repositories"@,
            "Failed to parse organization repositories"@,
            None,
        ),
        TaskView::Actions { owner, repo } => get_view(
            repo_url(base, owner, repo) + "/actions/runs"@,
            seq![("per_page"@, "5"@)],
            "Failed to fetch workflow runs"@,
            "Failed to parse workflow runs"@,
            Some(
                "Access Forbidden (403). For Actions, ensure your GITHUB_TOKEN has the 'actions' scope (Read-only)."@,
            ),
        ),
        TaskView::RepoIssues { owner, repo } => get_view(
            repo_url(base, owner, repo) + "/issues"@,
            seq![("state"@, "open"@), ("sort"@, "updated"@), ("per_page"@, "5"@)],
            "Failed to fetch issues"@,
            "Failed to parse issues"@,
            None,
        ),
        TaskView::MyIssues { filter, state, page } => my_issues_view(base, filter, state, page),
        TaskView::Events { username } => get_view(
            base + "/users/"@ + username + "/events"@,
            seq![("per_page"@, "5"@)],
            "Failed to fetch events"@,
            "Failed to parse events"@,
            None,
        ),
        TaskView::RepoPulls { owner, repo } => get_view(
            repo_url(base, owner, repo) + "/pulls"@,
            seq![
                ("state"@, "open"@),
                ("per_page"@, "5"@),
                ("sort"@, "updated"@),
                ("direction"@, "desc"@),
            ],
            "Failed to list pull requests"@,
            "Failed to parse pulls"@,
            None,
        ),
        TaskView::MyPulls { page } => my_issues_view(base, "assigned"@, "open"@, page),
        TaskView::Followers => get_view(
            base + "/user"@,
            Seq::empty(),
            "Failed to fetch authenticated user profile"@,
            "Failed to parse user profile"@,
            None,
        ),
        TaskView::PrDetails { owner, repo, number } => get_view(
            pull_url(base, owner, repo, number),
            Seq::empty(),
            "Failed to fetch pull request"@,
            "Failed to parse pull request"@,
            None,
        ),
        TaskView::PrChecks { owner, repo, number } => get_view(
            pull_url(base, owner, repo, number),
            Seq::empty(),
            "Failed to fetch pull request"@,
            "Failed to parse pull request"@,
            None,
        ),
        TaskView::PrCommits { owner, repo, number } => get_view(
            pull_url(base, owner, repo, number) + "/commits"@,
            seq![("per_page"@, "100"@)],
            "Failed to fetch pull request commits"@,
            "Failed to parse pull request commits"@,
            None,
        ),
        TaskView::UpdatePr { owner, repo, number, title, description } => RequestView {
            verb: HttpVerb::Patch,
            url: pull_url(base, owner, repo, number),
            query: Seq::empty(),
            patch_title: title,
            patch_body: description,
            send_context: "Failed to update pull request"@,
            parse_context: "Failed to parse updated pull request"@,
            forbidden: None,
        },
    }
}

/// The combined status of a commit.
pub open spec fn status_request(base: Seq<char>, owner: Seq<char>, repo: Seq<char>, sha: Seq<char>) -> RequestView {
    get_view(
        repo_url(base, owner, repo) + "/commits/"@ + sha + "/status"@,
        Seq::empty(),
        "Failed to fetch combined status"@,
        "Failed to parse combined status"@,
        None,
    )
}

/// The check runs of a commit.
pub open spec fn checks_request(base: Seq<char>, owner: Seq<char>, repo: Seq<char>, sha: Seq<char>) -> RequestView {
    get_view(
        repo_url(base, owner, repo) + "/commits/"@ + sha + "/check-runs"@,
        Seq::empty(),
        "Failed to fetch check runs"@,
        "Failed to parse check runs"@,
        None,
    )
}

/// `#{n} ({owner}/{repo})`.
pub open spec fn pr_label(owner: Seq<char>, repo: Seq<char>, n: u64) -> Seq<char> {
    "#"@ + decimal(n as nat) + " ("@ + owner + "/"@ + repo + ")"@
}

/// The answer to a task whose reply was `d` (pull-request checks aside).
pub open spec fn task_text(t: TaskView, d: JsonValue) -> Seq<char> {
    match t {
        TaskView::Notifications => "🔔 **Your Notifications**\n\n"@ + notifications_text(d),
        TaskView::MyRepos { page } => "📂 **Your Managed Repositories (Page "@ + decimal(page as nat)
            + ")**\n\n"@ + list_or(GhItem::RepoShort, repo_items(d), "No repositories found."@),
        TaskView::OrgRepos { org, page } => "🏢 **Repositories for Organization: "@ + org
            + " (Page "@ + decimal(page as nat) + ")**\n\n"@ + list_or(
            GhItem::RepoShort,
            repo_items(d),
            "No repositories found."@,
        ),
        TaskView::Actions { owner, repo } => "🏃 **Workflows for "@ + owner + "/"@ + repo
            + "**\n\n"@ + list_or(
            GhItem::WorkflowRun,
            crate::json::as_list(crate::json::get(d, "workflow_runs"@)),
            "No workflow runs found."@,
        ),
        TaskView::RepoIssues { owner, repo } => "🐛 **Issues for "@ + owner + "/"@ + repo
            + "**\n\n"@ + list_or(GhItem::Issue, array_of(d), "No issues found."@),
        TaskView::MyIssues { filter, state, page } => "🐛 **Issues ("@ + filter + ", "@ + state
            + ") Page "@ + decimal(page as nat) + "**\n\n"@ + list_or(
            GhItem::Issue,
            array_of(d),
            "No issues found."@,
        ),
        TaskView::Events { username } => "📅 **Events for "@ + username + "**\n\n"@ + list_or(
            GhItem::Event,
            array_of(d),
            "No events found."@,
        ),
        TaskView::RepoPulls { owner, repo } => "🔃 **Pull Requests for "@ + owner + "/"@ + repo
            + "**\n\n"@ + list_or(GhItem::Pull, array_of(d), "No pull requests found."@),
        TaskView::MyPulls { page } => "🔃 **Your Pull Requests & Issues**\n\n"@ + list_or(
            GhItem::Issue,
            array_of(d),
            "No issues found."@,
        ),
        TaskView::Followers => "👥 **Followers**\n\n"@ + followers_text(d),
        TaskView::PrDetails { owner, repo, number } => "🔃 **PR #"@ + decimal(number as nat)
            + " for "@ + owner + "/"@ + repo + "**\n\n"@ + pr_details_text(d),
        TaskView::PrChecks { owner, repo, number } => Seq::empty(),
        TaskView::PrCommits { owner, repo, number } => "📜 **Commits for PR "@ + pr_label(
            owner,
            repo,
            number,
        ) + "**\n\n"@ + list_or(GhItem::Commit, array_of(d), "No commits found."@),
        TaskView::UpdatePr { owner, repo, number, title, description } => "✏️ **Updated PR "@
            + pr_label(owner, repo, number) + "**\n\n"@ + pr_details_text(d),
    }
}

/// The next step once the reply to the request a wait was for came back as
/// `outcome`.
pub open spec fn resume_step(base: Seq<char>, t: TaskView, stage: StageView, outcome: Result<
    JsonValue,
    Seq<char>,
>) -> StepView {
    match stage {
        StageView::First => match t {
            TaskView::PrChecks { owner, repo, number } => match outcome {
                Err(e) => StepView::Done("Failed: "@ + e),
                Ok(pr) => {
                    let sha = text_or(pr, seq!["head", "sha"], ""@);
                    if sha.len() == 0 {
                        StepView::Done("Failed: could not determine the PR's head commit SHA"@)
                    } else {
                        StepView::Send(
                            status_request(base, owner, repo, sha),
                            t,
                            StageView::Status { sha },
                        )
                    }
                },
            },
            _ => match outcome {
                Err(e) => StepView::Done("Failed: "@ + e),
                Ok(d) => StepView::Done(task_text(t, d)),
            },
        },
        StageView::Status { sha } => match t {
            TaskView::PrChecks { owner, repo, number } => StepView::Send(
                checks_request(base, owner, repo, sha),
                t,
                StageView::Checks { sha, status: outcome },
            ),
            _ => StepView::Done(Seq::empty()),
        },
        StageView::Checks { sha, status } => match t {
            TaskView::PrChecks { owner, repo, number } => match status {
                Err(e) => StepView::Done("Failed: "@ + e),
                Ok(s) => match outcome {
                    Err(e) => StepView::Done("Failed: "@ + e),
                    Ok(c) => StepView::Done(
                        "✅ **CI Status for PR "@ + pr_label(owner, repo, number) + "**\n\n"@
                            + pr_checks_text(s, c),
                    ),
                },
            },
            _ => StepView::Done(Seq::empty()),
        },
    }
}

/// GitHub tool for the authenticated user's information.
pub struct GitHubAuthenticatedTool {
    pub metadata: ToolMetadata,
    pub token: String,
    /// The default owner (empty for none).
    pub owner: String,
    /// The default repository (empty for none).
    pub repo: String,
    pub base_url: String,
}

impl GitHubAuthenticatedTool {
    /// An authenticated tool from the configured `GITHUB_TOKEN`,
    /// `GITHUB_OWNER` and `GITHUB_REPO` values (empty when unset).
    pub fn new(raw_token: &str, raw_owner: &str, raw_repo: &str) -> (t: Self)
        ensures
            t.token@ == normalized_token(raw_token@),
            t.owner@ == trim(raw_owner@),
            t.repo@ == trim(raw_repo@),
            t.base_url@ == GITHUB_API_URL@,
            metadata_is(
                t.metadata,
                "github_authenticated"@,
                "GitHub Authenticated"@,
                ToolType::GitHubAuthenticated,
                "Manage issues, PRs, and notifications"@,
                ToolCategory::Development,
            ),
    {
        GitHubAuthenticatedTool {
            metadata: ToolMetadata::from_parts(
                "github_authenticated",
                "GitHub Authenticated",
                ToolType::GitHubAuthenticated,
                "Manage issues, PRs, and notifications",
                ToolCategory::Development,
            ),
            token: normalize_token(raw_token),
            owner: crate::text::trim_str(raw_owner),
            repo: crate::text::trim_str(raw_repo),
            base_url: copy_str(GITHUB_API_URL),
        }
    }

    /// A tool with this token and owner, no default repository, talking to
    /// `base_url`.
    pub fn with_base_url(base_url: &str, token: &str, owner: &str) -> (t: Self)
        ensures
            t.base_url@ == base_url@,
            t.token@ == token@,
            t.owner@ == owner@,
            t.repo@.len() == 0,
            t.metadata.id@ == "github_authenticated"@,
    {
        let mut t = Self::new("", "", "");
        t.token = copy_str(token);
        t.owner = copy_str(owner);
        t.repo = String::new();
        t.base_url = copy_str(base_url);
        t
    }

    /// The same tool with a default repository.
    pub fn with_repo(self, repo: &str) -> (t: Self)
        ensures
            t.repo@ == repo@,
            t.token == self.token,
            t.owner == self.owner,
            t.base_url == self.base_url,
            t.metadata == self.metadata,
    {
        GitHubAuthenticatedTool { repo: copy_str(repo), ..self }
    }

    /// The tool is available only with a token.
    pub fn is_available(&self) -> (b: bool)
        ensures
            b == (self.token@.len() > 0),
    {
        !crate::text::is_empty_str(self.token.as_str())
    }

    /// The first step of a call: its arguments are read (`None` when they
    /// were not JSON); without a token the call is answered at once.
    pub fn start(&self, args: Option<&JsonValue>) -> (r: Result<AuthStep, ToolError>)
        ensures
            match args {
                None => r matches Err(e) && e.message@ == "Failed to parse arguments"@,
                Some(a) => if self.token@.len() == 0 {
                    r matches Ok(s) && step_view(s) == StepView::Done(
                        "GITHUB_TOKEN is not set. This tool requires authentication."@,
                    )
                } else {
                    match auth_decision(self.owner@, self.repo@, *a) {
                        Err(m) => r matches Err(e) && e.message@ == m,
                        Ok(t) => r matches Ok(s) && step_view(s) == StepView::Send(
                            task_request(self.base_url@, t),
                            t,
                            StageView::First,
                        ),
                    }
                },
            },
    {
        let a = match args {
            Some(a) => a,
            None => {
                return Err(ToolError::msg("Failed to parse arguments"));
            },
        };
        if !self.is_available() {
            return Ok(
                AuthStep::Done(
                    copy_str("GITHUB_TOKEN is not set. This tool requires authentication."),
                ),
            );
        }
        let t = self.decide(a)?;
        let req = self.first_request(&t);
        Ok(AuthStep::Send(req, AuthWait { task: t, stage: AuthStage::First }))
    }

    /// The task a call's arguments ask for.
    pub fn decide(&self, a: &JsonValue) -> (r: Result<AuthTask, ToolError>)
        ensures
            match auth_decision(self.owner@, self.repo@, *a) {
                Err(m) => r matches Err(e) && e.message@ == m,
                Ok(t) => r matches Ok(task) && task_view(task) == t,
            },
    {
        let action = a.text1_or("action", "");
        let owner_arg = a.text1_or("owner", "");
        let owner = if crate::text::is_empty_str(owner_arg.as_str()) {
            self.owner.clone()
        } else {
            owner_arg
        };
        let repo = a.text1_or("repo", "");
        let page: u32 = match a.u64_1("page") {
            Some(n) => n as u32,
            None => 1,
        };
        let no_target = crate::text::is_empty_str(owner.as_str()) || crate::text::is_empty_str(repo.as_str());
        let act = action.as_str();
        if crate::text::str_eq(act, "notifications") {
            Ok(AuthTask::Notifications)
        } else if crate::text::str_eq(act, "list_my_repos") {
            Ok(AuthTask::MyRepos { page })
        } else if crate::text::str_eq(act, "list_org_repos") {
            match a.text1("org") {
                Some(org) => Ok(AuthTask::OrgRepos { org: copy_str(org), page }),
                None => Err(ToolError::msg("'org' is required for list_org_repos")),
            }
        } else if crate::text::str_eq(act, "actions") {
            if no_target {
                Err(
                    ToolError::msg(
                        "Owner and repo required (add GITHUB_OWNER to .env if owner omitted)",
                    ),
                )
            } else {
                Ok(AuthTask::Actions { owner, repo })
            }
        } else if crate::text::str_eq(act, "issues") {
            if no_target {
                Ok(
                    AuthTask::MyIssues {
                        filter: a.text1_or("filter", "assigned"),
                        state: a.text1_or("state", "open"),
                        page,
                    },
                )
            } else {
                Ok(AuthTask::RepoIssues { owner, repo })
            }
        } else if crate::text::str_eq(act, "events") {
            let u = a.text1_or("username", "");
            if crate::text::is_empty_str(u.as_str()) {
                Err(ToolError::msg("Username required for events"))
            } else {
                Ok(AuthTask::Events { username: u })
            }
        } else if crate::text::str_eq(act, "pulls") {
            if no_target {
                Ok(AuthTask::MyPulls { page })
            } else {
                Ok(AuthTask::RepoPulls { owner, repo })
            }
        } else if crate::text::str_eq(act, "followers") {
            Ok(AuthTask::Followers)
        } else if crate::text::str_eq(act, "pr_details") || crate::text::str_eq(act, "pr_checks")
            || crate::text::str_eq(act, "pr_commits") || crate::text::str_eq(act, "update_pr") {
            let (o, r, n) = self.pr_target(a)?;
            if crate::text::str_eq(act, "pr_details") {
                Ok(AuthTask::PrDetails { owner: o, repo: r, number: n })
            } else if crate::text::str_eq(act, "pr_checks") {
                Ok(AuthTask::PrChecks { owner: o, repo: r, number: n })
            } else if crate::text::str_eq(act, "pr_commits") {
                Ok(AuthTask::PrCommits { owner: o, repo: r, number: n })
            } else {
                let title = a.text1("title");
                let description = a.text1("description");
                if title.is_none() && description.is_none() {
                    Err(
                        ToolError::msg(
                            "At least one of 'title' or 'description' is required for update_pr",
                        ),
                    )
                } else {
                    Ok(
                        AuthTask::UpdatePr {
                            owner: o,
                            repo: r,
                            number: n,
                            title: match title {
                                Some(t) => Some(copy_str(t)),
                                None => None,
                            },
                            description: match description {
                                Some(d) => Some(copy_str(d)),
                                None => None,
                            },
                        },
                    )
                }
            }
        } else {
            let mut m = copy_str("Unknown action: ");
            m.append(act);
            Err(ToolError::new(m))
        }
    }

    /// The owner, repository and number of the pull request a call names.
    pub fn pr_target(&self, a: &JsonValue) -> (r: Result<(String, String, u64), ToolError>)
        ensures
            match pr_target(self.owner@, self.repo@, *a) {
                Err(m) => r matches Err(e) && e.message@ == m,
                Ok(t) => r matches Ok(x) && x.0@ == t.0 && x.1@ == t.1 && x.2 == t.2,
            },
    {
        let owner_arg = a.text1_or("owner", "");
        let owner = if crate::text::is_empty_str(owner_arg.as_str()) {
            self.owner.clone()
        } else {
            owner_arg
        };
        let repo_arg = a.text1_or("repo", "");
        let repo = if crate::text::is_empty_str(repo_arg.as_str()) {
            self.repo.clone()
        } else {
            repo_arg
        };
        if crate::text::is_empty_str(owner.as_str()) || crate::text::is_empty_str(repo.as_str()) {
            return Err(
                ToolError::msg("Owner and repo required (add GITHUB_OWNER to .env if owner omitted)"),
            );
        }
        match a.u64_1("pr_number") {
            Some(n) => Ok((owner, repo, n)),
            None => Err(ToolError::msg("'pr_number' is required for this action")),
        }
    }

    /// `{base}/repos/{owner}/{repo}`.
    fn repo_url(&self, owner: &str, repo: &str) -> (r: String)
        ensures
            r@ == repo_url(self.base_url@, owner@, repo@),
    {
        let mut u = self.base_url.clone();
        u.append("/repos/");
        u.append(owner);
        u.append("/");
        u.append(repo);
        u
    }

    /// `{base}/repos/{owner}/{repo}/pulls/{number}`.
    fn pull_url(&self, owner: &str, repo: &str, n: u64) -> (r: String)
        ensures
            r@ == pull_url(self.base_url@, owner@, repo@, n),
    {
        let mut u = self.repo_url(owner, repo);
        u.append("/pulls/");
        crate::text::push_decimal(&mut u, n);
        u
    }

    fn base_plus(&self, path: &str) -> (r: String)
        ensures
            r@ == self.base_url@ + path@,
    {
        let mut u = self.base_url.clone();
        u.append(path);
        u
    }

    fn my_issues_request(&self, filter: &str, state: &str, page: u32) -> (r: GitHubRequest)
        ensures
            request_view(r) == my_issues_view(self.base_url@, filter@, state@, page),
    {
        let mut q: Vec<(String, String)> = Vec::new();
        q.push(pair("filter", filter));
        q.push(pair("state", state));
        q.push(pair("sort", "updated"));
        q.push(pair("per_page", "100"));
        q.push((copy_str("page"), crate::text::u64_to_string(page as u64)));
        let r = build_request(
            HttpVerb::Get,
            self.base_plus("/issues"),
            q,
            "Failed to fetch authenticated issues",
            "Failed to parse issues",
            None,
        );
        assert(request_view(r).query =~= my_issues_view(self.base_url@, filter@, state@, page).query);
        r
    }

    /// The combined-status request of a commit.
    pub fn status_request(&self, owner: &str, repo: &str, sha: &str) -> (r: GitHubRequest)
        ensures
            request_view(r) == status_request(self.base_url@, owner@, repo@, sha@),
    {
        let mut u = self.repo_url(owner, repo);
        u.append("/commits/");
        u.append(sha);
        u.append("/status");
        let r = build_request(
            HttpVerb::Get,
            u,
            Vec::new(),
            "Failed to fetch combined status",
            "Failed to parse combined status",
            None,
        );
        assert(request_view(r).query =~= Seq::<(Seq<char>, Seq<char>)>::empty());
        r
    }

    /// The check-runs request of a commit.
    pub fn checks_request(&self, owner: &str, repo: &str, sha: &str) -> (r: GitHubRequest)
        ensures
            request_view(r) == checks_request(self.base_url@, owner@, repo@, sha@),
    {
        let mut u = self.repo_url(owner, repo);
        u.append("/commits/");
        u.append(sha);
        u.append("/check-runs");
        let r = build_request(
            HttpVerb::Get,
            u,
            Vec::new(),
            "Failed to fetch check runs",
            "Failed to parse check runs",
            None,
        );
        assert(request_view(r).query =~= Seq::<(Seq<char>, Seq<char>)>::empty());
        r
    }

    /// The first request of a task.
    pub fn first_request(&self, t: &AuthTask) -> (r: GitHubRequest)
        ensures
            request_view(r) == task_request(self.base_url@, task_view(*t)),
    {
        let none: Vec<(String, String)> = Vec::new();
        assert(none@.map_values(|p: (String, String)| (p.0@, p.1@)) =~= Seq::<(Seq<char>, Seq<char>)>::empty());
        match t {
            AuthTask::Notifications => {
                let mut q: Vec<(String, String)> = Vec::new();
                q.push(pair("all", "false"));
                q.push(pair("per_page", "10"));
                let r = build_request(
                    HttpVerb::Get,
                    self.base_plus("/notifications"),
                    q,
                    "Failed to fetch notifications",
                    "Failed to parse notifications",
                    None,
                );
                assert(request_view(r).query =~= seq![("all"@, "false"@), ("per_page"@, "10"@)]);
                r
            },
            AuthTask::MyRepos { page } => {
                let mut q: Vec<(String, String)> = Vec::new();
                q.push(pair("sort", "updated"));
                q.push(pair("per_page", "100"));
                q.push(pair("type", "owner"));
                q.push((copy_str("page"), crate::text::u64_to_string(*page as u64)));
                let r = build_request(
                    HttpVerb::Get,
                    self.base_plus("/user/repos"),
                    q,
                    "Failed to fetch repositories",
                    "Failed to parse repositories",
                    Some(
                        "Access Forbidden (403). Check that your GITHUB_TOKEN has the 'metadata' or 'contents' scope enabled.",
                    ),
                );
                assert(request_view(r).query =~= seq![
                    ("sort"@, "updated"@),
                    ("per_page"@, "100"@),
                    ("type"@, "owner"@),
                    ("page"@, decimal(*page as nat)),
                ]);
                r
            },
            AuthTask::OrgRepos { org, page } => {
                let mut u = self.base_plus("/orgs/");
                u.append(org.as_str());
                u.append("/repos");
                let mut q: Vec<(String, String)> = Vec::new();
                q.push(pair("sort", "updated"));
                q.push(pair("per_page", "100"));
                q.push((copy_str("page"), crate::text::u64_to_string(*page as u64)));
                let r = build_request(
                    HttpVerb::Get,
                    u,
                    q,
                    "Failed to fetch organization repositories",
                    "Failed to parse organization repositories",
                    None,
                );
                assert(request_view(r).query =~= seq![
                    ("sort"@, "updated"@),
                    ("per_page"@, "100"@),
                    ("page"@, decimal(*page as nat)),
                ]);
                r
            },
            AuthTask::Actions { owner, repo } => {
                let mut u = self.repo_url(owner.as_str(), repo.as_str());
                u.append("/actions/runs");
                let mut q: Vec<(String, String)> = Vec::new();
                q.push(pair("per_page", "5"));
                let r = build_request(
                    HttpVerb::Get,
                    u,
                    q,
                    "Failed to fetch workflow runs",
                    "Failed to parse workflow runs",
                    Some(
                        "Access Forbidden (403). For Actions, ensure your GITHUB_TOKEN has the 'actions' scope (Read-only).",
                    ),
                );
                assert(request_view(r).query =~= seq![("per_page"@, "5"@)]);
                r
            },
            AuthTask::RepoIssues { owner, repo } => {
                let mut u = self.repo_url(owner.as_str(), repo.as_str());
                u.append("/issues");
                let mut q: Vec<(String, String)> = Vec::new();
                q.push(pair("state", "open"));
                q.push(pair("sort", "updated"));
                q.push(pair("per_page", "5"));
                let r = build_request(HttpVerb::Get, u, q, "Failed to fetch issues", "Failed to parse issues", None);
                assert(request_view(r).query =~= seq![
                    ("state"@, "open"@),
                    ("sort"@, "updated"@),
                    ("per_page"@, "5"@),
                ]);
                r
            },
            AuthTask::MyIssues { filter, state, page } => self.my_issues_request(
                filter.as_str(),
                state.as_str(),
                *page,
            ),
            AuthTask::Events { username } => {
                let mut u = self.base_plus("/users/");
                u.append(username.as_str());
                u.append("/events");
                let mut q: Vec<(String, String)> = Vec::new();
                q.push(pair("per_page", "5"));
                let r = build_request(HttpVerb::Get, u, q, "Failed to fetch events", "Failed to parse events", None);
                assert(request_view(r).query =~= seq![("per_page"@, "5"@)]);
                r
            },
            AuthTask::RepoPulls { owner, repo } => {
                let mut u = self.repo_url(owner.as_str(), repo.as_str());
                u.append("/pulls");
                let mut q: Vec<(String, String)> = Vec::new();
                q.push(pair("state", "open"));
                q.push(pair("per_page", "5"));
                q.push(pair("sort", "updated"));
                q.push(pair("direction", "desc"));
                let r = build_request(
                    HttpVerb::Get,
                    u,
                    q,
                    "Failed to list pull requests",
                    "Failed to parse pulls",
                    None,
                );
                assert(request_view(r).query =~= seq![
                    ("state"@, "open"@),
                    ("per_page"@, "5"@),
                    ("sort"@, "updated"@),
                    ("direction"@, "desc"@),
                ]);
                r
            },
            AuthTask::MyPulls { page } => self.my_issues_request("assigned", "open", *page),
            AuthTask::Followers => build_request(
                HttpVerb::Get,
                self.base_plus("/user"),
                none,
                "Failed to fetch authenticated user profile",
                "Failed to parse user profile",
                None,
            ),
            AuthTask::PrDetails { owner, repo, number } => build_request(
                HttpVerb::Get,
                self.pull_url(owner.as_str(), repo.as_str(), *number),
                none,
                "Failed to fetch pull request",
                "Failed to parse pull request",
                None,
            ),
            AuthTask::PrChecks { owner, repo, number } => build_request(
                HttpVerb::Get,
                self.pull_url(owner.as_str(), repo.as_str(), *number),
                none,
                "Failed to fetch pull request",
                "Failed to parse pull request",
                None,
            ),
            AuthTask::PrCommits { owner, repo, number } => {
                let mut u = self.pull_url(owner.as_str(), repo.as_str(), *number);
                u.append("/commits");
                let mut q: Vec<(String, String)> = Vec::new();
                q.push(pair("per_page", "100"));
                let r = build_request(
                    HttpVerb::Get,
                    u,
                    q,
                    "Failed to fetch pull request commits",
                    "Failed to parse pull request commits",
                    None,
                );
                assert(request_view(r).query =~= seq![("per_page"@, "100"@)]);
                r
            },
            AuthTask::UpdatePr { owner, repo, number, title, description } => {
                let r = GitHubRequest {
                    verb: HttpVerb::Patch,
                    url: self.pull_url(owner.as_str(), repo.as_str(), *number),
                    query: none,
                    patch_title: title.clone(),
                    patch_body: description.clone(),
                    send_context: copy_str("Failed to update pull request"),
                    parse_context: copy_str("Failed to parse updated pull request"),
                    forbidden: None,
                };
                r
            },
        }
    }

    /// The answer to a task whose reply was `d` (pull-request checks aside).
    pub fn task_text(t: &AuthTask, d: &JsonValue) -> (r: String)
        ensures
            r@ == task_text(task_view(*t), *d),
    {
        match t {
            AuthTask::Notifications => {
                let mut s = copy_str("🔔 **Your Notifications**\n\n");
                s.append(format_notifications(d).as_str());
                s
            },
            AuthTask::MyRepos { page } => {
                let mut s = copy_str("📂 **Your Managed Repositories (Page ");
                crate::text::push_decimal(&mut s, *page as u64);
                s.append(")**\n\n");
                s.append(format_repo_list_short(d).as_str());
                s
            },
            AuthTask::OrgRepos { org, page } => {
                let mut s = copy_str("🏢 **Repositories for Organization: ");
                s.append(org.as_str());
                s.append(" (Page ");
                crate::text::push_decimal(&mut s, *page as u64);
                s.append(")**\n\n");
                s.append(format_repo_list_short(d).as_str());
                s
            },
            AuthTask::Actions { owner, repo } => {
                let mut s = copy_str("🏃 **Workflows for ");
                s.append(owner.as_str());
                s.append("/");
                s.append(repo.as_str());
                s.append("**\n\n");
                s.append(format_workflow_runs(d).as_str());
                s
            },
            AuthTask::RepoIssues { owner, repo } => {
                let mut s = copy_str("🐛 **Issues for ");
                s.append(owner.as_str());
                s.append("/");
                s.append(repo.as_str());
                s.append("**\n\n");
                s.append(format_issues(d).as_str());
                s
            },
            AuthTask::MyIssues { filter, state, page } => {
                let mut s = copy_str("🐛 **Issues (");
                s.append(filter.as_str());
                s.append(", ");
                s.append(state.as_str());
                s.append(") Page ");
                crate::text::push_decimal(&mut s, *page as u64);
                s.append("**\n\n");
                s.append(format_issues(d).as_str());
                s
            },
            AuthTask::Events { username } => {
                let mut s = copy_str("📅 **Events for ");
                s.append(username.as_str());
                s.append("**\n\n");
                s.append(format_events(d).as_str());
                s
            },
            AuthTask::RepoPulls { owner, repo } => {
                let mut s = copy_str("🔃 **Pull Requests for ");
                s.append(owner.as_str());
                s.append("/");
                s.append(repo.as_str());
                s.append("**\n\n");
                s.append(format_pulls(d).as_str());
                s
            },
            AuthTask::MyPulls { page } => {
                let mut s = copy_str("🔃 **Your Pull Requests & Issues**\n\n");
                s.append(format_issues(d).as_str());
                s
            },
            AuthTask::Followers => {
                let mut s = copy_str("👥 **Followers**\n\n");
                s.append(format_followers(d).as_str());
                s
            },
            AuthTask::PrDetails { owner, repo, number } => {
                let mut s = copy_str("🔃 **PR #");
                crate::text::push_decimal(&mut s, *number);
                s.append(" for ");
                s.append(owner.as_str());
                s.append("/");
                s.append(repo.as_str());
                s.append("**\n\n");
                s.append(format_pr_details(d).as_str());
                s
            },
            AuthTask::PrChecks { .. } => String::new(),
            AuthTask::PrCommits { owner, repo, number } => {
                let mut s = copy_str("📜 **Commits for PR ");
                push_pr_label(&mut s, owner.as_str(), repo.as_str(), *number);
                s.append("**\n\n");
                s.append(format_pr_commits(d).as_str());
                s
            },
            AuthTask::UpdatePr { owner, repo, number, .. } => {
                let mut s = copy_str("✏️ **Updated PR ");
                push_pr_label(&mut s, owner.as_str(), repo.as_str(), *number);
                s.append("**\n\n");
                s.append(format_pr_details(d).as_str());
                s
            },
        }
    }

    /// The next step once the reply to `req`, the request of `wait`, came
    /// back.
    pub fn resume(&self, req: &GitHubRequest, wait: AuthWait, reply: ApiReply) -> (r: AuthStep)
        ensures
            step_view(r) == resume_step(
                self.base_url@,
                task_view(wait.task),
                stage_view(wait.stage),
                reply_result(request_view(*req), reply),
            ),
    {
        let ghost tv = task_view(wait.task);
        let ghost sv = stage_view(wait.stage);
        let outcome = owned_outcome(req, reply);
        let AuthWait { task, stage } = wait;
        match stage {
            AuthStage::First => match &task {
                AuthTask::PrChecks { owner, repo, number } => match outcome {
                    Err(e) => AuthStep::Done(failed(e.as_str())),
                    Ok(pr) => {
                        let sha = pr.text2_or("head", "sha", "");
                        if crate::text::is_empty_str(sha.as_str()) {
                            AuthStep::Done(
                                copy_str("Failed: could not determine the PR's head commit SHA"),
                            )
                        } else {
                            let next = self.status_request(owner.as_str(), repo.as_str(), sha.as_str());
                            let w = AuthWait { task: AuthTask::PrChecks { owner: owner.clone(), repo: repo.clone(), number: *number }, stage: AuthStage::Status { sha } };
                            AuthStep::Send(next, w)
                        }
                    },
                },
                _ => match outcome {
                    Err(e) => AuthStep::Done(failed(e.as_str())),
                    Ok(d) => AuthStep::Done(Self::task_text(&task, &d)),
                },
            },
            AuthStage::Status { sha } => match &task {
                AuthTask::PrChecks { owner, repo, number } => {
                    let next = self.checks_request(owner.as_str(), repo.as_str(), sha.as_str());
                    let w = AuthWait {
                        task: AuthTask::PrChecks { owner: owner.clone(), repo: repo.clone(), number: *number },
                        stage: AuthStage::Checks { sha, status: outcome },
                    };
                    AuthStep::Send(next, w)
                },
                _ => AuthStep::Done(String::new()),
            },
            AuthStage::Checks { sha, status } => match &task {
                AuthTask::PrChecks { owner, repo, number } => match status {
                    Err(e) => AuthStep::Done(failed(e.as_str())),
                    Ok(st) => match outcome {
                        Err(e) => AuthStep::Done(failed(e.as_str())),
                        Ok(c) => {
                            let mut s = copy_str("✅ **CI Status for PR ");
                            push_pr_label(&mut s, owner.as_str(), repo.as_str(), *number);
                            s.append("**\n\n");
                            s.append(format_pr_checks(&st, &c).as_str());
                            AuthStep::Done(s)
                        },
                    },
                },
                _ => AuthStep::Done(String::new()),
            },
        }
    }
}

/// `Failed: {e}`.
fn failed(e: &str) -> (r: String)
    ensures
        r@ == "Failed: "@ + e@,
{
    let mut s = copy_str("Failed: ");
    s.append(e);
    s
}

fn push_pr_label(out: &mut String, owner: &str, repo: &str, n: u64)
    ensures
        final(out)@ == old(out)@ + pr_label(owner@, repo@, n),
{
    out.append("#");
    crate::text::push_decimal(out, n);
    out.append(" (");
    out.append(owner);
    out.append("/");
    out.append(repo);
    out.append(")");
}

/// What a reply comes to, taking the JSON out of it.
fn owned_outcome(req: &GitHubRequest, reply: ApiReply) -> (r: Result<JsonValue, String>)
    ensures
        match reply_result(request_view(*req), reply) {
            Ok(d) => r == Ok::<JsonValue, String>(d),
            Err(m) => r matches Err(s) && s@ == m,
        },
{
    match reply {
        ApiReply::Json(v) => Ok(v),
        other => match reply_outcome(req, &other) {
            Ok(_) => Err(String::new()),
            Err(m) => Err(m),
        },
    }
}

/// How many more requests a call at this stage may still send.
pub open spec fn stage_rank(s: StageView) -> nat {
    match s {
        StageView::First => 2,
        StageView::Status { .. } => 1,
        StageView::Checks { .. } => 0,
    }
}

/// An authenticated call always comes to an answer: each reply either
/// finishes the call or moves it to a later stage, so no call sends more
/// than three requests, and only a pull request's CI check sends more than
/// one.
pub proof fn law_authenticated_calls_finish(
    base: Seq<char>,
    t: TaskView,
    stage: StageView,
    outcome: Result<JsonValue, Seq<char>>,
)
    ensures
        resume_step(base, t, stage, outcome) matches StepView::Send(_, _, next) ==> stage_rank(next)
            < stage_rank(stage),
        resume_step(base, t, stage, outcome) is Send ==> t is PrChecks,
        stage_rank(stage) == 0 ==> resume_step(base, t, stage, outcome) is Done,
{
}

} // verus!
