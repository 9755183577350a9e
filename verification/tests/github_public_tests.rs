use agent_tools::github::{ApiReply, GitHubPublicTool, GitHubRequest, HttpVerb, PublicTask};
use agent_tools::json::{JsonNumber, JsonValue};

fn st(t: &str) -> JsonValue {
    JsonValue::Str(t.to_string())
}

fn object(pairs: Vec<(&str, JsonValue)>) -> JsonValue {
    JsonValue::Object(pairs.into_iter().map(|(k, v)| (k.to_string(), v)).collect())
}

fn repo(name: &str, stars: u64) -> JsonValue {
    object(vec![
        ("full_name", st(name)),
        ("description", st(&format!("{} description", name))),
        ("stargazers_count", JsonValue::Number(JsonNumber::PosInt(stars))),
        ("html_url", st(&format!("https://github.example/{}", name))),
        ("language", st("Rust")),
    ])
}

fn public_tool() -> GitHubPublicTool {
    GitHubPublicTool::new("").with_base_url("http://gh")
}

fn plan(args: Option<&JsonValue>) -> Result<(GitHubRequest, PublicTask), String> {
    public_tool().plan(args).map_err(|e| e.to_string())
}

/// A public call answered with `reply`.
fn call(args: JsonValue, reply: ApiReply) -> Result<String, String> {
    let (req, task) = plan(Some(&args))?;
    GitHubPublicTool::finish(&task, &req, &reply).map_err(|e| e.to_string())
}

fn pairs(req: &GitHubRequest) -> Vec<(String, String)> {
    req.query.clone()
}

fn param(req: &GitHubRequest, key: &str) -> Option<String> {
    req.query.iter().find(|(k, _)| k == key).map(|(_, v)| v.clone())
}

#[test]
fn public_search_sends_the_query_and_renders_the_items() {
    let args = object(vec![("action", st("search")), ("query", st("language:rust cli"))]);
    let (req, _) = plan(Some(&args)).unwrap();
    assert!(req.verb == HttpVerb::Get);
    assert_eq!(req.url, "http://gh/search/repositories");
    assert_eq!(
        pairs(&req),
        vec![
            ("q".to_string(), "language:rust cli".to_string()),
            ("sort".to_string(), "stars".to_string()),
            ("per_page".to_string(), "5".to_string()),
        ]
    );
    let result =
        call(args, ApiReply::Json(object(vec![("items", JsonValue::Array(vec![repo("rust-lang/rust", 95000)]))])))
            .unwrap();
    assert!(result.starts_with("🔍 **GitHub Search Results**"));
    assert!(result.contains("- **[rust-lang/rust](https://github.example/rust-lang/rust)** (⭐ 95000 | Rust)"));
    assert!(result.contains("rust-lang/rust description"));
}

#[test]
fn public_trending_filters_by_creation_date_and_language() {
    let before = chrono::Utc::now();
    let mut queries = Vec::new();
    for timeframe in ["daily", "weekly", "monthly", "hourly"] {
        let (req, _) =
            plan(Some(&object(vec![("action", st("trending")), ("timeframe", st(timeframe)), ("language", st("rust"))])))
                .unwrap();
        assert_eq!(param(&req, "sort").as_deref(), Some("stars"));
        queries.push(param(&req, "q").expect("a q parameter"));
    }
    let after = chrono::Utc::now();

    // An unknown timeframe falls back to the daily window.
    let windows = [
        chrono::Duration::days(1),
        chrono::Duration::weeks(1),
        chrono::Duration::days(30),
        chrono::Duration::days(1),
    ];
    for (q, window) in queries.iter().zip(windows) {
        // The date is computed from "now", so accept either side of a
        // midnight rollover mid-test.
        let acceptable = [
            format!("created:>{} language:rust", (before - window).format("%Y-%m-%d")),
            format!("created:>{} language:rust", (after - window).format("%Y-%m-%d")),
        ];
        assert!(acceptable.contains(q), "unexpected query {}", q);
    }
}

#[test]
fn public_search_applies_the_language_filter() {
    let args = object(vec![("action", st("search")), ("query", st("cli")), ("language", st("rust"))]);
    let (req, task) = plan(Some(&args)).unwrap();
    assert!(matches!(task, PublicTask::Search));
    assert_eq!(req.url, "http://gh/search/repositories");
    assert_eq!(param(&req, "q").as_deref(), Some("cli language:rust"));
    assert_eq!(param(&req, "sort").as_deref(), Some("stars"));
}

#[test]
fn public_trending_without_a_language_sends_only_the_date_filter() {
    let args = object(vec![("action", st("trending"))]);
    let (req, _) = plan(Some(&args)).unwrap();
    let q = param(&req, "q").expect("a q parameter");
    assert!(q.starts_with("created:>"), "{}", q);
    assert!(!q.contains("language:"), "{}", q);
    let result = call(args, ApiReply::Json(object(vec![("items", JsonValue::Array(vec![]))]))).unwrap();
    assert!(result.contains("No repositories found."));
}

#[test]
fn public_user_repos_reads_the_users_repo_list() {
    let args = object(vec![("action", st("user_repos")), ("username", st("octocat"))]);
    let (req, _) = plan(Some(&args)).unwrap();
    assert_eq!(req.url, "http://gh/users/octocat/repos");
    assert_eq!(
        pairs(&req),
        vec![("sort".to_string(), "updated".to_string()), ("per_page".to_string(), "10".to_string())]
    );
    let result = call(
        args,
        ApiReply::Json(JsonValue::Array(vec![repo("octocat/hello", 12), object(vec![("full_name", st("octocat/bare"))])])),
    )
    .unwrap();
    assert!(result.starts_with("📂 **Repositories for octocat**"));
    assert!(result.contains("octocat/hello"));
    assert!(result.contains("**[octocat/bare]()** (⭐ 0 | Unknown)"));
    assert!(result.contains("No description"));
}

#[test]
fn public_non_list_payloads_report_no_repositories() {
    let result = call(
        object(vec![("action", st("search")), ("query", st("x"))]),
        ApiReply::Json(object(vec![("message", st("something else"))])),
    )
    .unwrap();
    assert!(result.contains("No repositories found."));
}

#[test]
fn public_http_errors_and_malformed_bodies_fail_the_call() {
    let search = || object(vec![("action", st("search")), ("query", st("x"))]);
    assert_eq!(
        call(search(), ApiReply::Status(422, "422 Unprocessable Entity".to_string())).unwrap_err(),
        "GitHub API error: 422 Unprocessable Entity"
    );
    assert_eq!(call(search(), ApiReply::Unparseable).unwrap_err(), "Failed to parse search response");
    assert_eq!(
        call(
            object(vec![("action", st("user_repos")), ("username", st("ghost"))]),
            ApiReply::Status(404, "404 Not Found".to_string())
        )
        .unwrap_err(),
        "GitHub API error: 404 Not Found"
    );
}

#[test]
fn public_bad_arguments_fail_before_any_request() {
    assert_eq!(plan(None).err().unwrap(), "Failed to parse arguments");
    assert_eq!(
        plan(Some(&object(vec![("action", st("delete_everything"))]))).err().unwrap(),
        "Unknown action: delete_everything"
    );
    assert_eq!(plan(Some(&object(vec![]))).err().unwrap(), "Unknown action: ");
    assert_eq!(plan(Some(&object(vec![("action", st("search"))]))).err().unwrap(), "'query' is required for search");
    assert_eq!(
        plan(Some(&object(vec![("action", st("user_repos"))]))).err().unwrap(),
        "'username' is required for user_repos"
    );
}

#[test]
fn authenticated_tool_without_a_token_refuses_without_calling_out() {
    let tool = agent_tools::github::GitHubAuthenticatedTool::with_base_url("http://gh", "", "");
    assert!(!tool.is_available());
    match tool.start(Some(&object(vec![("action", st("notifications"))]))) {
        Ok(agent_tools::github::AuthStep::Done(text)) => {
            assert_eq!(text, "GITHUB_TOKEN is not set. This tool requires authentication.")
        },
        _ => panic!("a tokenless call must answer without a request"),
    }
}
