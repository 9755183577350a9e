use agent_tools::github::{ApiReply, AuthStep, GitHubAuthenticatedTool};
use agent_tools::json::{JsonNumber, JsonValue};

fn text(t: &str) -> JsonValue {
    JsonValue::Str(t.to_string())
}

fn num(v: u64) -> JsonValue {
    JsonValue::Number(JsonNumber::PosInt(v))
}

fn map(pairs: Vec<(&str, JsonValue)>) -> JsonValue {
    JsonValue::Object(pairs.into_iter().map(|(k, v)| (k.to_string(), v)).collect())
}

fn list(items: Vec<JsonValue>) -> JsonValue {
    JsonValue::Array(items)
}

fn tool() -> GitHubAuthenticatedTool {
    GitHubAuthenticatedTool::with_base_url("http://gh", "test-token", "default-owner")
}

fn repo(name: &str, stars: u64) -> JsonValue {
    map(vec![
        ("full_name", text(name)),
        ("description", text(&format!("{} description", name))),
        ("stargazers_count", num(stars)),
        ("html_url", text(&format!("https://github.example/{}", name))),
        ("language", text("Rust")),
    ])
}

fn status(code: u16, rendering: &str) -> ApiReply {
    ApiReply::Status(code, rendering.to_string())
}

/// A request as it was sent: its URL and query parameters.
struct Sent {
    url: String,
    query: Vec<(String, String)>,
}

fn params(pairs: &[(&str, &str)]) -> Vec<(String, String)> {
    pairs.iter().map(|(k, v)| (k.to_string(), v.to_string())).collect()
}

/// Runs one call against `t`, answering each request from `replies`.
fn run_with(
    t: &GitHubAuthenticatedTool,
    args: JsonValue,
    replies: Vec<ApiReply>,
) -> Result<(String, Vec<Sent>), String> {
    let mut step = t.start(Some(&args)).map_err(|e| e.to_string())?;
    let mut sent = Vec::new();
    let mut replies = replies.into_iter();
    loop {
        match step {
            AuthStep::Done(answer) => return Ok((answer, sent)),
            AuthStep::Send(req, wait) => {
                sent.push(Sent { url: req.url.clone(), query: req.query.clone() });
                let reply = replies.next().expect("a reply for every request");
                step = t.resume(&req, wait, reply);
            },
        }
    }
}

fn run(args: JsonValue, replies: Vec<ApiReply>) -> (String, Vec<Sent>) {
    run_with(&tool(), args, replies).unwrap()
}

fn action(name: &str) -> JsonValue {
    map(vec![("action", text(name))])
}

#[test]
fn notifications_are_fetched_with_the_bearer_token_and_rendered() {
    let (result, sent) = run(
        action("notifications"),
        vec![ApiReply::Json(list(vec![map(vec![
            ("subject", map(vec![("title", text("Fix the build")), ("type", text("PullRequest"))])),
            ("repository", map(vec![("full_name", text("acme/widgets"))])),
        ])]))],
    );
    assert_eq!(sent.len(), 1);
    assert_eq!(sent[0].url, "http://gh/notifications");
    assert_eq!(sent[0].query, params(&[("all", "false"), ("per_page", "10")]));
    assert!(result.starts_with("🔔 **Your Notifications**"));
    assert!(result.contains("- **PullRequest**: Fix the build"));
    assert!(result.contains("Repo: acme/widgets"));
}

#[test]
fn an_empty_or_unexpected_notification_payload_is_described() {
    let (empty, _) = run(action("notifications"), vec![ApiReply::Json(list(vec![]))]);
    assert!(empty.contains("No new notifications! 🎉"));
    let (odd, _) = run(action("notifications"), vec![ApiReply::Json(map(vec![("message", text("not an array"))]))]);
    assert!(odd.contains("No notifications found."));
}

#[test]
fn list_my_repos_paginates_and_reports_a_403_as_a_scope_hint() {
    let (ok, sent) = run(
        map(vec![("action", text("list_my_repos")), ("page", num(3))]),
        vec![ApiReply::Json(list(vec![repo("me/one", 1)]))],
    );
    assert!(ok.starts_with("📂 **Your Managed Repositories (Page 3)**"));
    assert!(ok.contains("- **[me/one](https://github.example/me/one)** (⭐ 1)"));
    assert_eq!(
        sent[0].query,
        params(&[("sort", "updated"), ("per_page", "100"), ("type", "owner"), ("page", "3")])
    );
    let (forbidden, sent) = run(action("list_my_repos"), vec![status(403, "403 Forbidden")]);
    assert!(forbidden.contains("Failed: Access Forbidden (403)"), "{}", forbidden);
    assert!(forbidden.contains("'metadata' or 'contents' scope"));
    assert!(sent[0].query.contains(&("page".to_string(), "1".to_string())));
}

#[test]
fn list_org_repos_requires_an_org_and_reports_api_errors() {
    let args = || map(vec![("action", text("list_org_repos")), ("org", text("acme"))]);
    let (ok, sent) = run(args(), vec![ApiReply::Json(list(vec![repo("acme/widgets", 7)]))]);
    assert!(ok.starts_with("🏢 **Repositories for Organization: acme (Page 1)**"));
    assert!(ok.contains("acme/widgets"));
    assert_eq!(sent[0].url, "http://gh/orgs/acme/repos");
    assert_eq!(sent[0].query, params(&[("sort", "updated"), ("per_page", "100"), ("page", "1")]));
    let (failed, _) = run(args(), vec![status(404, "404 Not Found")]);
    assert!(failed.contains("Failed: GitHub API error: 404 Not Found"), "{}", failed);
    assert_eq!(
        run_with(&tool(), action("list_org_repos"), vec![]).err().unwrap(),
        "'org' is required for list_org_repos"
    );
}

#[test]
fn workflow_runs_use_the_configured_owner_and_render_every_conclusion() {
    let run_entry = |name: &str, st: &str, conclusion: Option<&str>, n: u64| {
        let mut fields = vec![
            ("name", text(name)),
            ("status", text(st)),
            ("html_url", text(&format!("https://github.example/{}", n))),
        ];
        if let Some(c) = conclusion {
            fields.push(("conclusion", text(c)));
        }
        map(fields)
    };
    let (result, sent) = run(
        map(vec![("action", text("actions")), ("repo", text("widgets"))]),
        vec![ApiReply::Json(map(vec![(
            "workflow_runs",
            list(vec![
                run_entry("ci", "completed", Some("success"), 1),
                run_entry("release", "completed", Some("failure"), 2),
                run_entry("nightly", "completed", Some("cancelled"), 3),
                run_entry("queued", "queued", None, 4),
                run_entry("odd", "completed", Some("neutral"), 5),
            ]),
        )]))],
    );
    assert_eq!(sent[0].url, "http://gh/repos/default-owner/widgets/actions/runs");
    assert_eq!(sent[0].query, params(&[("per_page", "5")]));
    assert!(result.starts_with("🏃 **Workflows for default-owner/widgets**"));
    assert!(result.contains("- ✅ **[ci](https://github.example/1)**"));
    assert!(result.contains("Status: completed | Result: success"));
    assert!(result.contains("- ❌ **[release]"));
    assert!(result.contains("- 🚫 **[nightly]"));
    assert!(result.contains("- ⏳ **[queued]"));
    assert!(result.contains("Result: pending"));
    assert!(result.contains("- ❓ **[odd]"));
}

#[test]
fn workflow_runs_report_403s_and_empty_payloads() {
    let args = || map(vec![("action", text("actions")), ("owner", text("o")), ("repo", text("r"))]);
    let (forbidden, _) = run(args(), vec![status(403, "403 Forbidden")]);
    assert!(forbidden.contains("ensure your GITHUB_TOKEN has the 'actions' scope"), "{}", forbidden);
    let (empty, _) = run(args(), vec![ApiReply::Json(map(vec![("workflow_runs", list(vec![]))]))]);
    assert!(empty.contains("No workflow runs found."));
    let (bare, _) = run(args(), vec![ApiReply::Json(map(vec![]))]);
    assert!(bare.contains("No workflow runs found."));
    let ownerless = GitHubAuthenticatedTool::with_base_url("http://gh", "test-token", "");
    assert_eq!(
        run_with(&ownerless, map(vec![("action", text("actions")), ("repo", text("r"))]), vec![]).err().unwrap(),
        "Owner and repo required (add GITHUB_OWNER to .env if owner omitted)"
    );
}

#[test]
fn issues_come_from_the_repo_when_one_is_named() {
    let (result, sent) = run(
        map(vec![("action", text("issues")), ("owner", text("acme")), ("repo", text("widgets"))]),
        vec![ApiReply::Json(list(vec![
            map(vec![
                ("number", num(7)),
                ("title", text("Broken")),
                ("html_url", text("https://github.example/i/7")),
                ("user", map(vec![("login", text("jane"))])),
            ]),
            map(vec![]),
        ]))],
    );
    assert_eq!(sent[0].url, "http://gh/repos/acme/widgets/issues");
    assert_eq!(sent[0].query, params(&[("state", "open"), ("sort", "updated"), ("per_page", "5")]));
    assert!(result.starts_with("🐛 **Issues for acme/widgets**"));
    assert!(result.contains("- **#7 [Broken](https://github.example/i/7)** by @jane"));
    assert!(result.contains("- **#0 [No title]()** by @unknown"));
}

#[test]
fn issues_fall_back_to_the_authenticated_users_list() {
    let (mine, sent) = run(
        map(vec![("action", text("issues")), ("filter", text("created")), ("state", text("closed")), ("page", num(2))]),
        vec![ApiReply::Json(list(vec![map(vec![
            ("number", num(1)),
            ("title", text("Mine")),
            ("html_url", text("https://github.example/i/1")),
            ("user", map(vec![("login", text("me"))])),
        ])]))],
    );
    assert!(mine.starts_with("🐛 **Issues (created, closed) Page 2**"));
    assert!(mine.contains("- **#1 [Mine]"));
    assert_eq!(sent[0].url, "http://gh/issues");
    assert_eq!(
        sent[0].query,
        params(&[("filter", "created"), ("state", "closed"), ("sort", "updated"), ("per_page", "100"), ("page", "2")])
    );
    let (defaults, _) = run(action("issues"), vec![ApiReply::Json(list(vec![]))]);
    assert!(defaults.starts_with("🐛 **Issues (assigned, open) Page 1**"));
    assert!(defaults.contains("No issues found."));
    let (odd, _) = run(action("issues"), vec![ApiReply::Json(map(vec![("message", text("not an array"))]))]);
    assert!(odd.contains("No issues found."));
    let (failed, _) = run(action("issues"), vec![status(500, "500 Internal Server Error")]);
    assert!(failed.contains("Failed: GitHub API error: 500 Internal Server Error"));
}

#[test]
fn events_need_a_username_and_render_the_date_only() {
    let args = || map(vec![("action", text("events")), ("username", text("octocat"))]);
    let (result, sent) = run(
        args(),
        vec![ApiReply::Json(list(vec![
            map(vec![
                ("type", text("PushEvent")),
                ("repo", map(vec![("name", text("octocat/hello"))])),
                ("created_at", text("2026-08-01T10:00:00Z")),
            ]),
            map(vec![]),
        ]))],
    );
    assert_eq!(sent[0].query, params(&[("per_page", "5")]));
    assert!(result.starts_with("📅 **Events for octocat**"));
    assert!(result.contains("- **PushEvent** at octocat/hello"));
    assert!(result.contains("Date: 2026-08-01"));
    assert!(result.contains("- **Event** at unknown"));
    let (empty, _) = run(args(), vec![ApiReply::Json(list(vec![]))]);
    assert!(empty.contains("No events found."));
    let (odd, _) = run(args(), vec![ApiReply::Json(map(vec![("message", text("not an array"))]))]);
    assert!(odd.contains("No events found."));
    assert_eq!(run_with(&tool(), action("events"), vec![]).err().unwrap(), "Username required for events");
}

#[test]
fn pulls_come_from_the_repo_when_one_is_named() {
    let args = || map(vec![("action", text("pulls")), ("owner", text("acme")), ("repo", text("widgets"))]);
    let (result, sent) = run(
        args(),
        vec![ApiReply::Json(list(vec![map(vec![
            ("title", text("Add feature")),
            ("html_url", text("https://github.example/p/1")),
            ("user", map(vec![("login", text("jane"))])),
        ])]))],
    );
    assert_eq!(
        sent[0].query,
        params(&[("state", "open"), ("per_page", "5"), ("sort", "updated"), ("direction", "desc")])
    );
    assert!(result.starts_with("🔃 **Pull Requests for acme/widgets**"));
    assert!(result.contains("- **[Add feature](https://github.example/p/1)** by @jane"));
    let (empty, _) = run(args(), vec![ApiReply::Json(list(vec![]))]);
    assert!(empty.contains("No pull requests found."));
    let (odd, _) = run(args(), vec![ApiReply::Json(map(vec![("message", text("not an array"))]))]);
    assert!(odd.contains("No pull requests found."));
}

#[test]
fn pulls_without_a_repo_fall_back_to_the_issues_endpoint() {
    let (result, sent) = run(
        map(vec![("action", text("pulls")), ("page", num(5))]),
        vec![ApiReply::Json(list(vec![map(vec![
            ("number", num(4)),
            ("title", text("Mine")),
            ("html_url", text("https://github.example/i/4")),
            ("user", map(vec![("login", text("me"))])),
        ])]))],
    );
    assert!(result.starts_with("🔃 **Your Pull Requests & Issues**"));
    assert!(result.contains("- **#4 [Mine]"));
    assert_eq!(sent[0].url, "http://gh/issues");
    assert_eq!(
        sent[0].query,
        params(&[("filter", "assigned"), ("state", "open"), ("sort", "updated"), ("per_page", "100"), ("page", "5")])
    );
    let (failed, _) = run(action("pulls"), vec![status(500, "500 Internal Server Error")]);
    assert!(failed.contains("Failed: GitHub API error: 500 Internal Server Error"));
}

#[test]
fn followers_come_from_the_authenticated_user_profile() {
    let (result, sent) = run(
        action("followers"),
        vec![ApiReply::Json(map(vec![("login", text("octocat")), ("followers", num(12)), ("following", num(3))]))],
    );
    assert_eq!(sent[0].url, "http://gh/user");
    assert!(sent[0].query.is_empty());
    assert!(result.starts_with("👥 **Followers**"));
    assert!(result.contains("**@octocat** has **12** followers (following 3)."));
    let (empty, _) = run(action("followers"), vec![ApiReply::Json(map(vec![]))]);
    assert!(empty.contains("**@unknown** has **0** followers (following 0)."));
    let (failed, _) = run(action("followers"), vec![status(401, "401 Unauthorized")]);
    assert!(failed.contains("Failed: GitHub API error: 401 Unauthorized"));
}

#[test]
fn authenticated_bad_arguments_fail_before_any_request() {
    assert_eq!(tool().start(None).err().unwrap().to_string(), "Failed to parse arguments");
    assert_eq!(
        run_with(&tool(), action("merge_everything"), vec![]).err().unwrap(),
        "Unknown action: merge_everything"
    );
}

#[test]
fn repo_scoped_endpoints_report_their_own_http_errors() {
    for (args, reply, expected) in [
        (
            map(vec![("action", text("issues")), ("owner", text("acme")), ("repo", text("widgets"))]),
            status(404, "404 Not Found"),
            "Failed: GitHub API error: 404 Not Found",
        ),
        (
            map(vec![("action", text("events")), ("username", text("ghost"))]),
            status(404, "404 Not Found"),
            "Failed: GitHub API error: 404 Not Found",
        ),
        (
            map(vec![("action", text("pulls")), ("owner", text("acme")), ("repo", text("widgets"))]),
            status(451, "451 Unavailable For Legal Reasons"),
            "Failed: GitHub API error: 451 Unavailable For Legal Reasons",
        ),
    ] {
        let (result, _) = run(args, vec![reply]);
        assert!(result.contains(expected), "{}", result);
    }
}

#[test]
fn the_authenticated_repo_formatter_handles_envelopes_and_empty_lists() {
    let (enveloped, _) =
        run(action("list_my_repos"), vec![ApiReply::Json(map(vec![("items", list(vec![repo("me/enveloped", 4)]))]))]);
    assert!(enveloped.contains("- **[me/enveloped](https://github.example/me/enveloped)** (⭐ 4)"));
    let (empty, _) = run(action("list_my_repos"), vec![ApiReply::Json(list(vec![]))]);
    assert!(empty.contains("No repositories found."));
    let (odd, _) = run(action("list_my_repos"), vec![ApiReply::Json(map(vec![("message", text("not a list at all"))]))]);
    assert!(odd.contains("No repositories found."));
}

#[test]
fn non_forbidden_failures_are_reported_for_every_authenticated_endpoint() {
    for (args, reply, expected) in [
        (action("notifications"), status(500, "500 Internal Server Error"), "Failed: GitHub API error: 500 Internal Server Error"),
        (action("list_my_repos"), status(502, "502 Bad Gateway"), "Failed: GitHub API error: 502 Bad Gateway"),
        (
            map(vec![("action", text("actions")), ("owner", text("o")), ("repo", text("r"))]),
            status(404, "404 Not Found"),
            "Failed: GitHub API error: 404 Not Found",
        ),
    ] {
        let (result, _) = run(args, vec![reply]);
        assert!(result.contains(expected), "{}", result);
    }
}

#[test]
fn list_org_repos_honours_an_explicit_page() {
    let (result, sent) = run(
        map(vec![("action", text("list_org_repos")), ("org", text("acme")), ("page", num(4))]),
        vec![ApiReply::Json(list(vec![]))],
    );
    assert!(result.starts_with("🏢 **Repositories for Organization: acme (Page 4)**"));
    assert!(sent[0].query.contains(&("page".to_string(), "4".to_string())));
}
