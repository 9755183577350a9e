use agent_tools::github::{
    normalize_token, strip_quotes_str, ApiReply, AuthStep, GitHubAuthenticatedTool, GitHubPublicTool, HttpVerb,
};
use agent_tools::json::{JsonNumber, JsonValue};
use agent_tools::framework::{ToolCategory, ToolType};

fn s(t: &str) -> JsonValue {
    JsonValue::Str(t.to_string())
}

fn n(v: u64) -> JsonValue {
    JsonValue::Number(JsonNumber::PosInt(v))
}

fn b(v: bool) -> JsonValue {
    JsonValue::Bool(v)
}

fn obj(pairs: Vec<(&str, JsonValue)>) -> JsonValue {
    JsonValue::Object(pairs.into_iter().map(|(k, v)| (k.to_string(), v)).collect())
}

fn arr(items: Vec<JsonValue>) -> JsonValue {
    JsonValue::Array(items)
}

fn auth_tool() -> GitHubAuthenticatedTool {
    GitHubAuthenticatedTool::with_base_url("http://gh", "test-token", "default-owner")
}

/// Runs an authenticated call, answering each request in turn from
/// `replies`; gives the answer and the requests made (verb, URL).
fn drive(
    tool: &GitHubAuthenticatedTool,
    args: JsonValue,
    replies: Vec<ApiReply>,
) -> Result<(String, Vec<(HttpVerb, String, Option<String>, Option<String>)>), String> {
    let mut step = tool.start(Some(&args)).map_err(|e| e.to_string())?;
    let mut sent = Vec::new();
    let mut replies = replies.into_iter();
    loop {
        match step {
            AuthStep::Done(text) => return Ok((text, sent)),
            AuthStep::Send(req, wait) => {
                sent.push((req.verb, req.url.clone(), req.patch_title.clone(), req.patch_body.clone()));
                let reply = replies.next().expect("a reply for every request");
                step = tool.resume(&req, wait, reply);
            },
        }
    }
}

fn pull_request_fixture() -> JsonValue {
    obj(vec![
        ("number", n(42)),
        ("title", s("Add feature")),
        ("body", s("This adds a feature.")),
        ("state", s("open")),
        ("draft", b(false)),
        ("html_url", s("https://github.example/p/42")),
        ("user", obj(vec![("login", s("jane"))])),
        ("head", obj(vec![("ref", s("feature-branch")), ("sha", s("abc123"))])),
        ("base", obj(vec![("ref", s("main"))])),
    ])
}

fn not_found() -> ApiReply {
    ApiReply::Status(404, "404 Not Found".to_string())
}

#[test]
fn test_github_public_metadata() {
    let tool = GitHubPublicTool::new("");
    assert_eq!(tool.metadata.id, "github_public");
    assert_eq!(tool.metadata.name, "GitHub Public");
    assert_eq!(tool.metadata.category, ToolCategory::Development);
    assert_eq!(tool.metadata.tool_type, ToolType::GitHubPublic);
}

#[test]
fn test_github_authenticated_metadata() {
    let tool = GitHubAuthenticatedTool::new("", "", "");
    assert_eq!(tool.metadata.id, "github_authenticated");
    assert_eq!(tool.metadata.tool_type, ToolType::GitHubAuthenticated);
    assert!(!tool.is_available());
    assert!(GitHubAuthenticatedTool::new("\"tok\"", "", "").is_available());
}

#[test]
fn tokens_lose_their_quotes() {
    assert_eq!(strip_quotes_str("\"abc\""), "abc");
    assert_eq!(strip_quotes_str("'abc'"), "abc");
    assert_eq!(normalize_token("  \"abc\"  "), "abc");
}

#[test]
fn pr_details_renders_title_state_branches_and_description() {
    let (text, sent) = drive(
        &auth_tool(),
        obj(vec![("action", s("pr_details")), ("owner", s("acme")), ("repo", s("widgets")), ("pr_number", n(42))]),
        vec![ApiReply::Json(pull_request_fixture())],
    )
    .unwrap();
    assert_eq!(sent[0].1, "http://gh/repos/acme/widgets/pulls/42");
    assert!(text.starts_with("🔃 **PR #42 for acme/widgets**"));
    for part in ["Add feature", "open", "feature-branch", "main", "jane", "This adds a feature."] {
        assert!(text.contains(part), "{}", part);
    }
}

#[test]
fn pr_details_reports_a_missing_pr() {
    let (text, _) = drive(
        &auth_tool(),
        obj(vec![("action", s("pr_details")), ("owner", s("acme")), ("repo", s("widgets")), ("pr_number", n(999))]),
        vec![not_found()],
    )
    .unwrap();
    assert!(text.contains("Failed: GitHub API error: 404"));
}

#[test]
fn pr_details_requires_a_pr_number() {
    let err = drive(
        &auth_tool(),
        obj(vec![("action", s("pr_details")), ("owner", s("acme")), ("repo", s("widgets"))]),
        vec![],
    )
    .unwrap_err();
    assert!(err.contains("pr_number"));
}

#[test]
fn pr_checks_combines_combined_status_and_check_runs() {
    let status = obj(vec![
        ("state", s("failure")),
        (
            "statuses",
            arr(vec![
                obj(vec![("context", s("ci/build")), ("state", s("success")), ("description", s("Build passed"))]),
                obj(vec![("context", s("ci/lint")), ("state", s("failure")), ("description", s("Lint failed"))]),
            ]),
        ),
    ]);
    let runs = obj(vec![(
        "check_runs",
        arr(vec![obj(vec![("name", s("test-suite")), ("status", s("completed")), ("conclusion", s("success"))])]),
    )]);
    let (text, sent) = drive(
        &auth_tool(),
        obj(vec![("action", s("pr_checks")), ("owner", s("acme")), ("repo", s("widgets")), ("pr_number", n(42))]),
        vec![ApiReply::Json(pull_request_fixture()), ApiReply::Json(status), ApiReply::Json(runs)],
    )
    .unwrap();
    assert_eq!(sent.len(), 3);
    assert_eq!(sent[1].1, "http://gh/repos/acme/widgets/commits/abc123/status");
    assert_eq!(sent[2].1, "http://gh/repos/acme/widgets/commits/abc123/check-runs");
    for part in ["failure", "ci/build", "Build passed", "ci/lint", "Lint failed", "test-suite"] {
        assert!(text.contains(part), "{}", part);
    }
}

#[test]
fn pr_checks_reports_no_status_or_checks_found() {
    let (text, _) = drive(
        &auth_tool(),
        obj(vec![("action", s("pr_checks")), ("owner", s("acme")), ("repo", s("widgets")), ("pr_number", n(42))]),
        vec![
            ApiReply::Json(pull_request_fixture()),
            ApiReply::Json(obj(vec![("state", s("pending")), ("statuses", arr(vec![]))])),
            ApiReply::Json(obj(vec![("check_runs", arr(vec![]))])),
        ],
    )
    .unwrap();
    assert!(text.contains("No status checks or check runs found"));
}

#[test]
fn pr_checks_fails_if_the_pr_itself_cannot_be_fetched() {
    let (text, sent) = drive(
        &auth_tool(),
        obj(vec![("action", s("pr_checks")), ("owner", s("acme")), ("repo", s("widgets")), ("pr_number", n(42))]),
        vec![not_found()],
    )
    .unwrap();
    assert!(text.contains("Failed: GitHub API error: 404"));
    assert_eq!(sent.len(), 1);
}

#[test]
fn pr_commits_renders_the_commit_list() {
    let commits = arr(vec![obj(vec![
        ("sha", s("abc1234567890")),
        ("html_url", s("https://github.example/c/abc1234567890")),
        (
            "commit",
            obj(vec![
                ("message", s("Fix the bug\n\nLonger description here.")),
                ("author", obj(vec![("name", s("Jane Doe"))])),
            ]),
        ),
    ])]);
    let (text, _) = drive(
        &auth_tool(),
        obj(vec![("action", s("pr_commits")), ("owner", s("acme")), ("repo", s("widgets")), ("pr_number", n(42))]),
        vec![ApiReply::Json(commits)],
    )
    .unwrap();
    assert!(text.contains("abc1234"));
    assert!(text.contains("Fix the bug"));
    assert!(text.contains("Jane Doe"));
    assert!(!text.contains("Longer description here."));
}

#[test]
fn pr_commits_reports_an_empty_list() {
    let (text, _) = drive(
        &auth_tool(),
        obj(vec![("action", s("pr_commits")), ("owner", s("acme")), ("repo", s("widgets")), ("pr_number", n(42))]),
        vec![ApiReply::Json(arr(vec![]))],
    )
    .unwrap();
    assert!(text.contains("No commits found"));
}

#[test]
fn update_pr_sends_title_and_description_and_reports_success() {
    let (text, sent) = drive(
        &auth_tool(),
        obj(vec![
            ("action", s("update_pr")),
            ("owner", s("acme")),
            ("repo", s("widgets")),
            ("pr_number", n(42)),
            ("title", s("New title")),
            ("description", s("New description.")),
        ]),
        vec![ApiReply::Json(obj(vec![("number", n(42)), ("title", s("New title")), ("html_url", s("u"))]))],
    )
    .unwrap();
    assert!(matches!(sent[0].0, HttpVerb::Patch));
    assert_eq!(sent[0].2.as_deref(), Some("New title"));
    assert_eq!(sent[0].3.as_deref(), Some("New description."));
    assert!(text.starts_with("✏️ **Updated PR #42 (acme/widgets)**"));
    assert!(text.contains("New title"));
}

#[test]
fn update_pr_can_update_only_the_description() {
    let (_, sent) = drive(
        &auth_tool(),
        obj(vec![
            ("action", s("update_pr")),
            ("owner", s("acme")),
            ("repo", s("widgets")),
            ("pr_number", n(42)),
            ("description", s("Only the body changes.")),
        ]),
        vec![ApiReply::Json(pull_request_fixture())],
    )
    .unwrap();
    assert_eq!(sent[0].3.as_deref(), Some("Only the body changes."));
    assert!(sent[0].2.is_none());
}

#[test]
fn update_pr_requires_at_least_title_or_description() {
    let err = drive(
        &auth_tool(),
        obj(vec![("action", s("update_pr")), ("owner", s("acme")), ("repo", s("widgets")), ("pr_number", n(42))]),
        vec![],
    )
    .unwrap_err();
    assert!(err.contains("title") || err.contains("description"));
}

#[test]
fn pr_details_falls_back_to_the_configured_default_repo_when_omitted() {
    let (text, sent) = drive(
        &auth_tool().with_repo("widgets"),
        obj(vec![("action", s("pr_details")), ("pr_number", n(42))]),
        vec![ApiReply::Json(pull_request_fixture())],
    )
    .unwrap();
    assert_eq!(sent[0].1, "http://gh/repos/default-owner/widgets/pulls/42");
    assert!(text.starts_with("🔃 **PR #42 for default-owner/widgets**"));
}

#[test]
fn pr_details_requires_a_repo_when_none_is_configured() {
    let err = drive(&auth_tool(), obj(vec![("action", s("pr_details")), ("pr_number", n(42))]), vec![]).unwrap_err();
    assert!(err.contains("Owner and repo required"));
}

#[test]
fn update_pr_reports_a_github_error() {
    let (text, _) = drive(
        &auth_tool(),
        obj(vec![
            ("action", s("update_pr")),
            ("owner", s("acme")),
            ("repo", s("widgets")),
            ("pr_number", n(42)),
            ("title", s("x")),
        ]),
        vec![ApiReply::Status(422, "422 Unprocessable Entity".to_string())],
    )
    .unwrap();
    assert!(text.contains("Failed: GitHub API error: 422"));
}

#[test]
fn without_a_token_the_authenticated_tool_says_so() {
    let tool = GitHubAuthenticatedTool::with_base_url("http://gh", "", "o");
    let (text, sent) = drive(&tool, obj(vec![("action", s("notifications"))]), vec![]).unwrap();
    assert_eq!(text, "GITHUB_TOKEN is not set. This tool requires authentication.");
    assert!(sent.is_empty());
    assert_eq!(tool.start(None).err().unwrap().to_string(), "Failed to parse arguments");
}

#[test]
fn public_search_and_user_repos_requests() {
    let tool = GitHubPublicTool::new("").with_base_url("http://gh");
    let req = tool.search_request("verus", None);
    assert!(req.url.starts_with("http://gh/search/repositories"));
    assert!(req.query.iter().any(|(k, v)| k == "q" && v == "verus"));
    let req = tool.search_request("verus", Some("rust"));
    assert!(req.query.iter().any(|(k, v)| k == "q" && v == "verus language:rust"));
    let req = tool.user_repos_request("octocat");
    assert_eq!(req.url, "http://gh/users/octocat/repos");
    let err = tool.plan(Some(&obj(vec![("action", s("nope"))]))).err().unwrap().to_string();
    assert!(!err.is_empty());
}
