use agent_tools::bluesky::{
    build_link_and_tag_facets, find_mention_candidates, merge_facets, BlueskyPostTool, FacetKind, PostRecord,
};
use agent_tools::json::JsonValue;

fn js(v: &str) -> JsonValue {
    JsonValue::Str(v.to_string())
}

fn jo(pairs: Vec<(&str, JsonValue)>) -> JsonValue {
    JsonValue::Object(pairs.into_iter().map(|(k, v)| (k.to_string(), v)).collect())
}

/// A reply of the PDS: whether it succeeded, its text, and its JSON.
struct Reply {
    ok: bool,
    body: String,
    json: Option<JsonValue>,
}

fn json_reply(v: JsonValue) -> Reply {
    Reply { ok: true, body: String::new(), json: Some(v) }
}

fn error_reply(body: &str) -> Reply {
    Reply { ok: false, body: body.to_string(), json: None }
}

/// What a post exchanged with the PDS.
struct Posted {
    answer: Result<String, String>,
    resolved: Vec<String>,
    record: Option<PostRecord>,
    repo: Option<String>,
}

fn tool() -> BlueskyPostTool {
    BlueskyPostTool::with_base_url("http://pds", Some("me.bsky.social"), Some("app-password"))
}

fn healthy_session() -> Reply {
    json_reply(jo(vec![("accessJwt", js("jwt-123")), ("did", js("did:plc:me"))]))
}

/// Posts `text` the way the tool does, the PDS answering the session with
/// `session`, each handle lookup with `resolve` and the record with `created`.
fn post(t: &BlueskyPostTool, args: Option<&JsonValue>, session: Reply, resolve: Reply, created: Reply) -> Posted {
    let mut posted = Posted { answer: Err(String::new()), resolved: Vec::new(), record: None, repo: None };
    let text = match BlueskyPostTool::parse_text(args) {
        Ok(text) => text,
        Err(e) => {
            posted.answer = Err(e.to_string());
            return posted;
        },
    };
    if let Err(e) = t.credentials() {
        posted.answer = Err(e.to_string());
        return posted;
    }
    if !session.ok {
        posted.answer = Err(BlueskyPostTool::authentication_failed(&session.body).to_string());
        return posted;
    }
    let data = session.json.unwrap_or(JsonValue::Null);
    let (_token, did) = match BlueskyPostTool::session_from(&data) {
        Ok(s) => s,
        Err(e) => {
            posted.answer = Err(e.to_string());
            return posted;
        },
    };
    let (facets, occupied) = build_link_and_tag_facets(&text);
    let candidates = find_mention_candidates(&text, &occupied);
    let mut dids = Vec::new();
    for (_, _, handle) in &candidates {
        posted.resolved.push(handle.clone());
        dids.push(BlueskyPostTool::resolved_did(handle, resolve.ok, &resolve.body, resolve.json.as_ref()).ok());
    }
    posted.record = Some(BlueskyPostTool::post_record(&text, merge_facets(facets, candidates, dids)));
    posted.repo = Some(did);
    posted.answer = BlueskyPostTool::post_result(&text, created.ok, &created.body).map_err(|e| e.to_string());
    posted
}

fn text_args(text: &str) -> JsonValue {
    jo(vec![("text", js(text))])
}

fn resolved_alice() -> Reply {
    json_reply(jo(vec![("did", js("did:plc:alice"))]))
}

fn accepted() -> Reply {
    json_reply(jo(vec![("uri", js("at://did:plc:me/app.bsky.feed.post/1")), ("cid", js("bafy"))]))
}

#[test]
fn a_post_authenticates_then_creates_a_record_with_sorted_facets() {
    let text = "hi @alice.bsky.social see https://example.com/x #rust";
    let posted = post(&tool(), Some(&text_args(text)), healthy_session(), resolved_alice(), accepted());
    assert_eq!(posted.resolved, vec!["alice.bsky.social".to_string()]);
    assert_eq!(posted.repo.as_deref(), Some("did:plc:me"));
    let record = posted.record.expect("a record");
    assert_eq!(record.text, text);
    assert!(record.created_at.ends_with('Z'), "{}", record.created_at);
    let facets = record.facets.expect("facets");
    assert_eq!(facets.len(), 3);
    let kinds: Vec<FacetKind> = facets.iter().map(|f| f.kind).collect();
    assert_eq!(kinds, vec![FacetKind::Mention, FacetKind::Link, FacetKind::Tag]);
    assert_eq!(facets[0].value, "did:plc:alice");
    assert_eq!(facets[1].value, "https://example.com/x");
    assert_eq!(facets[2].value, "rust");
    for f in &facets {
        assert!(f.byte_start < f.byte_end && f.byte_end <= text.len(), "{:?}", f);
    }
    assert_eq!(posted.answer.unwrap(), format!("Successfully posted to Bluesky: '{}'", text));
}

#[test]
fn plain_text_carries_no_facets_key_and_resolves_nothing() {
    let posted = post(&tool(), Some(&text_args("just a plain sentence")), healthy_session(), resolved_alice(), accepted());
    assert!(posted.resolved.is_empty());
    assert!(posted.record.expect("a record").facets.is_none());
}

#[test]
fn an_unresolvable_mention_is_dropped_instead_of_failing_the_post() {
    let posted = post(
        &tool(),
        Some(&text_args("hello @ghost.invalid.example")),
        healthy_session(),
        error_reply(r#"{"error":"InvalidRequest","message":"Unable to resolve handle"}"#),
        json_reply(jo(vec![("uri", js("at://x"))])),
    );
    assert!(posted.record.expect("a record").facets.is_none());
    assert!(posted.answer.unwrap().contains("Successfully posted to Bluesky"));
}

#[test]
fn a_handle_resolution_without_a_did_is_also_dropped() {
    let posted = post(
        &tool(),
        Some(&text_args("hi @alice.bsky.social")),
        healthy_session(),
        json_reply(jo(vec![])),
        json_reply(jo(vec![("uri", js("at://x"))])),
    );
    assert!(posted.record.expect("a record").facets.is_none());
}

#[test]
fn a_failed_authentication_is_reported_with_its_body() {
    let posted = post(
        &tool(),
        Some(&text_args("hello")),
        error_reply(r#"{"error":"AuthenticationRequired","message":"Invalid identifier or password"}"#),
        resolved_alice(),
        accepted(),
    );
    let message = posted.answer.unwrap_err();
    assert!(message.starts_with("Failed to authenticate with Bluesky:"), "{}", message);
    assert!(message.contains("Invalid identifier or password"), "{}", message);
    assert!(posted.record.is_none(), "The post must not be attempted");
}

#[test]
fn a_session_missing_its_token_or_did_is_rejected() {
    let no_token = post(
        &tool(),
        Some(&text_args("hello")),
        json_reply(jo(vec![("did", js("did:plc:me"))])),
        resolved_alice(),
        accepted(),
    );
    assert_eq!(no_token.answer.unwrap_err(), "Invalid session response: missing accessJwt");
    let no_did = post(
        &tool(),
        Some(&text_args("hello")),
        json_reply(jo(vec![("accessJwt", js("jwt-123"))])),
        resolved_alice(),
        accepted(),
    );
    assert_eq!(no_did.answer.unwrap_err(), "Invalid session response: missing did");
}

#[test]
fn a_rejected_record_is_reported_with_its_body() {
    let posted = post(
        &tool(),
        Some(&text_args("hello")),
        healthy_session(),
        resolved_alice(),
        error_reply(r#"{"error":"InvalidRequest","message":"Record too long"}"#),
    );
    let message = posted.answer.unwrap_err();
    assert!(message.starts_with("Failed to post to Bluesky:"), "{}", message);
    assert!(message.contains("Record too long"), "{}", message);
}

#[test]
fn bluesky_post_missing_credentials_fail_before_any_request() {
    let no_handle = BlueskyPostTool::with_base_url("http://pds", None, Some("app-password"));
    let posted = post(&no_handle, Some(&text_args("hello")), healthy_session(), resolved_alice(), accepted());
    assert_eq!(posted.answer.unwrap_err(), "BLUESKY_HANDLE environment variable not set");
    assert!(posted.record.is_none());
    let no_password = BlueskyPostTool::with_base_url("http://pds", Some("me.bsky.social"), None);
    let posted = post(&no_password, Some(&text_args("hello")), healthy_session(), resolved_alice(), accepted());
    assert_eq!(posted.answer.unwrap_err(), "BLUESKY_PASSWORD environment variable not set");
}

#[test]
fn over_long_text_and_bad_arguments_fail_before_any_request() {
    let message = |a: Option<&JsonValue>| BlueskyPostTool::parse_text(a).err().unwrap().to_string();
    assert_eq!(
        message(Some(&text_args(&"é".repeat(301)))),
        "Post text exceeds Bluesky's 300 character limit"
    );
    assert_eq!(message(None), "Failed to parse tool call arguments");
    assert_eq!(message(Some(&jo(vec![("message", js("wrong field"))]))), "Missing required parameter: text");
}

#[test]
fn exactly_three_hundred_characters_is_accepted() {
    let text = "é".repeat(300);
    let posted = post(&tool(), Some(&text_args(&text)), healthy_session(), resolved_alice(), accepted());
    assert_eq!(posted.record.expect("a record").text, text);
}
