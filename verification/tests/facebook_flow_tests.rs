use agent_tools::facebook::FacebookCredentials;
use agent_tools::facebook_tools::{
    FacebookBusinessPagesTool, FacebookPostTool, FacebookReadCommentsTool, FacebookReadMessagesTool,
    FacebookReadPostsTool, FacebookSendMessageTool, GraphMethod, GraphRequest, COMMENT_FIELDS, CONVERSATION_FIELDS,
    MESSAGE_FIELDS, POST_FIELDS,
};
use agent_tools::json::{JsonNumber, JsonValue};

fn js(v: &str) -> JsonValue {
    JsonValue::Str(v.to_string())
}

fn jn(v: u64) -> JsonValue {
    JsonValue::Number(JsonNumber::PosInt(v))
}

fn jo(pairs: Vec<(&str, JsonValue)>) -> JsonValue {
    JsonValue::Object(pairs.into_iter().map(|(k, v)| (k.to_string(), v)).collect())
}

fn ja(items: Vec<JsonValue>) -> JsonValue {
    JsonValue::Array(items)
}

/// Structural equality of two JSON values, members in order.
fn same(a: &JsonValue, b: &JsonValue) -> bool {
    match (a, b) {
        (JsonValue::Null, JsonValue::Null) => true,
        (JsonValue::Bool(x), JsonValue::Bool(y)) => x == y,
        (JsonValue::Str(x), JsonValue::Str(y)) => x == y,
        (JsonValue::Number(x), JsonValue::Number(y)) => format!("{:?}", x) == format!("{:?}", y),
        (JsonValue::Array(xs), JsonValue::Array(ys)) => {
            xs.len() == ys.len() && xs.iter().zip(ys.iter()).all(|(x, y)| same(x, y))
        },
        (JsonValue::Object(xs), JsonValue::Object(ys)) => {
            xs.len() == ys.len() && xs.iter().zip(ys.iter()).all(|((k, x), (l, y))| k == l && same(x, y))
        },
        _ => false,
    }
}

fn creds() -> FacebookCredentials {
    FacebookCredentials::for_test("http://graph")
}

fn param(pairs: &[(String, String)], key: &str) -> Option<String> {
    pairs.iter().find(|(k, _)| k == key).map(|(_, v)| v.clone())
}

fn data(items: Vec<JsonValue>) -> JsonValue {
    jo(vec![("data", ja(items))])
}

fn must_fail<T>(r: Result<T, agent_tools::framework::ToolError>) -> String {
    match r {
        Ok(_) => panic!("the call must fail"),
        Err(e) => e.to_string(),
    }
}

fn plan_of(r: Result<GraphRequest, agent_tools::framework::ToolError>) -> GraphRequest {
    match r {
        Ok(req) => req,
        Err(e) => panic!("the call must be planned: {}", e.to_string()),
    }
}

#[test]
fn a_post_is_form_encoded_to_the_page_feed() {
    let tool = FacebookPostTool::with_credentials(creds());
    let req = plan_of(tool.plan(Some(&jo(vec![("message", js("Hello, world & co"))]))));
    assert!(req.method == GraphMethod::Post);
    assert_eq!(req.url, "http://graph/v21.0/page_1/feed");
    assert_eq!(param(&req.form, "message").as_deref(), Some("Hello, world & co"));
    assert_eq!(param(&req.form, "access_token").as_deref(), Some("test-page-token"));
    assert!(param(&req.form, "link").is_none());
    let reply = jo(vec![("id", js("page_1_999"))]);
    assert_eq!(
        FacebookPostTool::post_result(true, "", Some(&reply)).ok().unwrap(),
        "Successfully posted to Facebook Page (post id: page_1_999)"
    );
}

#[test]
fn an_optional_link_is_attached_and_a_missing_id_degrades() {
    let tool = FacebookPostTool::with_credentials(creds());
    let req = plan_of(tool.plan(Some(&jo(vec![("message", js("look")), ("link", js("https://example.com/a?b=c"))]))));
    assert_eq!(param(&req.form, "link").as_deref(), Some("https://example.com/a?b=c"));
    assert_eq!(
        FacebookPostTool::post_result(true, "", Some(&jo(vec![]))).ok().unwrap(),
        "Successfully posted to Facebook Page (post id: unknown)"
    );
}

#[test]
fn facebook_post_a_graph_api_error_body_is_surfaced() {
    let message = must_fail(FacebookPostTool::post_result(
        false,
        r#"{"error":{"message":"(#200) Permissions error","type":"OAuthException"}}"#,
        None,
    ));
    assert!(message.starts_with("Failed to post to Facebook:"), "{}", message);
    assert!(message.contains("(#200) Permissions error"), "{}", message);
}

#[test]
fn facebook_post_a_missing_token_fails_before_any_request() {
    let tool = FacebookPostTool::with_credentials(creds().without_access_token());
    assert_eq!(
        must_fail(tool.plan(Some(&jo(vec![("message", js("hi"))])))),
        "FACEBOOK_PAGE_ACCESS_TOKEN environment variable not set"
    );
}

#[test]
fn facebook_post_bad_arguments_fail_before_any_request() {
    let tool = FacebookPostTool::with_credentials(creds());
    assert_eq!(must_fail(tool.plan(None)), "Failed to parse tool call arguments");
    assert_eq!(must_fail(tool.plan(Some(&jo(vec![("text", js("wrong field"))])))), "Missing required parameter: message");
}

#[test]
fn posts_are_requested_with_engagement_fields_and_rendered_one_per_line() {
    let tool = FacebookReadPostsTool::with_credentials(creds());
    let req = plan_of(tool.plan(Some(&jo(vec![]))));
    assert!(req.method == GraphMethod::Get);
    assert_eq!(req.url, "http://graph/v21.0/page_1/posts");
    assert_eq!(param(&req.query, "fields").as_deref(), Some(POST_FIELDS));
    assert_eq!(param(&req.query, "limit").as_deref(), Some("10"));
    assert_eq!(param(&req.query, "access_token").as_deref(), Some("test-page-token"));
    let reply = data(vec![
        jo(vec![
            ("id", js("page_1_1")),
            ("message", js("First")),
            ("created_time", js("2026-08-01T10:00:00+0000")),
            ("likes", jo(vec![("summary", jo(vec![("total_count", jn(3))]))])),
            ("comments", jo(vec![("summary", jo(vec![("total_count", jn(1))]))])),
            ("shares", jo(vec![("count", jn(2))])),
        ]),
        jo(vec![("id", js("page_1_2"))]),
    ]);
    let result = FacebookReadPostsTool::read_result(true, "", Some(&reply)).ok().unwrap();
    let lines: Vec<&str> = result.lines().collect();
    assert_eq!(lines.len(), 2, "{}", result);
    assert!(lines[0].contains("First"));
    assert!(lines[0].contains("likes: 3 comments: 1 shares: 2"));
    assert!(lines[1].contains("(no text)"));
}

#[test]
fn the_limit_is_clamped_to_the_documented_maximum() {
    let tool = FacebookReadPostsTool::with_credentials(creds());
    let limit = |n: u64| param(&plan_of(tool.plan(Some(&jo(vec![("limit", jn(n))])))).query, "limit");
    assert_eq!(vec![limit(500), limit(0)], vec![Some("25".to_string()), Some("1".to_string())]);
}

#[test]
fn an_empty_page_says_so() {
    assert_eq!(
        FacebookReadPostsTool::read_result(true, "", Some(&data(vec![]))).ok().unwrap(),
        "No posts found on the Page."
    );
}

#[test]
fn facebook_read_posts_a_graph_api_error_body_is_surfaced() {
    let message = must_fail(FacebookReadPostsTool::read_result(
        false,
        r#"{"error":{"message":"(#210) requires pages_read_engagement"}}"#,
        None,
    ));
    assert!(message.starts_with("Failed to read Facebook posts:"), "{}", message);
    assert!(message.contains("pages_read_engagement"), "{}", message);
}

#[test]
fn facebook_read_posts_missing_credentials_fail_before_any_request() {
    let tokenless = FacebookReadPostsTool::with_credentials(creds().without_access_token());
    assert_eq!(must_fail(tokenless.plan(Some(&jo(vec![])))), "FACEBOOK_PAGE_ACCESS_TOKEN environment variable not set");
    let tool = FacebookReadPostsTool::with_credentials(creds());
    assert_eq!(must_fail(tool.plan(None)), "Failed to parse tool call arguments");
}

#[test]
fn comments_are_read_from_the_post_the_caller_named() {
    let tool = FacebookReadCommentsTool::with_credentials(creds());
    let req = plan_of(tool.plan(Some(&jo(vec![("post_id", js("page_1_77")), ("limit", jn(5))]))));
    assert!(req.method == GraphMethod::Get);
    assert_eq!(req.url, "http://graph/v21.0/page_1_77/comments");
    assert_eq!(param(&req.query, "fields").as_deref(), Some(COMMENT_FIELDS));
    assert_eq!(param(&req.query, "limit").as_deref(), Some("5"));
    assert_eq!(param(&req.query, "access_token").as_deref(), Some("test-page-token"));
    let reply = data(vec![
        jo(vec![
            ("id", js("c1")),
            ("from", jo(vec![("name", js("Jane Doe"))])),
            ("message", js("Great post!")),
            ("created_time", js("2026-08-01T10:00:00+0000")),
        ]),
        jo(vec![("id", js("c2"))]),
    ]);
    let result = FacebookReadCommentsTool::read_result(true, "", Some(&reply)).ok().unwrap();
    let lines: Vec<&str> = result.lines().collect();
    assert_eq!(lines.len(), 2, "{}", result);
    assert!(lines[0].contains("Jane Doe: Great post!"));
    assert!(lines[1].contains("Unknown user: (no text)"));
}

#[test]
fn an_unrelated_post_id_is_not_silently_rewritten() {
    let tool = FacebookReadCommentsTool::with_credentials(creds());
    let req = plan_of(tool.plan(Some(&jo(vec![("post_id", js("999_888"))]))));
    assert_eq!(req.url, "http://graph/v21.0/999_888/comments");
    assert_eq!(param(&req.query, "limit").as_deref(), Some("10"));
    assert_eq!(
        FacebookReadCommentsTool::read_result(true, "", Some(&data(vec![]))).ok().unwrap(),
        "No comments found on this post."
    );
}

#[test]
fn facebook_read_comments_a_graph_api_error_body_is_surfaced() {
    let message = must_fail(FacebookReadCommentsTool::read_result(
        false,
        r#"{"error":{"message":"Unsupported get request"}}"#,
        None,
    ));
    assert!(message.starts_with("Failed to read Facebook comments:"), "{}", message);
    assert!(message.contains("Unsupported get request"), "{}", message);
}

#[test]
fn facebook_read_comments_bad_arguments_and_a_missing_token_fail_before_any_request() {
    let tool = FacebookReadCommentsTool::with_credentials(creds());
    assert_eq!(must_fail(tool.plan(None)), "Failed to parse tool call arguments");
    assert_eq!(must_fail(tool.plan(Some(&jo(vec![])))), "Missing required parameter: post_id");
    let tokenless = FacebookReadCommentsTool::with_credentials(creds().without_access_token());
    assert_eq!(
        must_fail(tokenless.plan(Some(&jo(vec![("post_id", js("p1"))])))),
        "FACEBOOK_PAGE_ACCESS_TOKEN environment variable not set"
    );
}

#[test]
fn without_a_conversation_id_the_page_inbox_is_listed() {
    let tool = FacebookReadMessagesTool::with_credentials(creds());
    let (req, kind) = tool.plan(Some(&jo(vec![]))).ok().unwrap();
    assert_eq!(req.url, "http://graph/v21.0/page_1/conversations");
    assert_eq!(param(&req.query, "fields").as_deref(), Some(CONVERSATION_FIELDS));
    assert_eq!(param(&req.query, "limit").as_deref(), Some("10"));
    assert_eq!(param(&req.query, "access_token").as_deref(), Some("test-page-token"));
    let reply = data(vec![jo(vec![
        ("id", js("t_123")),
        ("updated_time", js("2026-08-01T10:00:00+0000")),
        ("snippet", js("Hey there")),
        (
            "participants",
            data(vec![
                jo(vec![("name", js("Jane Doe")), ("id", js("psid_789"))]),
                jo(vec![("name", js("My Page")), ("id", js("page_1"))]),
            ]),
        ),
    ])]);
    let result = FacebookReadMessagesTool::read_result(kind, true, "", Some(&reply)).ok().unwrap();
    assert!(result.contains("Jane Doe (psid: psid_789)"));
    assert!(result.contains("Hey there"));
    assert!(result.contains("conversation_id: t_123"));
}

#[test]
fn with_a_conversation_id_that_conversations_messages_are_listed() {
    let tool = FacebookReadMessagesTool::with_credentials(creds());
    let (req, kind) = tool.plan(Some(&jo(vec![("conversation_id", js("t_123")), ("limit", jn(3))]))).ok().unwrap();
    assert_eq!(req.url, "http://graph/v21.0/t_123/messages");
    assert_eq!(param(&req.query, "fields").as_deref(), Some(MESSAGE_FIELDS));
    assert_eq!(param(&req.query, "limit").as_deref(), Some("3"));
    let reply = data(vec![jo(vec![
        ("from", jo(vec![("name", js("Jane Doe")), ("id", js("psid_789"))])),
        ("message", js("Hello!")),
        ("created_time", js("2026-08-01T10:05:00+0000")),
    ])]);
    let result = FacebookReadMessagesTool::read_result(kind, true, "", Some(&reply)).ok().unwrap();
    assert!(result.contains("Jane Doe (psid: psid_789): Hello!"));
}

#[test]
fn empty_results_are_reported_per_endpoint() {
    let tool = FacebookReadMessagesTool::with_credentials(creds());
    let (_, inbox) = tool.plan(Some(&jo(vec![]))).ok().unwrap();
    assert_eq!(
        FacebookReadMessagesTool::read_result(inbox, true, "", Some(&data(vec![]))).ok().unwrap(),
        "No conversations found in the Page inbox."
    );
    let (_, thread) = tool.plan(Some(&jo(vec![("conversation_id", js("t_1"))]))).ok().unwrap();
    assert_eq!(
        FacebookReadMessagesTool::read_result(thread, true, "", Some(&jo(vec![("other", js("shape"))]))).ok().unwrap(),
        "No messages found in this conversation."
    );
}

#[test]
fn graph_api_errors_are_surfaced_for_both_endpoints() {
    let tool = FacebookReadMessagesTool::with_credentials(creds());
    let (_, inbox) = tool.plan(Some(&jo(vec![]))).ok().unwrap();
    let inbox_error = must_fail(FacebookReadMessagesTool::read_result(
        inbox,
        false,
        r#"{"error":{"message":"(#3) requires pages_messaging"}}"#,
        None,
    ));
    assert!(inbox_error.starts_with("Failed to read Facebook conversations:"), "{}", inbox_error);
    assert!(inbox_error.contains("pages_messaging"), "{}", inbox_error);
    let (_, thread) = tool.plan(Some(&jo(vec![("conversation_id", js("t_1"))]))).ok().unwrap();
    let message_error = must_fail(FacebookReadMessagesTool::read_result(
        thread,
        false,
        r#"{"error":{"message":"Invalid conversation id"}}"#,
        None,
    ));
    assert!(message_error.starts_with("Failed to read Facebook messages:"), "{}", message_error);
    assert!(message_error.contains("Invalid conversation id"), "{}", message_error);
}

#[test]
fn facebook_read_messages_bad_arguments_and_a_missing_token_fail_before_any_request() {
    let tool = FacebookReadMessagesTool::with_credentials(creds());
    assert_eq!(must_fail(tool.plan(None)), "Failed to parse tool call arguments");
    let tokenless = FacebookReadMessagesTool::with_credentials(creds().without_access_token());
    assert_eq!(must_fail(tokenless.plan(Some(&jo(vec![])))), "FACEBOOK_PAGE_ACCESS_TOKEN environment variable not set");
    assert_eq!(
        must_fail(tokenless.plan(Some(&jo(vec![("conversation_id", js("t_1"))])))),
        "FACEBOOK_PAGE_ACCESS_TOKEN environment variable not set"
    );
}

#[test]
fn a_reply_is_sent_as_a_response_type_message() {
    let tool = FacebookSendMessageTool::with_credentials(creds());
    let req = plan_of(tool.plan(Some(&jo(vec![("recipient_id", js("psid_9")), ("message", js("On its way!"))]))));
    assert!(req.method == GraphMethod::Post);
    assert_eq!(req.url, "http://graph/v21.0/me/messages");
    assert_eq!(param(&req.query, "access_token").as_deref(), Some("test-page-token"));
    let body = req.body.expect("a JSON body");
    let expected = jo(vec![
        ("recipient", jo(vec![("id", js("psid_9"))])),
        ("messaging_type", js("RESPONSE")),
        ("message", jo(vec![("text", js("On its way!"))])),
    ]);
    assert!(same(&body, &expected), "{:?}", body);
    let reply = jo(vec![("recipient_id", js("psid_9")), ("message_id", js("mid.42"))]);
    assert_eq!(
        FacebookSendMessageTool::send_result("psid_9", true, "", Some(&reply)).ok().unwrap(),
        "Successfully sent message to psid_9 (message id: mid.42)"
    );
}

#[test]
fn a_response_without_a_message_id_degrades() {
    assert_eq!(
        FacebookSendMessageTool::send_result("psid_9", true, "", Some(&jo(vec![]))).ok().unwrap(),
        "Successfully sent message to psid_9 (message id: unknown)"
    );
}

#[test]
fn an_outside_the_window_error_is_surfaced() {
    let message = must_fail(FacebookSendMessageTool::send_result(
        "psid_9",
        false,
        r#"{"error":{"message":"This message is sent outside of allowed window","code":10}}"#,
        None,
    ));
    assert!(message.starts_with("Failed to send Facebook message:"), "{}", message);
    assert!(message.contains("outside of allowed window"), "{}", message);
}

#[test]
fn facebook_send_message_bad_arguments_and_a_missing_token_fail_before_any_request() {
    let tool = FacebookSendMessageTool::with_credentials(creds());
    assert_eq!(must_fail(tool.plan(None)), "Failed to parse tool call arguments");
    assert_eq!(must_fail(tool.plan(Some(&jo(vec![("message", js("hi"))])))), "Missing required parameter: recipient_id");
    assert_eq!(
        must_fail(tool.plan(Some(&jo(vec![("recipient_id", js("psid_9"))])))),
        "Missing required parameter: message"
    );
    let tokenless = FacebookSendMessageTool::with_credentials(creds().without_access_token());
    assert_eq!(
        must_fail(tokenless.plan(Some(&jo(vec![("recipient_id", js("psid_9")), ("message", js("hi"))])))),
        "FACEBOOK_PAGE_ACCESS_TOKEN environment variable not set"
    );
}

#[test]
fn facebook_business_pages_a_missing_token_fails_before_any_request() {
    let tokenless = FacebookBusinessPagesTool::with_credentials(creds().without_access_token());
    assert_eq!(must_fail(tokenless.plan()), "FACEBOOK_PAGE_ACCESS_TOKEN environment variable not set");
}
