//! The Facebook Page tools: posting, reading posts, comments and the
//! Messenger inbox, replying, and listing a Business's Pages. Each tool
//! checks its arguments and credentials, says which Graph API request to
//! send, and renders the reply; sending is the caller's job.
use vstd::prelude::*;
use crate::facebook::FacebookCredentials;
use crate::framework::{metadata_is, ToolCategory, ToolError, ToolMetadata, ToolType};
use crate::json::{as_list, as_nat, lookup, text_at, text_or, JsonValue};
use crate::text::{copy_str, decimal, join, push_decimal};

verus! {

/// The fields asked for when reading posts.
pub const POST_FIELDS: &'static str = "id,message,created_time,permalink_url,likes.summary(true),comments.summary(true),shares";

/// The fields asked for when reading comments.
pub const COMMENT_FIELDS: &'static str = "id,message,from,created_time";

/// The fields asked for when listing conversations.
pub const CONVERSATION_FIELDS: &'static str = "participants,updated_time,snippet";

/// The fields asked for when reading messages.
pub const MESSAGE_FIELDS: &'static str = "message,from,created_time";

/// The fields asked for when listing a Business's Pages.
pub const PAGE_FIELDS: &'static str = "id,name,category";

/// What a JSON reply that could not be decoded is reported as.
pub const UNDECODABLE_REPLY: &'static str = "error decoding response body";

/// The HTTP method of a Graph API request.
#[derive(Debug, Clone, Copy, PartialEq, Eq, Structural)]
pub enum GraphMethod {
    Get,
    Post,
}

/// A Graph API request: method, URL, query parameters, form parameters and
/// JSON body.
pub struct GraphRequest {
    pub method: GraphMethod,
    pub url: String,
    pub query: Vec<(String, String)>,
    pub form: Vec<(String, String)>,
    pub body: Option<JsonValue>,
}

/// Parameters as plain values.
pub open spec fn pair_views(v: Seq<(String, String)>) -> Seq<(Seq<char>, Seq<char>)> {
    v.map_values(|p: (String, String)| (p.0@, p.1@))
}

/// `{base_url}/{version}/{path}` for these credentials.
pub open spec fn url_for(c: FacebookCredentials, path: Seq<char>) -> Seq<char> {
    c.spec_base_url() + "/"@ + c.spec_version() + "/"@ + path
}

/// The request has this method, URL and parameters, and no body.
pub open spec fn request_is(
    r: GraphRequest,
    method: GraphMethod,
    url: Seq<char>,
    query: Seq<(Seq<char>, Seq<char>)>,
    form: Seq<(Seq<char>, Seq<char>)>,
) -> bool {
    &&& r.method == method
    &&& r.url@ == url
    &&& pair_views(r.query@) == query
    &&& pair_views(r.form@) == form
}

/// How many items to ask for: the `limit` argument clamped to 1..=25, or 10.
pub open spec fn limit_of(a: JsonValue) -> nat {
    match as_nat(lookup(a, seq!["limit"])) {
        Some(n) => if n < 1 {
            1
        } else if n > 25 {
            25
        } else {
            n as nat
        },
        None => 10,
    }
}

/// A natural number at `path`, or zero.
pub open spec fn count_at(v: JsonValue, path: Seq<&str>) -> nat {
    match as_nat(lookup(v, path)) {
        Some(n) => n as nat,
        None => 0,
    }
}

/// What a listed item is.
#[derive(Debug, Clone, Copy, PartialEq, Eq, Structural)]
pub enum LineKind {
    Post,
    Comment,
    Conversation,
    Message,
    Page,
}

/// A conversation participant: `Name (psid: id)`.
pub open spec fn participant_line(p: JsonValue) -> Seq<char> {
    text_or(p, seq!["name"], "Unknown"@) + " (psid: "@ + text_or(p, seq!["id"], "unknown"@) + ")"@
}

/// A conversation's participants, or `unknown` when it lists none.
pub open spec fn participants_text(c: JsonValue) -> Seq<char> {
    match as_list(lookup(c, seq!["participants", "data"])) {
        Some(ps) => join(ps.map_values(|p: JsonValue| participant_line(p)), ", "@),
        None => "unknown"@,
    }
}

/// The one-line summary of an item.
pub open spec fn line_of(kind: LineKind, v: JsonValue) -> Seq<char> {
    match kind {
        LineKind::Post => "["@ + text_or(v, seq!["created_time"], "unknown time"@) + "] "@ + text_or(
            v,
            seq!["message"],
            "(no text)"@,
        ) + " | likes: "@ + decimal(count_at(v, seq!["likes", "summary", "total_count"]))
            + " comments: "@ + decimal(count_at(v, seq!["comments", "summary", "total_count"]))
            + " shares: "@ + decimal(count_at(v, seq!["shares", "count"])) + " | id: "@ + text_or(
            v,
            seq!["id"],
            "unknown"@,
        ),
        LineKind::Comment => "["@ + text_or(v, seq!["created_time"], "unknown time"@) + "] "@
            + text_or(v, seq!["from", "name"], "Unknown user"@) + ": "@ + text_or(
            v,
            seq!["message"],
            "(no text)"@,
        ) + " | id: "@ + text_or(v, seq!["id"], "unknown"@),
        LineKind::Conversation => "["@ + text_or(v, seq!["updated_time"], "unknown time"@) + "] "@
            + participants_text(v) + ": "@ + text_or(v, seq!["snippet"], "(no preview)"@)
            + " | conversation_id: "@ + text_or(v, seq!["id"], "unknown"@),
        LineKind::Message => "["@ + text_or(v, seq!["created_time"], "unknown time"@) + "] "@
            + text_or(v, seq!["from", "name"], "Unknown sender"@) + " (psid: "@ + text_or(
            v,
            seq!["from", "id"],
            "unknown"@,
        ) + "): "@ + text_or(v, seq!["message"], "(no text)"@),
        LineKind::Page => text_or(v, seq!["name"], "(unnamed page)"@) + " ("@ + text_or(
            v,
            seq!["category"],
            "uncategorized"@,
        ) + ") | id: "@ + text_or(v, seq!["id"], "unknown"@),
    }
}

/// The items of a reply's `data` array (none when it has none).
pub open spec fn items_of(d: JsonValue) -> Seq<JsonValue> {
    match as_list(lookup(d, seq!["data"])) {
        Some(l) => l,
        None => Seq::empty(),
    }
}

/// A listing: one summary line per item, or `empty` when there are none.
pub open spec fn listing(kind: LineKind, d: JsonValue, empty: Seq<char>) -> Seq<char> {
    if items_of(d).len() == 0 {
        empty
    } else {
        join(items_of(d).map_values(|v: JsonValue| line_of(kind, v)), "\n"@)
    }
}

/// The outcome of a read: `ok` says whether the Graph API accepted the
/// request, `body` is its reply text, `data` the reply as JSON (`None` when
/// it was not JSON).
pub open spec fn read_outcome(
    kind: LineKind,
    ok: bool,
    body: Seq<char>,
    data: Option<JsonValue>,
    failure: Seq<char>,
    empty: Seq<char>,
) -> Result<Seq<char>, Seq<char>> {
    if !ok {
        Err(failure + body)
    } else {
        match data {
            None => Err(UNDECODABLE_REPLY@),
            Some(d) => Ok(listing(kind, d, empty)),
        }
    }
}

/// A result or error message as plain values.
pub open spec fn outcome_view(r: Result<String, ToolError>) -> Result<Seq<char>, Seq<char>> {
    match r {
        Ok(s) => Ok(s@),
        Err(e) => Err(e.message@),
    }
}

fn pair(a: &str, b: &str) -> (r: (String, String))
    ensures
        r.0@ == a@,
        r.1@ == b@,
{
    (copy_str(a), copy_str(b))
}

/// A participant's line.
fn participant_text(p: &JsonValue) -> (r: String)
    ensures
        r@ == participant_line(*p),
{
    let mut r = p.text1_or("name", "Unknown");
    r.append(" (psid: ");
    let id = p.text1_or("id", "unknown");
    r.append(id.as_str());
    r.append(")");
    r
}

fn participants_of(c: &JsonValue) -> (r: String)
    ensures
        r@ == participants_text(*c),
{
    match c.array2("participants", "data") {
        None => copy_str("unknown"),
        Some(ps) => {
            let ghost lines = ps@.map_values(|p: JsonValue| participant_line(p));
            let mut out = String::new();
            let mut i: usize = 0;
            assert(lines.take(0) =~= Seq::<Seq<char>>::empty());
            while i < ps.len()
                invariant
                    i <= ps@.len(),
                    lines == ps@.map_values(|p: JsonValue| participant_line(p)),
                    out@ == join(lines.take(i as int), ", "@),
                decreases ps@.len() - i,
            {
                let t = participant_text(&ps[i]);
                assert(lines.take(i + 1).drop_last() =~= lines.take(i as int));
                if i > 0 {
                    out.append(", ");
                }
                out.append(t.as_str());
                assert(out@ =~= join(lines.take(i + 1), ", "@));
                i = i + 1;
            }
            assert(lines.take(lines.len() as int) =~= lines);
            out
        },
    }
}

fn count_text(out: &mut String, v: &JsonValue, k1: &str, k2: &str, k3: Option<&str>)
    ensures
        final(out)@ == old(out)@ + decimal(
            match k3 {
                Some(k) => count_at(*v, seq![k1, k2, k]),
                None => count_at(*v, seq![k1, k2]),
            },
        ),
{
    let n = match k3 {
        Some(k) => v.u64_3(k1, k2, k),
        None => v.u64_2(k1, k2),
    };
    push_decimal(
        out,
        match n {
            Some(n) => n,
            None => 0,
        },
    );
}

/// The one-line summary of an item.
pub fn format_line(kind: LineKind, v: &JsonValue) -> (r: String)
    ensures
        r@ == line_of(kind, *v),
{
    match kind {
        LineKind::Post => {
            let mut r = copy_str("[");
            r.append(v.text1_or("created_time", "unknown time").as_str());
            r.append("] ");
            r.append(v.text1_or("message", "(no text)").as_str());
            r.append(" | likes: ");
            count_text(&mut r, v, "likes", "summary", Some("total_count"));
            r.append(" comments: ");
            count_text(&mut r, v, "comments", "summary", Some("total_count"));
            r.append(" shares: ");
            count_text(&mut r, v, "shares", "count", None);
            r.append(" | id: ");
            r.append(v.text1_or("id", "unknown").as_str());
            r
        },
        LineKind::Comment => {
            let mut r = copy_str("[");
            r.append(v.text1_or("created_time", "unknown time").as_str());
            r.append("] ");
            r.append(v.text2_or("from", "name", "Unknown user").as_str());
            r.append(": ");
            r.append(v.text1_or("message", "(no text)").as_str());
            r.append(" | id: ");
            r.append(v.text1_or("id", "unknown").as_str());
            r
        },
        LineKind::Conversation => {
            let mut r = copy_str("[");
            r.append(v.text1_or("updated_time", "unknown time").as_str());
            r.append("] ");
            r.append(participants_of(v).as_str());
            r.append(": ");
            r.append(v.text1_or("snippet", "(no preview)").as_str());
            r.append(" | conversation_id: ");
            r.append(v.text1_or("id", "unknown").as_str());
            r
        },
        LineKind::Message => {
            let mut r = copy_str("[");
            r.append(v.text1_or("created_time", "unknown time").as_str());
            r.append("] ");
            r.append(v.text2_or("from", "name", "Unknown sender").as_str());
            r.append(" (psid: ");
            r.append(v.text2_or("from", "id", "unknown").as_str());
            r.append("): ");
            r.append(v.text1_or("message", "(no text)").as_str());
            r
        },
        LineKind::Page => {
            let mut r = v.text1_or("name", "(unnamed page)");
            r.append(" (");
            r.append(v.text1_or("category", "uncategorized").as_str());
            r.append(") | id: ");
            r.append(v.text1_or("id", "unknown").as_str());
            r
        },
    }
}

/// A listing of the reply's items, or `empty` when there are none.
pub fn format_listing(kind: LineKind, d: &JsonValue, empty: &str) -> (r: String)
    ensures
        r@ == listing(kind, *d, empty@),
{
    let items = match d.array1("data") {
        Some(items) => items,
        None => {
            return copy_str(empty);
        },
    };
    if items.len() == 0 {
        return copy_str(empty);
    }
    let ghost lines = items@.map_values(|v: JsonValue| line_of(kind, v));
    let mut out = String::new();
    let mut i: usize = 0;
    assert(lines.take(0) =~= Seq::<Seq<char>>::empty());
    while i < items.len()
        invariant
            i <= items@.len(),
            lines == items@.map_values(|v: JsonValue| line_of(kind, v)),
            out@ == join(lines.take(i as int), "\n"@),
        decreases items@.len() - i,
    {
        let t = format_line(kind, &items[i]);
        assert(lines.take(i + 1).drop_last() =~= lines.take(i as int));
        if i > 0 {
            out.append("\n");
        }
        out.append(t.as_str());
        assert(out@ =~= join(lines.take(i + 1), "\n"@));
        i = i + 1;
    }
    assert(lines.take(lines.len() as int) =~= lines);
    out
}

/// The outcome of a read request.
pub fn read_result(
    kind: LineKind,
    ok: bool,
    body: &str,
    data: Option<&JsonValue>,
    failure: &str,
    empty: &str,
) -> (r: Result<String, ToolError>)
    ensures
        outcome_view(r) == read_outcome(
            kind,
            ok,
            body@,
            match data {
                Some(d) => Some(*d),
                None => None,
            },
            failure@,
            empty@,
        ),
{
    if !ok {
        let mut m = copy_str(failure);
        m.append(body);
        return Err(ToolError::new(m));
    }
    match data {
        None => Err(ToolError::msg(UNDECODABLE_REPLY)),
        Some(d) => Ok(format_listing(kind, d, empty)),
    }
}

/// The `limit` argument clamped to 1..=25, or 10.
pub fn limit_arg(a: &JsonValue) -> (n: u64)
    ensures
        n == limit_of(*a),
        1 <= n <= 25,
{
    match a.u64_1("limit") {
        Some(n) => if n < 1 {
            1
        } else if n > 25 {
            25
        } else {
            n
        },
        None => 10,
    }
}

fn decimal_string(n: u64) -> (r: String)
    ensures
        r@ == decimal(n as nat),
{
    crate::text::u64_to_string(n)
}

/// A GET request with the given query.
fn get_request(url: String, query: Vec<(String, String)>) -> (r: GraphRequest)
    ensures
        r.method == GraphMethod::Get,
        r.url == url,
        r.query == query,
        r.form@.len() == 0,
        r.body is None,
{
    GraphRequest { method: GraphMethod::Get, url, query, form: Vec::new(), body: None }
}

/// The arguments of a call, or the error for arguments that were not JSON.
fn arguments(args: Option<&JsonValue>) -> (r: Result<&JsonValue, ToolError>)
    ensures
        match args {
            Some(a) => r matches Ok(x) && *x == *a,
            None => r matches Err(e) && e.message@ == "Failed to parse tool call arguments"@,
        },
{
    match args {
        Some(a) => Ok(a),
        None => Err(ToolError::msg("Failed to parse tool call arguments")),
    }
}

/// The query of a listing request: fields, limit and token.
fn listing_query(fields: &str, limit: u64, token: &str) -> (r: Vec<(String, String)>)
    ensures
        pair_views(r@) == seq![
            ("fields"@, fields@),
            ("limit"@, decimal(limit as nat)),
            ("access_token"@, token@),
        ],
{
    let mut q: Vec<(String, String)> = Vec::new();
    q.push(pair("fields", fields));
    q.push((copy_str("limit"), decimal_string(limit)));
    q.push(pair("access_token", token));
    assert(pair_views(q@) =~= seq![
        ("fields"@, fields@),
        ("limit"@, decimal(limit as nat)),
        ("access_token"@, token@),
    ]);
    q
}

/// `{id}{suffix}`.
fn path_of(id: &str, suffix: &str) -> (r: String)
    ensures
        r@ == id@ + suffix@,
{
    let mut p = copy_str(id);
    p.append(suffix);
    p
}

/// Facebook Page post tool.
pub struct FacebookPostTool {
    pub metadata: ToolMetadata,
    pub credentials: FacebookCredentials,
}

impl FacebookPostTool {
    /// A post tool with these credentials.
    pub fn new(credentials: FacebookCredentials) -> (t: Self)
        ensures
            t.credentials == credentials,
            metadata_is(
                t.metadata,
                "facebook_post"@,
                "Facebook Post"@,
                ToolType::FacebookPost,
                "Post a message to the user's Facebook Page"@,
                ToolCategory::Social,
            ),
    {
        FacebookPostTool {
            metadata: ToolMetadata::from_parts(
                "facebook_post",
                "Facebook Post",
                ToolType::FacebookPost,
                "Post a message to the user's Facebook Page",
                ToolCategory::Social,
            ),
            credentials,
        }
    }

    /// The same tool with other credentials.
    pub fn with_credentials(credentials: FacebookCredentials) -> (t: Self)
        ensures
            t.credentials == credentials,
            t.metadata.id@ == "facebook_post"@,
    {
        Self::new(credentials)
    }

    /// The request a call makes: the message (and optional link) posted as a
    /// form to the Page's feed.
    pub fn plan(&self, args: Option<&JsonValue>) -> (r: Result<GraphRequest, ToolError>)
        ensures
            match args {
                None => r matches Err(e) && e.message@ == "Failed to parse tool call arguments"@,
                Some(a) => match text_at(*a, seq!["message"]) {
                    None => r matches Err(e) && e.message@ == "Missing required parameter: message"@,
                    Some(m) => match (
                        self.credentials.spec_page_id(),
                        self.credentials.spec_access_token(),
                    ) {
                        (None, _) => r matches Err(e) && e.message@
                            == "FACEBOOK_PAGE_ID environment variable not set"@,
                        (Some(_), None) => r matches Err(e) && e.message@
                            == "FACEBOOK_PAGE_ACCESS_TOKEN environment variable not set"@,
                        (Some(p), Some(t)) => r matches Ok(req) && request_is(
                            req,
                            GraphMethod::Post,
                            url_for(self.credentials, p + "/feed"@),
                            Seq::empty(),
                            seq![("message"@, m), ("access_token"@, t)] + match text_at(
                                *a,
                                seq!["link"],
                            ) {
                                Some(l) => seq![("link"@, l)],
                                None => Seq::empty(),
                            },
                        ) && req.body is None,
                    },
                },
            },
    {
        let a = arguments(args)?;
        let message = match a.text1("message") {
            Some(m) => m,
            None => {
                return Err(ToolError::msg("Missing required parameter: message"));
            },
        };
        let link = a.text1("link");
        let page_id = self.credentials.page_id()?;
        let token = self.credentials.access_token()?;
        let url = self.credentials.graph_url(path_of(page_id, "/feed").as_str());
        let mut form: Vec<(String, String)> = Vec::new();
        form.push(pair("message", message));
        form.push(pair("access_token", token));
        match link {
            Some(l) => {
                form.push(pair("link", l));
            },
            None => {},
        }
        let req = GraphRequest { method: GraphMethod::Post, url, query: Vec::new(), form, body: None };
        assert(pair_views(req.query@) =~= Seq::<(Seq<char>, Seq<char>)>::empty());
        assert(pair_views(req.form@) =~= seq![("message"@, message@), ("access_token"@, token@)]
            + match text_at(*a, seq!["link"]) {
            Some(l) => seq![("link"@, l)],
            None => Seq::empty(),
        });
        Ok(req)
    }

    /// The outcome of the post: the post id the Graph API returned.
    pub fn post_result(ok: bool, body: &str, data: Option<&JsonValue>) -> (r: Result<String, ToolError>)
        ensures
            !ok ==> (r matches Err(e) && e.message@ == "Failed to post to Facebook: "@ + body@),
            ok ==> match data {
                None => r matches Err(e) && e.message@ == UNDECODABLE_REPLY@,
                Some(d) => r matches Ok(s) && s@ == "Successfully posted to Facebook Page (post id: "@
                    + text_or(*d, seq!["id"], "unknown"@) + ")"@,
            },
    {
        if !ok {
            let mut m = copy_str("Failed to post to Facebook: ");
            m.append(body);
            return Err(ToolError::new(m));
        }
        match data {
            None => Err(ToolError::msg(UNDECODABLE_REPLY)),
            Some(d) => {
                let mut s = copy_str("Successfully posted to Facebook Page (post id: ");
                s.append(d.text1_or("id", "unknown").as_str());
                s.append(")");
                Ok(s)
            },
        }
    }
}

/// Facebook Page posts reader.
pub struct FacebookReadPostsTool {
    pub metadata: ToolMetadata,
    pub credentials: FacebookCredentials,
}

impl FacebookReadPostsTool {
    /// A posts reader with these credentials.
    pub fn new(credentials: FacebookCredentials) -> (t: Self)
        ensures
            t.credentials == credentials,
            metadata_is(
                t.metadata,
                "facebook_read_posts"@,
                "Facebook Read Posts"@,
                ToolType::FacebookPostsRead,
                "Read recent posts from the user's Facebook Page, including like/comment/share counts"@,
                ToolCategory::Social,
            ),
    {
        FacebookReadPostsTool {
            metadata: ToolMetadata::from_parts(
                "facebook_read_posts",
                "Facebook Read Posts",
                ToolType::FacebookPostsRead,
                "Read recent posts from the user's Facebook Page, including like/comment/share counts",
                ToolCategory::Social,
            ),
            credentials,
        }
    }

    /// The same tool with other credentials.
    pub fn with_credentials(credentials: FacebookCredentials) -> (t: Self)
        ensures
            t.credentials == credentials,
            t.metadata.id@ == "facebook_read_posts"@,
    {
        Self::new(credentials)
    }

    /// The request a call makes: the Page's posts with engagement counts.
    pub fn plan(&self, args: Option<&JsonValue>) -> (r: Result<GraphRequest, ToolError>)
        ensures
            match args {
                None => r matches Err(e) && e.message@ == "Failed to parse tool call arguments"@,
                Some(a) => match (
                    self.credentials.spec_page_id(),
                    self.credentials.spec_access_token(),
                ) {
                    (None, _) => r matches Err(e) && e.message@
                        == "FACEBOOK_PAGE_ID environment variable not set"@,
                    (Some(_), None) => r matches Err(e) && e.message@
                        == "FACEBOOK_PAGE_ACCESS_TOKEN environment variable not set"@,
                    (Some(p), Some(t)) => r matches Ok(req) && request_is(
                        req,
                        GraphMethod::Get,
                        url_for(self.credentials, p + "/posts"@),
                        seq![
                            ("fields"@, POST_FIELDS@),
                            ("limit"@, decimal(limit_of(*a))),
                            ("access_token"@, t),
                        ],
                        Seq::empty(),
                    ) && req.body is None,
                },
            },
    {
        let a = arguments(args)?;
        let limit = limit_arg(a);
        let page_id = self.credentials.page_id()?;
        let token = self.credentials.access_token()?;
        let url = self.credentials.graph_url(path_of(page_id, "/posts").as_str());
        let req = get_request(url, listing_query(POST_FIELDS, limit, token));
        assert(pair_views(req.form@) =~= Seq::<(Seq<char>, Seq<char>)>::empty());
        Ok(req)
    }

    /// The outcome of the read: one line per post.
    pub fn read_result(ok: bool, body: &str, data: Option<&JsonValue>) -> (r: Result<String, ToolError>)
        ensures
            outcome_view(r) == read_outcome(
                LineKind::Post,
                ok,
                body@,
                match data {
                    Some(d) => Some(*d),
                    None => None,
                },
                "Failed to read Facebook posts: "@,
                "No posts found on the Page."@,
            ),
    {
        read_result(
            LineKind::Post,
            ok,
            body,
            data,
            "Failed to read Facebook posts: ",
            "No posts found on the Page.",
        )
    }
}

/// Facebook post comments reader.
pub struct FacebookReadCommentsTool {
    pub metadata: ToolMetadata,
    pub credentials: FacebookCredentials,
}

impl FacebookReadCommentsTool {
    /// A comments reader with these credentials.
    pub fn new(credentials: FacebookCredentials) -> (t: Self)
        ensures
            t.credentials == credentials,
            metadata_is(
                t.metadata,
                "facebook_read_comments"@,
                "Facebook Read Comments"@,
                ToolType::FacebookCommentsRead,
                "Read comments users have left on a Facebook Page post"@,
                ToolCategory::Social,
            ),
    {
        FacebookReadCommentsTool {
            metadata: ToolMetadata::from_parts(
                "facebook_read_comments",
                "Facebook Read Comments",
                ToolType::FacebookCommentsRead,
                "Read comments users have left on a Facebook Page post",
                ToolCategory::Social,
            ),
            credentials,
        }
    }

    /// The same tool with other credentials.
    pub fn with_credentials(credentials: FacebookCredentials) -> (t: Self)
        ensures
            t.credentials == credentials,
            t.metadata.id@ == "facebook_read_comments"@,
    {
        Self::new(credentials)
    }

    /// The request a call makes: the comments of the post it names.
    pub fn plan(&self, args: Option<&JsonValue>) -> (r: Result<GraphRequest, ToolError>)
        ensures
            match args {
                None => r matches Err(e) && e.message@ == "Failed to parse tool call arguments"@,
                Some(a) => match text_at(*a, seq!["post_id"]) {
                    None => r matches Err(e) && e.message@ == "Missing required parameter: post_id"@,
                    Some(post) => match self.credentials.spec_access_token() {
                        None => r matches Err(e) && e.message@
                            == "FACEBOOK_PAGE_ACCESS_TOKEN environment variable not set"@,
                        Some(t) => r matches Ok(req) && request_is(
                            req,
                            GraphMethod::Get,
                            url_for(self.credentials, post + "/comments"@),
                            seq![
                                ("fields"@, COMMENT_FIELDS@),
                                ("limit"@, decimal(limit_of(*a))),
                                ("access_token"@, t),
                            ],
                            Seq::empty(),
                        ) && req.body is None,
                    },
                },
            },
    {
        let a = arguments(args)?;
        let post_id = match a.text1("post_id") {
            Some(p) => p,
            None => {
                return Err(ToolError::msg("Missing required parameter: post_id"));
            },
        };
        let limit = limit_arg(a);
        let token = self.credentials.access_token()?;
        let url = self.credentials.graph_url(path_of(post_id, "/comments").as_str());
        let req = get_request(url, listing_query(COMMENT_FIELDS, limit, token));
        assert(pair_views(req.form@) =~= Seq::<(Seq<char>, Seq<char>)>::empty());
        Ok(req)
    }

    /// The outcome of the read: one line per comment.
    pub fn read_result(ok: bool, body: &str, data: Option<&JsonValue>) -> (r: Result<String, ToolError>)
        ensures
            outcome_view(r) == read_outcome(
                LineKind::Comment,
                ok,
                body@,
                match data {
                    Some(d) => Some(*d),
                    None => None,
                },
                "Failed to read Facebook comments: "@,
                "No comments found on this post."@,
            ),
    {
        read_result(
            LineKind::Comment,
            ok,
            body,
            data,
            "Failed to read Facebook comments: ",
            "No comments found on this post.",
        )
    }
}

/// Facebook Page Messenger inbox reader.
pub struct FacebookReadMessagesTool {
    pub metadata: ToolMetadata,
    pub credentials: FacebookCredentials,
}

impl FacebookReadMessagesTool {
    /// An inbox reader with these credentials.
    pub fn new(credentials: FacebookCredentials) -> (t: Self)
        ensures
            t.credentials == credentials,
            metadata_is(
                t.metadata,
                "facebook_read_messages"@,
                "Facebook Read Messages"@,
                ToolType::FacebookMessagesRead,
                "Read the Facebook Page's Messenger inbox"@,
                ToolCategory::Social,
            ),
    {
        FacebookReadMessagesTool {
            metadata: ToolMetadata::from_parts(
                "facebook_read_messages",
                "Facebook Read Messages",
                ToolType::FacebookMessagesRead,
                "Read the Facebook Page's Messenger inbox",
                ToolCategory::Social,
            ),
            credentials,
        }
    }

    /// The same tool with other credentials.
    pub fn with_credentials(credentials: FacebookCredentials) -> (t: Self)
        ensures
            t.credentials == credentials,
            t.metadata.id@ == "facebook_read_messages"@,
    {
        Self::new(credentials)
    }

    /// The request a call makes: the messages of the conversation it names,
    /// or the Page's conversations when it names none. The kind of the lines
    /// to render comes with it.
    pub fn plan(&self, args: Option<&JsonValue>) -> (r: Result<(GraphRequest, LineKind), ToolError>)
        ensures
            match args {
                None => r matches Err(e) && e.message@ == "Failed to parse tool call arguments"@,
                Some(a) => match text_at(*a, seq!["conversation_id"]) {
                    Some(c) => match self.credentials.spec_access_token() {
                        None => r matches Err(e) && e.message@
                            == "FACEBOOK_PAGE_ACCESS_TOKEN environment variable not set"@,
                        Some(t) => r matches Ok(req) && req.1 == LineKind::Message && request_is(
                            req.0,
                            GraphMethod::Get,
                            url_for(self.credentials, c + "/messages"@),
                            seq![
                                ("fields"@, MESSAGE_FIELDS@),
                                ("limit"@, decimal(limit_of(*a))),
                                ("access_token"@, t),
                            ],
                            Seq::empty(),
                        ) && req.0.body is None,
                    },
                    None => match (
                        self.credentials.spec_page_id(),
                        self.credentials.spec_access_token(),
                    ) {
                        (None, _) => r matches Err(e) && e.message@
                            == "FACEBOOK_PAGE_ID environment variable not set"@,
                        (Some(_), None) => r matches Err(e) && e.message@
                            == "FACEBOOK_PAGE_ACCESS_TOKEN environment variable not set"@,
                        (Some(p), Some(t)) => r matches Ok(req) && req.1 == LineKind::Conversation
                            && request_is(
                            req.0,
                            GraphMethod::Get,
                            url_for(self.credentials, p + "/conversations"@),
                            seq![
                                ("fields"@, CONVERSATION_FIELDS@),
                                ("limit"@, decimal(limit_of(*a))),
                                ("access_token"@, t),
                            ],
                            Seq::empty(),
                        ) && req.0.body is None,
                    },
                },
            },
    {
        let a = arguments(args)?;
        let conversation = a.text1("conversation_id");
        let limit = limit_arg(a);
        match conversation {
            Some(c) => {
                let token = self.credentials.access_token()?;
                let url = self.credentials.graph_url(path_of(c, "/messages").as_str());
                let req = get_request(url, listing_query(MESSAGE_FIELDS, limit, token));
                assert(pair_views(req.form@) =~= Seq::<(Seq<char>, Seq<char>)>::empty());
                Ok((req, LineKind::Message))
            },
            None => {
                let page_id = self.credentials.page_id()?;
                let token = self.credentials.access_token()?;
                let url = self.credentials.graph_url(path_of(page_id, "/conversations").as_str());
                let req = get_request(url, listing_query(CONVERSATION_FIELDS, limit, token));
                assert(pair_views(req.form@) =~= Seq::<(Seq<char>, Seq<char>)>::empty());
                Ok((req, LineKind::Conversation))
            },
        }
    }

    /// The outcome of a read of the kind `plan` gave: one line per
    /// conversation or per message.
    pub fn read_result(kind: LineKind, ok: bool, body: &str, data: Option<&JsonValue>) -> (r: Result<
        String,
        ToolError,
    >)
        requires
            kind == LineKind::Conversation || kind == LineKind::Message,
        ensures
            outcome_view(r) == read_outcome(
                kind,
                ok,
                body@,
                match data {
                    Some(d) => Some(*d),
                    None => None,
                },
                if kind == LineKind::Conversation {
                    "Failed to read Facebook conversations: "@
                } else {
                    "Failed to read Facebook messages: "@
                },
                if kind == LineKind::Conversation {
                    "No conversations found in the Page inbox."@
                } else {
                    "No messages found in this conversation."@
                },
            ),
    {
        if kind == LineKind::Conversation {
            read_result(
                kind,
                ok,
                body,
                data,
                "Failed to read Facebook conversations: ",
                "No conversations found in the Page inbox.",
            )
        } else {
            read_result(
                kind,
                ok,
                body,
                data,
                "Failed to read Facebook messages: ",
                "No messages found in this conversation.",
            )
        }
    }
}

/// The JSON body of a Messenger reply.
pub open spec fn reply_body_is(b: JsonValue, recipient: Seq<char>, message: Seq<char>) -> bool {
    &&& text_at(b, seq!["recipient", "id"]) == Some(recipient)
    &&& text_at(b, seq!["messaging_type"]) == Some("RESPONSE"@)
    &&& text_at(b, seq!["message", "text"]) == Some(message)
}

fn object1(k: &str, v: JsonValue) -> (r: JsonValue)
    ensures
        r matches JsonValue::Object(m) && m@.len() == 1 && m@[0].0@ == k@ && m@[0].1 == v,
{
    let mut m: Vec<(String, JsonValue)> = Vec::new();
    m.push((copy_str(k), v));
    JsonValue::Object(m)
}

proof fn lemma_single_member(o: JsonValue, k: Seq<char>, v: JsonValue)
    requires
        o matches JsonValue::Object(m) && m@.len() == 1 && m@[0].0@ == k && m@[0].1 == v,
    ensures
        crate::json::get(o, k) == Some(v),
{
}

proof fn lemma_reply_body(
    b: JsonValue,
    es: Seq<(String, JsonValue)>,
    rec: JsonValue,
    msg: JsonValue,
    rv: JsonValue,
    mv: JsonValue,
    recipient: Seq<char>,
    message: Seq<char>,
)
    requires
        b matches JsonValue::Object(v) && v@ == es,
        es.len() == 3,
        es[0].0@ == "recipient"@,
        es[0].1 == rec,
        es[1].0@ == "messaging_type"@,
        es[1].1 matches JsonValue::Str(s) && s@ == "RESPONSE"@,
        es[2].0@ == "message"@,
        es[2].1 == msg,
        rec matches JsonValue::Object(m) && m@.len() == 1 && m@[0].0@ == "id"@ && m@[0].1 == rv,
        msg matches JsonValue::Object(m) && m@.len() == 1 && m@[0].0@ == "text"@ && m@[0].1 == mv,
        rv matches JsonValue::Str(s) && s@ == recipient,
        mv matches JsonValue::Str(s) && s@ == message,
    ensures
        reply_body_is(b, recipient, message),
{
    reveal_strlit("recipient");
    reveal_strlit("messaging_type");
    reveal_strlit("message");
    assert("recipient"@.len() == 9);
    assert("messaging_type"@.len() == 14);
    assert("message"@.len() == 7);
    assert(es.drop_first()[0] == es[1]);
    assert(es.drop_first().drop_first()[0] == es[2]);
    assert(crate::json::member(es, "recipient"@) == Some(rec));
    assert(crate::json::member(es.drop_first(), "messaging_type"@) == Some(es[1].1));
    assert(crate::json::member(es, "messaging_type"@) == Some(es[1].1));
    assert(crate::json::member(es.drop_first().drop_first(), "message"@) == Some(msg));
    assert(crate::json::member(es.drop_first(), "message"@) == Some(msg));
    assert(crate::json::member(es, "message"@) == Some(msg));
    lemma_single_member(rec, "id"@, rv);
    lemma_single_member(msg, "text"@, mv);
    let p1 = seq!["recipient", "id"];
    assert(p1.drop_first() =~= seq!["id"]);
    assert(seq!["id"].drop_first() =~= Seq::<&str>::empty());
    assert(lookup(rv, Seq::<&str>::empty()) == Some(rv));
    assert(lookup(rv, seq!["id"].drop_first()) == Some(rv));
    assert(lookup(rec, seq!["id"]) == Some(rv));
    assert(lookup(b, p1) == Some(rv));
    let p2 = seq!["message", "text"];
    assert(p2.drop_first() =~= seq!["text"]);
    assert(seq!["text"].drop_first() =~= Seq::<&str>::empty());
    assert(lookup(mv, Seq::<&str>::empty()) == Some(mv));
    assert(lookup(mv, seq!["text"].drop_first()) == Some(mv));
    assert(lookup(msg, seq!["text"]) == Some(mv));
    assert(lookup(b, p2) == Some(mv));
    let p3 = seq!["messaging_type"];
    assert(p3.drop_first() =~= Seq::<&str>::empty());
    assert(lookup(es[1].1, Seq::<&str>::empty()) == Some(es[1].1));
    assert(lookup(es[1].1, p3.drop_first()) == Some(es[1].1));
    assert(lookup(b, p3) == Some(es[1].1));
}

/// Facebook Messenger reply tool.
pub struct FacebookSendMessageTool {
    pub metadata: ToolMetadata,
    pub credentials: FacebookCredentials,
}

impl FacebookSendMessageTool {
    /// A reply tool with these credentials.
    pub fn new(credentials: FacebookCredentials) -> (t: Self)
        ensures
            t.credentials == credentials,
            metadata_is(
                t.metadata,
                "facebook_send_message"@,
                "Facebook Send Message"@,
                ToolType::FacebookMessageSend,
                "Reply to a Messenger conversation on the user's Facebook Page"@,
                ToolCategory::Social,
            ),
    {
        FacebookSendMessageTool {
            metadata: ToolMetadata::from_parts(
                "facebook_send_message",
                "Facebook Send Message",
                ToolType::FacebookMessageSend,
                "Reply to a Messenger conversation on the user's Facebook Page",
                ToolCategory::Social,
            ),
            credentials,
        }
    }

    /// The same tool with other credentials.
    pub fn with_credentials(credentials: FacebookCredentials) -> (t: Self)
        ensures
            t.credentials == credentials,
            t.metadata.id@ == "facebook_send_message"@,
    {
        Self::new(credentials)
    }

    /// The request a call makes: a `RESPONSE` message to the recipient it
    /// names, posted as JSON with the token in the query.
    pub fn plan(&self, args: Option<&JsonValue>) -> (r: Result<GraphRequest, ToolError>)
        ensures
            match args {
                None => r matches Err(e) && e.message@ == "Failed to parse tool call arguments"@,
                Some(a) => match (text_at(*a, seq!["recipient_id"]), text_at(*a, seq!["message"])) {
                    (None, _) => r matches Err(e) && e.message@
                        == "Missing required parameter: recipient_id"@,
                    (Some(_), None) => r matches Err(e) && e.message@
                        == "Missing required parameter: message"@,
                    (Some(rid), Some(m)) => match self.credentials.spec_access_token() {
                        None => r matches Err(e) && e.message@
                            == "FACEBOOK_PAGE_ACCESS_TOKEN environment variable not set"@,
                        Some(t) => r matches Ok(req) && request_is(
                            req,
                            GraphMethod::Post,
                            url_for(self.credentials, "me/messages"@),
                            seq![("access_token"@, t)],
                            Seq::empty(),
                        ) && (req.body matches Some(b) && reply_body_is(b, rid, m)),
                    },
                },
            },
    {
        let a = arguments(args)?;
        let recipient = match a.text1("recipient_id") {
            Some(x) => x,
            None => {
                return Err(ToolError::msg("Missing required parameter: recipient_id"));
            },
        };
        let message = match a.text1("message") {
            Some(x) => x,
            None => {
                return Err(ToolError::msg("Missing required parameter: message"));
            },
        };
        let token = self.credentials.access_token()?;
        let url = self.credentials.graph_url("me/messages");
        let mut query: Vec<(String, String)> = Vec::new();
        query.push(pair("access_token", token));
        let rid_val = JsonValue::Str(copy_str(recipient));
        let msg_val = JsonValue::Str(copy_str(message));
        let ghost rv = rid_val;
        let ghost mv = msg_val;
        let rec = object1("id", rid_val);
        let msg = object1("text", msg_val);
        let ghost recv = rec;
        let ghost msgv = msg;
        let mut body: Vec<(String, JsonValue)> = Vec::new();
        body.push((copy_str("recipient"), rec));
        body.push((copy_str("messaging_type"), JsonValue::Str(copy_str("RESPONSE"))));
        body.push((copy_str("message"), msg));
        let ghost es = body@;
        let b = JsonValue::Object(body);
        proof {
            lemma_reply_body(b, es, recv, msgv, rv, mv, recipient@, message@);
        }
        let req = GraphRequest { method: GraphMethod::Post, url, query, form: Vec::new(), body: Some(b) };
        assert(pair_views(req.query@) =~= seq![("access_token"@, token@)]);
        assert(pair_views(req.form@) =~= Seq::<(Seq<char>, Seq<char>)>::empty());
        Ok(req)
    }

    /// The outcome of the reply: the message id the Graph API returned.
    pub fn send_result(recipient_id: &str, ok: bool, body: &str, data: Option<&JsonValue>) -> (r: Result<
        String,
        ToolError,
    >)
        ensures
            !ok ==> (r matches Err(e) && e.message@ == "Failed to send Facebook message: "@ + body@),
            ok ==> match data {
                None => r matches Err(e) && e.message@ == UNDECODABLE_REPLY@,
                Some(d) => r matches Ok(s) && s@ == "Successfully sent message to "@ + recipient_id@
                    + " (message id: "@ + text_or(*d, seq!["message_id"], "unknown"@) + ")"@,
            },
    {
        if !ok {
            let mut m = copy_str("Failed to send Facebook message: ");
            m.append(body);
            return Err(ToolError::new(m));
        }
        match data {
            None => Err(ToolError::msg(UNDECODABLE_REPLY)),
            Some(d) => {
                let mut s = copy_str("Successfully sent message to ");
                s.append(recipient_id);
                s.append(" (message id: ");
                s.append(d.text1_or("message_id", "unknown").as_str());
                s.append(")");
                Ok(s)
            },
        }
    }
}

/// Lists the Pages owned by the configured Meta Business.
pub struct FacebookBusinessPagesTool {
    pub metadata: ToolMetadata,
    pub credentials: FacebookCredentials,
}

impl FacebookBusinessPagesTool {
    /// A Business Pages lister with these credentials.
    pub fn new(credentials: FacebookCredentials) -> (t: Self)
        ensures
            t.credentials == credentials,
            metadata_is(
                t.metadata,
                "facebook_list_business_pages"@,
                "Facebook List Business Pages"@,
                ToolType::FacebookBusinessPagesRead,
                "List Facebook Pages owned by the configured Meta Business"@,
                ToolCategory::Social,
            ),
    {
        FacebookBusinessPagesTool {
            metadata: ToolMetadata::from_parts(
                "facebook_list_business_pages",
                "Facebook List Business Pages",
                ToolType::FacebookBusinessPagesRead,
                "List Facebook Pages owned by the configured Meta Business",
                ToolCategory::Social,
            ),
            credentials,
        }
    }

    /// The same tool with other credentials.
    pub fn with_credentials(credentials: FacebookCredentials) -> (t: Self)
        ensures
            t.credentials == credentials,
            t.metadata.id@ == "facebook_list_business_pages"@,
    {
        Self::new(credentials)
    }

    /// The request a call makes (its arguments are not read): the Pages the
    /// Business owns.
    pub fn plan(&self) -> (r: Result<GraphRequest, ToolError>)
        ensures
            match (self.credentials.spec_business_id(), self.credentials.spec_access_token()) {
                (None, _) => r matches Err(e) && e.message@
                    == "FACEBOOK_BUSINESS_ID environment variable not set"@,
                (Some(_), None) => r matches Err(e) && e.message@
                    == "FACEBOOK_PAGE_ACCESS_TOKEN environment variable not set"@,
                (Some(b), Some(t)) => r matches Ok(req) && request_is(
                    req,
                    GraphMethod::Get,
                    url_for(self.credentials, b + "/owned_pages"@),
                    seq![("fields"@, PAGE_FIELDS@), ("access_token"@, t)],
                    Seq::empty(),
                ) && req.body is None,
            },
    {
        let business = self.credentials.business_id()?;
        let token = self.credentials.access_token()?;
        let url = self.credentials.graph_url(path_of(business, "/owned_pages").as_str());
        let mut q: Vec<(String, String)> = Vec::new();
        q.push(pair("fields", PAGE_FIELDS));
        q.push(pair("access_token", token));
        let req = get_request(url, q);
        assert(pair_views(req.query@) =~= seq![("fields"@, PAGE_FIELDS@), ("access_token"@, token@)]);
        assert(pair_views(req.form@) =~= Seq::<(Seq<char>, Seq<char>)>::empty());
        Ok(req)
    }

    /// The outcome of the listing: one line per Page.
    pub fn read_result(ok: bool, body: &str, data: Option<&JsonValue>) -> (r: Result<String, ToolError>)
        ensures
            outcome_view(r) == read_outcome(
                LineKind::Page,
                ok,
                body@,
                match data {
                    Some(d) => Some(*d),
                    None => None,
                },
                "Failed to list Facebook business pages: "@,
                "No Pages found under this Business."@,
            ),
    {
        read_result(
            LineKind::Page,
            ok,
            body,
            data,
            "Failed to list Facebook business pages: ",
            "No Pages found under this Business.",
        )
    }
}

} // verus!
