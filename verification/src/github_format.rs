//! How the GitHub tools render the API's replies as Markdown for the model.
use vstd::prelude::*;
use crate::json::{as_flag, as_int, as_list, as_nat, get, lookup, text_at, text_or, JsonValue};
use crate::text::{
    copy_str, decimal, fitting_prefix_len, index_of, lines, push_decimal, push_signed_decimal,
    signed_decimal, trim, trim_end,
};

verus! {

/// What a rendered list item is.
#[derive(Debug, Clone, Copy, PartialEq, Eq, Structural)]
pub enum GhItem {
    /// A repository with its language and description.
    RepoFull,
    /// A repository with its star count only.
    RepoShort,
    Notification,
    WorkflowRun,
    Issue,
    Event,
    Pull,
    StatusCheck,
    CheckRun,
    Commit,
}

/// A natural number at `path`, or zero.
pub open spec fn nat_or_zero(v: JsonValue, path: Seq<&str>) -> nat {
    match as_nat(lookup(v, path)) {
        Some(n) => n as nat,
        None => 0,
    }
}

/// The icon of a run's conclusion.
pub open spec fn conclusion_icon(c: Seq<char>) -> Seq<char> {
    if c == "success"@ {
        "✅"@
    } else if c == "failure"@ {
        "❌"@
    } else if c == "cancelled"@ {
        "🚫"@
    } else if c == "pending"@ {
        "⏳"@
    } else {
        "❓"@
    }
}

/// The icon of a commit status's state.
pub open spec fn state_icon(s: Seq<char>) -> Seq<char> {
    if s == "success"@ {
        "✅"@
    } else if s == "failure"@ || s == "error"@ {
        "❌"@
    } else if s == "pending"@ {
        "⏳"@
    } else {
        "❓"@
    }
}

/// Law: a commit status's icon says how it went: a check for success, a
/// cross for a failure or an error, an hourglass while pending, and a
/// question mark for any other state.
pub proof fn law_state_icon_tells_the_outcome(s: Seq<char>)
    ensures
        s == "success"@ <==> state_icon(s) == "✅"@,
        s == "failure"@ || s == "error"@ <==> state_icon(s) == "❌"@,
        s == "pending"@ <==> state_icon(s) == "⏳"@,
        s != "success"@ && s != "failure"@ && s != "error"@ && s != "pending"@ <==> state_icon(s) == "❓"@,
{
    reveal_strlit("✅");
    reveal_strlit("❌");
    reveal_strlit("⏳");
    reveal_strlit("❓");
    reveal_strlit("success");
    reveal_strlit("failure");
    reveal_strlit("error");
    reveal_strlit("pending");
    assert("success"@[0] != "failure"@[0] && "success"@[0] != "pending"@[0] && "failure"@[0] != "pending"@[0]);
    assert("error"@.len() != "success"@.len() && "error"@.len() != "pending"@.len());
    assert("✅"@[0] != "❌"@[0] && "✅"@[0] != "⏳"@[0] && "✅"@[0] != "❓"@[0]);
    assert("❌"@[0] != "⏳"@[0] && "❌"@[0] != "❓"@[0] && "⏳"@[0] != "❓"@[0]);
}

/// The part of `s` before its first `T` (all of it when there is none).
pub open spec fn date_part(s: Seq<char>) -> Seq<char> {
    if index_of(s, 'T') < 0 {
        s
    } else {
        s.take(index_of(s, 'T'))
    }
}

/// The first seven bytes' worth of characters of a SHA.
pub open spec fn short_sha(s: Seq<char>) -> Seq<char> {
    s.take(fitting_prefix_len(s, 7) as int)
}

/// The first line of a commit message (nothing when it has none).
pub open spec fn first_line(o: Option<Seq<char>>) -> Seq<char> {
    match o {
        Some(m) => if lines(m).len() == 0 {
            Seq::empty()
        } else {
            lines(m)[0]
        },
        None => Seq::empty(),
    }
}

/// The rendering of one item.
pub open spec fn item_text(kind: GhItem, v: JsonValue) -> Seq<char> {
    match kind {
        GhItem::RepoFull => "- **["@ + text_or(v, seq!["full_name"], "unknown"@) + "]("@ + text_or(
            v,
            seq!["html_url"],
            ""@,
        ) + ")** (⭐ "@ + decimal(nat_or_zero(v, seq!["stargazers_count"])) + " | "@ + text_or(
            v,
            seq!["language"],
            "Unknown"@,
        ) + ")\n  "@ + text_or(v, seq!["description"], "No description"@) + "\n\n"@,
        GhItem::RepoShort => "- **["@ + text_or(v, seq!["full_name"], "unknown"@) + "]("@
            + text_or(v, seq!["html_url"], ""@) + ")** (⭐ "@ + decimal(
            nat_or_zero(v, seq!["stargazers_count"]),
        ) + ")\n"@,
        GhItem::Notification => "- **"@ + text_or(v, seq!["subject", "type"], "Notification"@)
            + "**: "@ + text_or(v, seq!["subject", "title"], "No title"@) + "\n  Repo: "@ + text_or(
            v,
            seq!["repository", "full_name"],
            "unknown"@,
        ) + "\n\n"@,
        GhItem::WorkflowRun => "- "@ + conclusion_icon(
            text_or(v, seq!["conclusion"], "pending"@),
        ) + " **["@ + text_or(v, seq!["name"], "unnamed"@) + "]("@ + text_or(
            v,
            seq!["html_url"],
            ""@,
        ) + ")**\n  Status: "@ + text_or(v, seq!["status"], "unknown"@) + " | Result: "@ + text_or(
            v,
            seq!["conclusion"],
            "pending"@,
        ) + "\n\n"@,
        GhItem::Issue => "- **#"@ + signed_decimal(
            match as_int(lookup(v, seq!["number"])) {
                Some(n) => n as int,
                None => 0,
            },
        ) + " ["@ + text_or(v, seq!["title"], "No title"@) + "]("@ + text_or(
            v,
            seq!["html_url"],
            ""@,
        ) + ")** by @"@ + text_or(v, seq!["user", "login"], "unknown"@) + "\n"@,
        GhItem::Event => "- **"@ + text_or(v, seq!["type"], "Event"@) + "** at "@ + text_or(
            v,
            seq!["repo", "name"],
            "unknown"@,
        ) + "\n  Date: "@ + date_part(text_or(v, seq!["created_at"], ""@)) + "\n"@,
        GhItem::Pull => "- **["@ + text_or(v, seq!["title"], "No title"@) + "]("@ + text_or(
            v,
            seq!["html_url"],
            ""@,
        ) + ")** by @"@ + text_or(v, seq!["user", "login"], "unknown"@) + "\n"@,
        GhItem::StatusCheck => "- "@ + state_icon(text_or(v, seq!["state"], "unknown"@)) + " **"@
            + text_or(v, seq!["context"], "unknown"@) + "**: "@ + text_or(
            v,
            seq!["state"],
            "unknown"@,
        ) + " — "@ + text_or(v, seq!["description"], ""@) + "\n"@,
        GhItem::CheckRun => "- "@ + conclusion_icon(text_or(v, seq!["conclusion"], "pending"@))
            + " **"@ + text_or(v, seq!["name"], "unnamed"@) + "**: "@ + text_or(
            v,
            seq!["status"],
            "unknown"@,
        ) + " ("@ + text_or(v, seq!["conclusion"], "pending"@) + ")\n"@,
        GhItem::Commit => "- **["@ + short_sha(text_or(v, seq!["sha"], "???"@)) + "]("@ + text_or(
            v,
            seq!["html_url"],
            ""@,
        ) + ")** "@ + first_line(text_at(v, seq!["commit", "message"])) + " — "@ + text_or(
            v,
            seq!["commit", "author", "name"],
            "unknown"@,
        ) + "\n"@,
    }
}

/// The renderings of the items, one after the other.
pub open spec fn items_text(kind: GhItem, items: Seq<JsonValue>) -> Seq<char>
    decreases items.len(),
{
    if items.len() == 0 {
        Seq::empty()
    } else {
        items_text(kind, items.drop_last()) + item_text(kind, items.last())
    }
}

/// A list that is rendered item by item, or `none` when it is missing or
/// empty.
pub open spec fn list_or(kind: GhItem, items: Option<Seq<JsonValue>>, none: Seq<char>) -> Seq<char> {
    match items {
        Some(l) => if l.len() == 0 {
            none
        } else {
            items_text(kind, l)
        },
        None => none,
    }
}

/// The repositories of a reply: its `items` array, or the reply itself when
/// it is an array.
pub open spec fn repo_items(d: JsonValue) -> Option<Seq<JsonValue>> {
    match as_list(get(d, "items"@)) {
        Some(l) => Some(l),
        None => match d {
            JsonValue::Array(v) => Some(v@),
            _ => None,
        },
    }
}

/// A reply's array, when it is one.
pub open spec fn array_of(d: JsonValue) -> Option<Seq<JsonValue>> {
    match d {
        JsonValue::Array(v) => Some(v@),
        _ => None,
    }
}

/// The notifications list.
pub open spec fn notifications_text(d: JsonValue) -> Seq<char> {
    match array_of(d) {
        None => "No notifications found."@,
        Some(l) => if l.len() == 0 {
            "No new notifications! 🎉"@
        } else {
            items_text(GhItem::Notification, l)
        },
    }
}

/// The follower summary of a profile.
pub open spec fn followers_text(d: JsonValue) -> Seq<char> {
    "**@"@ + text_or(d, seq!["login"], "unknown"@) + "** has **"@ + decimal(
        nat_or_zero(d, seq!["followers"]),
    ) + "** followers (following "@ + decimal(nat_or_zero(d, seq!["following"])) + ")."@
}

/// A pull request's description, trimmed, or a placeholder.
pub open spec fn pr_body(d: JsonValue) -> Seq<char> {
    match text_at(d, seq!["body"]) {
        Some(b) => if trim(b).len() == 0 {
            "No description."@
        } else {
            trim(b)
        },
        None => "No description."@,
    }
}

/// A pull request's details.
pub open spec fn pr_details_text(d: JsonValue) -> Seq<char> {
    let state = text_or(d, seq!["state"], "unknown"@);
    let draft = match as_flag(lookup(d, seq!["draft"])) {
        Some(b) => b,
        None => false,
    };
    "**"@ + text_or(d, seq!["title"], "No title"@) + "** ("@ + (if draft {
        state + " (draft)"@
    } else {
        state
    }) + ")\n"@ + text_or(d, seq!["html_url"], ""@) + "\nby @"@ + text_or(
        d,
        seq!["user", "login"],
        "unknown"@,
    ) + ": `"@ + text_or(d, seq!["head", "ref"], "?"@) + "` → `"@ + text_or(
        d,
        seq!["base", "ref"],
        "?"@,
    ) + "`\n\n"@ + pr_body(d)
}

/// Whether an optional list has items.
pub open spec fn has_items(l: Option<Seq<JsonValue>>) -> bool {
    match l {
        Some(s) => s.len() > 0,
        None => false,
    }
}

/// The CI summary of a pull request's head commit: its combined status and
/// its check runs.
pub open spec fn pr_checks_text(status: JsonValue, checks: JsonValue) -> Seq<char> {
    let overall = text_or(status, seq!["state"], "unknown"@);
    let statuses = as_list(get(status, "statuses"@));
    let runs = as_list(get(checks, "check_runs"@));
    if !has_items(statuses) && !has_items(runs) {
        "Overall status: **"@ + overall + "**\n\nNo status checks or check runs found."@
    } else {
        trim_end(
            "Overall status: **"@ + overall + "**\n\n"@ + (if has_items(statuses) {
                "**Status checks:**\n"@ + items_text(GhItem::StatusCheck, statuses.unwrap())
                    + "\n"@
            } else {
                Seq::empty()
            }) + (if has_items(runs) {
                "**Check runs:**\n"@ + items_text(GhItem::CheckRun, runs.unwrap())
            } else {
                Seq::empty()
            }),
        )
    }
}

fn push_text_or(out: &mut String, v: &JsonValue, path: &[&str], default: &str)
    ensures
        final(out)@ == old(out)@ + text_or(*v, path@, default@),
{
    let t = v.text_or(path, default);
    out.append(t.as_str());
}

fn push_text1(out: &mut String, v: &JsonValue, k1: &str, default: &str)
    ensures
        final(out)@ == old(out)@ + text_or(*v, seq![k1], default@),
{
    let t = v.text1_or(k1, default);
    out.append(t.as_str());
}

fn push_text2(out: &mut String, v: &JsonValue, k1: &str, k2: &str, default: &str)
    ensures
        final(out)@ == old(out)@ + text_or(*v, seq![k1, k2], default@),
{
    let t = v.text2_or(k1, k2, default);
    out.append(t.as_str());
}

fn push_nat1(out: &mut String, v: &JsonValue, k1: &str)
    ensures
        final(out)@ == old(out)@ + decimal(nat_or_zero(*v, seq![k1])),
{
    let n = match v.u64_1(k1) {
        Some(n) => n,
        None => 0,
    };
    push_decimal(out, n);
}

/// The icon of a run's conclusion.
pub fn conclusion_icon_of(c: &str) -> (r: &'static str)
    ensures
        r@ == conclusion_icon(c@),
{
    if crate::text::str_eq(c, "success") {
        "✅"
    } else if crate::text::str_eq(c, "failure") {
        "❌"
    } else if crate::text::str_eq(c, "cancelled") {
        "🚫"
    } else if crate::text::str_eq(c, "pending") {
        "⏳"
    } else {
        "❓"
    }
}

/// The icon of a commit status's state.
pub fn state_icon_of(s: &str) -> (r: &'static str)
    ensures
        r@ == state_icon(s@),
{
    if crate::text::str_eq(s, "success") {
        "✅"
    } else if crate::text::str_eq(s, "failure") || crate::text::str_eq(s, "error") {
        "❌"
    } else if crate::text::str_eq(s, "pending") {
        "⏳"
    } else {
        "❓"
    }
}

/// The part of `s` before its first `T`.
pub fn date_part_of(s: &str) -> (r: String)
    ensures
        r@ == date_part(s@),
{
    let v = crate::text::chars_of(s);
    let mut i: usize = 0;
    while i < v.len() && v[i] != 'T'
        invariant
            i <= v@.len(),
            v@ == s@,
            forall|j: int| 0 <= j < i ==> v@[j] != 'T',
        decreases v@.len() - i,
    {
        i = i + 1;
    }
    proof {
        crate::text::lemma_index_of_is(v@, 'T', if i < v@.len() { i as int } else { -1 });
    }
    if i < v.len() {
        crate::text::string_from_chars(crate::text::slice_prefix(v.as_slice(), i))
    } else {
        copy_str(s)
    }
}

/// The first seven bytes' worth of characters of a SHA.
pub fn short_sha_of(s: &str) -> (r: String)
    ensures
        r@ == short_sha(s@),
{
    let v = crate::text::chars_of(s);
    let (k, _) = crate::text::fitting_prefix(v.as_slice(), 7);
    crate::text::string_from_chars(crate::text::slice_prefix(v.as_slice(), k))
}

/// The first line of a commit message.
pub fn first_line_of(m: Option<&str>) -> (r: String)
    ensures
        r@ == first_line(
            match m {
                Some(s) => Some(s@),
                None => None,
            },
        ),
{
    match m {
        None => String::new(),
        Some(s) => {
            let r = crate::text::first_lines(s, 1);
            proof {
                let ls = lines(s@);
                if ls.len() > 0 {
                    assert(ls.take(1) =~= seq![ls[0]]);
                } else {
                    assert(ls.take(0) =~= Seq::<Seq<char>>::empty());
                }
            }
            r
        },
    }
}

/// The rendering of one item.
pub fn format_item(kind: GhItem, v: &JsonValue) -> (r: String)
    ensures
        r@ == item_text(kind, *v),
{
    let mut o = String::new();
    match kind {
        GhItem::RepoFull => {
            o.append("- **[");
            push_text1(&mut o, v, "full_name", "unknown");
            o.append("](");
            push_text1(&mut o, v, "html_url", "");
            o.append(")** (⭐ ");
            push_nat1(&mut o, v, "stargazers_count");
            o.append(" | ");
            push_text1(&mut o, v, "language", "Unknown");
            o.append(")\n  ");
            push_text1(&mut o, v, "description", "No description");
            o.append("\n\n");
        },
        GhItem::RepoShort => {
            o.append("- **[");
            push_text1(&mut o, v, "full_name", "unknown");
            o.append("](");
            push_text1(&mut o, v, "html_url", "");
            o.append(")** (⭐ ");
            push_nat1(&mut o, v, "stargazers_count");
            o.append(")\n");
        },
        GhItem::Notification => {
            o.append("- **");
            push_text2(&mut o, v, "subject", "type", "Notification");
            o.append("**: ");
            push_text2(&mut o, v, "subject", "title", "No title");
            o.append("\n  Repo: ");
            push_text2(&mut o, v, "repository", "full_name", "unknown");
            o.append("\n\n");
        },
        GhItem::WorkflowRun => {
            let conclusion = v.text1_or("conclusion", "pending");
            o.append("- ");
            o.append(conclusion_icon_of(conclusion.as_str()));
            o.append(" **[");
            push_text1(&mut o, v, "name", "unnamed");
            o.append("](");
            push_text1(&mut o, v, "html_url", "");
            o.append(")**\n  Status: ");
            push_text1(&mut o, v, "status", "unknown");
            o.append(" | Result: ");
            o.append(conclusion.as_str());
            o.append("\n\n");
        },
        GhItem::Issue => {
            o.append("- **#");
            let n = match v.i64_1("number") {
                Some(n) => n,
                None => 0,
            };
            push_signed_decimal(&mut o, n);
            o.append(" [");
            push_text1(&mut o, v, "title", "No title");
            o.append("](");
            push_text1(&mut o, v, "html_url", "");
            o.append(")** by @");
            push_text2(&mut o, v, "user", "login", "unknown");
            o.append("\n");
        },
        GhItem::Event => {
            o.append("- **");
            push_text1(&mut o, v, "type", "Event");
            o.append("** at ");
            push_text2(&mut o, v, "repo", "name", "unknown");
            o.append("\n  Date: ");
            let created = v.text1_or("created_at", "");
            o.append(date_part_of(created.as_str()).as_str());
            o.append("\n");
        },
        GhItem::Pull => {
            o.append("- **[");
            push_text1(&mut o, v, "title", "No title");
            o.append("](");
            push_text1(&mut o, v, "html_url", "");
            o.append(")** by @");
            push_text2(&mut o, v, "user", "login", "unknown");
            o.append("\n");
        },
        GhItem::StatusCheck => {
            let state = v.text1_or("state", "unknown");
            o.append("- ");
            o.append(state_icon_of(state.as_str()));
            o.append(" **");
            push_text1(&mut o, v, "context", "unknown");
            o.append("**: ");
            o.append(state.as_str());
            o.append(" — ");
            push_text1(&mut o, v, "description", "");
            o.append("\n");
        },
        GhItem::CheckRun => {
            let conclusion = v.text1_or("conclusion", "pending");
            o.append("- ");
            o.append(conclusion_icon_of(conclusion.as_str()));
            o.append(" **");
            push_text1(&mut o, v, "name", "unnamed");
            o.append("**: ");
            push_text1(&mut o, v, "status", "unknown");
            o.append(" (");
            o.append(conclusion.as_str());
            o.append(")\n");
        },
        GhItem::Commit => {
            o.append("- **[");
            let sha = v.text1_or("sha", "???");
            o.append(short_sha_of(sha.as_str()).as_str());
            o.append("](");
            push_text1(&mut o, v, "html_url", "");
            o.append(")** ");
            o.append(first_line_of(v.text2("commit", "message")).as_str());
            o.append(" — ");
            let p: [&str; 3] = ["commit", "author", "name"];
            assert(p@ =~= seq!["commit", "author", "name"]);
            push_text_or(&mut o, v, p.as_slice(), "unknown");
            o.append("\n");
        },
    }
    assert(o@ =~= item_text(kind, *v));
    o
}

/// The renderings of the items, one after the other.
pub fn format_items(kind: GhItem, items: &Vec<JsonValue>) -> (r: String)
    ensures
        r@ == items_text(kind, items@),
{
    let mut out = String::new();
    let mut i: usize = 0;
    assert(items@.take(0) =~= Seq::<JsonValue>::empty());
    while i < items.len()
        invariant
            i <= items@.len(),
            out@ == items_text(kind, items@.take(i as int)),
        decreases items@.len() - i,
    {
        assert(items@.take(i + 1).drop_last() =~= items@.take(i as int));
        let t = format_item(kind, &items[i]);
        out.append(t.as_str());
        i = i + 1;
    }
    assert(items@.take(items@.len() as int) =~= items@);
    out
}

fn list_or_text(kind: GhItem, items: Option<&Vec<JsonValue>>, none: &str) -> (r: String)
    ensures
        r@ == list_or(
            kind,
            match items {
                Some(v) => Some(v@),
                None => None,
            },
            none@,
        ),
{
    match items {
        Some(v) => if v.len() == 0 {
            copy_str(none)
        } else {
            format_items(kind, v)
        },
        None => copy_str(none),
    }
}

/// A reply's array, when it is one.
fn array_items(d: &JsonValue) -> (r: Option<&Vec<JsonValue>>)
    ensures
        match r {
            Some(v) => array_of(*d) == Some(v@),
            None => array_of(*d) is None,
        },
{
    match d {
        JsonValue::Array(v) => Some(v),
        _ => None,
    }
}

/// The repositories of a reply, each with its language and description.
pub fn format_repo_list_full(d: &JsonValue) -> (r: String)
    ensures
        r@ == list_or(GhItem::RepoFull, repo_items(*d), "No repositories found."@),
{
    let items = match d.get("items") {
        Some(i) => match i.as_array() {
            Some(a) => Some(a),
            None => array_items(d),
        },
        None => array_items(d),
    };
    list_or_text(GhItem::RepoFull, items, "No repositories found.")
}

/// The repositories of a reply, each with its star count.
pub fn format_repo_list_short(d: &JsonValue) -> (r: String)
    ensures
        r@ == list_or(GhItem::RepoShort, repo_items(*d), "No repositories found."@),
{
    let items = match d.get("items") {
        Some(i) => match i.as_array() {
            Some(a) => Some(a),
            None => array_items(d),
        },
        None => array_items(d),
    };
    list_or_text(GhItem::RepoShort, items, "No repositories found.")
}

/// The notifications of a reply.
pub fn format_notifications(d: &JsonValue) -> (r: String)
    ensures
        r@ == notifications_text(*d),
{
    match array_items(d) {
        None => copy_str("No notifications found."),
        Some(v) => if v.len() == 0 {
            copy_str("No new notifications! 🎉")
        } else {
            format_items(GhItem::Notification, v)
        },
    }
}

/// The workflow runs of a reply.
pub fn format_workflow_runs(d: &JsonValue) -> (r: String)
    ensures
        r@ == list_or(GhItem::WorkflowRun, as_list(get(*d, "workflow_runs"@)), "No workflow runs found."@),
{
    let items = match d.get("workflow_runs") {
        Some(i) => i.as_array(),
        None => None,
    };
    list_or_text(GhItem::WorkflowRun, items, "No workflow runs found.")
}

/// The issues of a reply.
pub fn format_issues(d: &JsonValue) -> (r: String)
    ensures
        r@ == list_or(GhItem::Issue, array_of(*d), "No issues found."@),
{
    list_or_text(GhItem::Issue, array_items(d), "No issues found.")
}

/// The events of a reply.
pub fn format_events(d: &JsonValue) -> (r: String)
    ensures
        r@ == list_or(GhItem::Event, array_of(*d), "No events found."@),
{
    list_or_text(GhItem::Event, array_items(d), "No events found.")
}

/// The pull requests of a reply.
pub fn format_pulls(d: &JsonValue) -> (r: String)
    ensures
        r@ == list_or(GhItem::Pull, array_of(*d), "No pull requests found."@),
{
    list_or_text(GhItem::Pull, array_items(d), "No pull requests found.")
}

/// The commits of a reply.
pub fn format_pr_commits(d: &JsonValue) -> (r: String)
    ensures
        r@ == list_or(GhItem::Commit, array_of(*d), "No commits found."@),
{
    list_or_text(GhItem::Commit, array_items(d), "No commits found.")
}

/// The follower summary of a profile.
pub fn format_followers(d: &JsonValue) -> (r: String)
    ensures
        r@ == followers_text(*d),
{
    let mut o = copy_str("**@");
    push_text1(&mut o, d, "login", "unknown");
    o.append("** has **");
    push_nat1(&mut o, d, "followers");
    o.append("** followers (following ");
    push_nat1(&mut o, d, "following");
    o.append(").");
    o
}

/// A pull request's details.
pub fn format_pr_details(d: &JsonValue) -> (r: String)
    ensures
        r@ == pr_details_text(*d),
{
    let state = d.text1_or("state", "unknown");
    let draft = match d.bool_1("draft") {
        Some(b) => b,
        None => false,
    };
    let mut o = copy_str("**");
    push_text1(&mut o, d, "title", "No title");
    o.append("** (");
    o.append(state.as_str());
    if draft {
        o.append(" (draft)");
    }
    o.append(")\n");
    push_text1(&mut o, d, "html_url", "");
    o.append("\nby @");
    push_text2(&mut o, d, "user", "login", "unknown");
    o.append(": `");
    push_text2(&mut o, d, "head", "ref", "?");
    o.append("` → `");
    push_text2(&mut o, d, "base", "ref", "?");
    o.append("`\n\n");
    match d.text1("body") {
        Some(b) => {
            proof {
                crate::text::lemma_trim_empty(b@);
            }
            if crate::text::is_blank(b) {
                o.append("No description.");
            } else {
                let t = crate::text::trim_str(b);
                o.append(t.as_str());
            }
        },
        None => o.append("No description."),
    }
    assert(o@ =~= pr_details_text(*d));
    o
}

/// The CI summary of a pull request's head commit.
pub fn format_pr_checks(status: &JsonValue, checks: &JsonValue) -> (r: String)
    ensures
        r@ == pr_checks_text(*status, *checks),
{
    let overall = status.text1_or("state", "unknown");
    let statuses = match status.get("statuses") {
        Some(s) => s.as_array(),
        None => None,
    };
    let runs = match checks.get("check_runs") {
        Some(c) => c.as_array(),
        None => None,
    };
    let ghost sl = as_list(get(*status, "statuses"@));
    let ghost rl = as_list(get(*checks, "check_runs"@));
    assert(match statuses {
        Some(v) => sl == Some(v@),
        None => sl is None,
    });
    assert(match runs {
        Some(v) => rl == Some(v@),
        None => rl is None,
    });
    let has_statuses = match statuses {
        Some(s) => s.len() > 0,
        None => false,
    };
    let has_runs = match runs {
        Some(c) => c.len() > 0,
        None => false,
    };
    let mut o = copy_str("Overall status: **");
    o.append(overall.as_str());
    if !has_statuses && !has_runs {
        o.append("**\n\nNo status checks or check runs found.");
        return o;
    }
    o.append("**\n\n");
    let ghost head = o@;
    match statuses {
        Some(s) => if s.len() > 0 {
            o.append("**Status checks:**\n");
            o.append(format_items(GhItem::StatusCheck, s).as_str());
            o.append("\n");
        },
        None => {},
    }
    let ghost mid = o@;
    match runs {
        Some(c) => if c.len() > 0 {
            o.append("**Check runs:**\n");
            o.append(format_items(GhItem::CheckRun, c).as_str());
        },
        None => {},
    }
    assert(has_statuses == has_items(sl));
    assert(has_runs == has_items(rl));
    assert(mid == head + (if has_items(sl) {
        "**Status checks:**\n"@ + items_text(GhItem::StatusCheck, sl.unwrap()) + "\n"@
    } else {
        Seq::empty()
    }));
    assert(o@ =~= "Overall status: **"@ + overall@ + "**\n\n"@ + (if has_items(sl) {
        "**Status checks:**\n"@ + items_text(GhItem::StatusCheck, sl.unwrap()) + "\n"@
    } else {
        Seq::empty()
    }) + (if has_items(rl) {
        "**Check runs:**\n"@ + items_text(GhItem::CheckRun, rl.unwrap())
    } else {
        Seq::empty()
    }));
    let r = crate::text::trim_end_str(o.as_str());
    r
}

} // verus!
