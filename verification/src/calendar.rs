//! The Google Calendar tools: reading the upcoming events of the primary
//! calendar, and creating an event on it.
use vstd::prelude::*;
use crate::framework::{metadata_is, ToolCategory, ToolError, ToolMetadata, ToolType};
use crate::google::{json_or_null, query_view, GetRequest, HttpReply};
use crate::json::{as_int, as_list, as_text, get, lemma_lookup1, lookup, member, text_at, text_or, JsonValue};
use crate::text::{contains_seq, copy_str, decimal, join, lemma_contains_in_concat, lemma_contains_trans, lemma_join_contains, push_decimal, push_signed_decimal, signed_decimal};
use crate::json::{keys_of, lemma_member_at, lemma_member_none};
use crate::workspace::{call_args, owned};

verus! {

/// How far ahead, in days either way, a calendar read may look: the dates
/// chrono can represent end in the year 262,143, some 95,000,000 days after
/// the present, and the bound keeps clear of that end for centuries to come.
pub const MAX_DAYS_AHEAD: i64 = 94_900_000;

/// An RFC 3339 time, parsed and moved `days` days later, rendered again
/// (`DateTime::parse_from_rfc3339`, `+ Duration::days(days)`,
/// `to_rfc3339`); nothing when the text does not parse.
pub uninterp spec fn days_later(s: Seq<char>, days: int) -> Option<Seq<char>>;

/// The current time and the time `days` later, as RFC 3339, from one
/// reading of the clock (chrono's `Utc::now`, plus `Duration::days`, each
/// rendered by `to_rfc3339`). The current time is not stated; the second
/// is the first moved `days` days on, `to_rfc3339` writing back exactly
/// what `parse_from_rfc3339` reads.
#[verifier::external_body]
fn utc_window(days: i64) -> (r: (String, String))
    requires
        -MAX_DAYS_AHEAD <= days <= MAX_DAYS_AHEAD,
    ensures
        days_later(r.0@, days as int) == Some(r.1@),
{
    let start = chrono::Utc::now();
    let end = start + chrono::Duration::days(days);
    (start.to_rfc3339(), end.to_rfc3339())
}

/// An integer at `key`, or `default`.
pub open spec fn int_or(a: JsonValue, key: &str, default: i64) -> i64 {
    match as_int(lookup(a, seq![key])) {
        Some(i) => i,
        None => default,
    }
}

/// How many days ahead a call looks (seven by default).
pub open spec fn days_ahead(a: JsonValue) -> i64 {
    int_or(a, "days_ahead", 7)
}

/// How many events a call asks for at most (ten by default).
pub open spec fn max_events(a: JsonValue) -> i64 {
    int_or(a, "max_results", 10)
}

/// The query of a read between `time_min` and `time_max`.
pub open spec fn window_query(time_min: Seq<char>, time_max: Seq<char>, max: i64) -> Seq<(Seq<char>, Seq<char>)> {
    seq![
        ("timeMin"@, time_min),
        ("timeMax"@, time_max),
        ("maxResults"@, signed_decimal(max as int)),
        ("singleEvents"@, "true"@),
        ("orderBy"@, "startTime"@),
    ]
}

/// The time at `key` of an event: its `dateTime`, else its `date`.
pub open spec fn when_text(item: JsonValue, key: Seq<char>, default: Seq<char>) -> Seq<char> {
    match get(item, key) {
        Some(s) => match as_text(
            match get(s, "dateTime"@) {
                Some(x) => Some(x),
                None => get(s, "date"@),
            },
        ) {
            Some(t) => t,
            None => default,
        },
        None => default,
    }
}

/// The entry of one event.
pub open spec fn event_entry(item: JsonValue) -> Seq<char> {
    "---\nEvent: "@ + text_or(item, seq!["summary"], "Untitled Event"@) + "\nStart: "@ + when_text(
        item,
        "start"@,
        "Unknown Start"@,
    ) + "\nEnd: "@ + when_text(item, "end"@, "Unknown End"@) + "\nDescription: "@ + text_or(
        item,
        seq!["description"],
        ""@,
    ) + "\nLink: "@ + text_or(item, seq!["htmlLink"], ""@) + "\n"@
}

/// The answer to a read of the next `days` days.
pub open spec fn events_text(d: JsonValue, days: i64) -> Seq<char> {
    match as_list(get(d, "items"@)) {
        Some(items) => if items.len() > 0 {
            "Retrieved "@ + decimal(items.len()) + " upcoming events:\n\n"@ + join(
                items.map_values(|i: JsonValue| event_entry(i)),
                "\n"@,
            )
        } else {
            "No upcoming events found in the next "@ + signed_decimal(days as int) + " days."@
        },
        None => "No upcoming events found in the next "@ + signed_decimal(days as int) + " days."@,
    }
}

/// Law: a read that finds events lists every one of them, in order: after
/// a heading that counts them come their entries, one per event, separated
/// by newlines; so each event's entry occurs in the answer.
pub proof fn law_every_event_is_listed(d: JsonValue, days: i64, items: Seq<JsonValue>)
    requires
        as_list(get(d, "items"@)) == Some(items),
        items.len() > 0,
    ensures
        events_text(d, days) == "Retrieved "@ + decimal(items.len()) + " upcoming events:\n\n"@ + join(
            items.map_values(|i: JsonValue| event_entry(i)),
            "\n"@,
        ),
        forall|k: int| 0 <= k < items.len() ==> contains_seq(events_text(d, days), #[trigger] event_entry(items[k])),
        forall|k: int|
            0 <= k < items.len() ==> contains_seq(
                events_text(d, days),
                "\nEvent: "@ + text_or(#[trigger] items[k], seq!["summary"], "Untitled Event"@) + "\nStart: "@,
            ),
{
    let parts = items.map_values(|i: JsonValue| event_entry(i));
    let head = "Retrieved "@ + decimal(items.len()) + " upcoming events:\n\n"@;
    assert forall|k: int| 0 <= k < items.len() implies contains_seq(events_text(d, days), #[trigger] event_entry(items[k])) by {
        lemma_join_contains(parts, "\n"@, k);
        assert(parts[k] == event_entry(items[k]));
        lemma_contains_in_concat(head, join(parts, "\n"@), event_entry(items[k]));
    }
    assert forall|k: int| 0 <= k < items.len() implies contains_seq(
        events_text(d, days),
        "\nEvent: "@ + text_or(#[trigger] items[k], seq!["summary"], "Untitled Event"@) + "\nStart: "@,
    ) by {
        lemma_entry_names_event(items[k]);
        lemma_contains_trans(
            events_text(d, days),
            event_entry(items[k]),
            "\nEvent: "@ + text_or(items[k], seq!["summary"], "Untitled Event"@) + "\nStart: "@,
        );
    }
}

proof fn lemma_entry_names_event(item: JsonValue)
    ensures
        contains_seq(
            event_entry(item),
            "\nEvent: "@ + text_or(item, seq!["summary"], "Untitled Event"@) + "\nStart: "@,
        ),
{
    let e = event_entry(item);
    let pat = "\nEvent: "@ + text_or(item, seq!["summary"], "Untitled Event"@) + "\nStart: "@;
    reveal_strlit("---\nEvent: ");
    reveal_strlit("\nEvent: ");
    reveal_strlit("---");
    assert("---\nEvent: "@ =~= "---"@ + "\nEvent: "@);
    let rest = when_text(item, "start"@, "Unknown Start"@) + "\nEnd: "@ + when_text(item, "end"@, "Unknown End"@)
        + "\nDescription: "@ + text_or(item, seq!["description"], ""@) + "\nLink: "@ + text_or(
        item,
        seq!["htmlLink"],
        ""@,
    ) + "\n"@;
    assert(e =~= "---"@ + (pat + rest));
    assert(pat.subrange(0int, 0int + pat.len()) =~= pat);
    lemma_contains_in_concat(pat, rest, pat);
    lemma_contains_in_concat("---"@, pat + rest, pat);
}

/// Reads the upcoming events of the primary Google Calendar.
pub struct GoogleCalendarReadTool {
    pub metadata: ToolMetadata,
}

impl GoogleCalendarReadTool {
    /// The tool.
    pub fn new() -> (t: Self)
        ensures
            metadata_is(
                t.metadata,
                "read_calendar_events"@,
                "Read Calendar Events"@,
                ToolType::GoogleCalendarRead,
                "Read upcoming events from the user's primary Google Calendar."@,
                ToolCategory::Google,
            ),
    {
        GoogleCalendarReadTool {
            metadata: ToolMetadata::from_parts(
                "read_calendar_events",
                "Read Calendar Events",
                ToolType::GoogleCalendarRead,
                "Read upcoming events from the user's primary Google Calendar.",
                ToolCategory::Google,
            ),
        }
    }

    /// How many days ahead the call looks and how many events it asks for.
    pub fn window_of(args: Option<&JsonValue>) -> (r: (i64, i64))
        ensures
            r.0 == days_ahead(call_args(args)),
            r.1 == max_events(call_args(args)),
    {
        let null = JsonValue::Null;
        let a: &JsonValue = match args {
            Some(a) => a,
            None => &null,
        };
        let days = match a.i64_1("days_ahead") {
            Some(d) => d,
            None => 7,
        };
        let max = match a.i64_1("max_results") {
            Some(m) => m,
            None => 10,
        };
        (days, max)
    }

    /// The read of the events between two times.
    pub fn request(time_min: String, time_max: String, max: i64) -> (r: GetRequest)
        ensures
            r.url@ == "https://www.googleapis.com/calendar/v3/calendars/primary/events"@,
            query_view(r.query@) == window_query(time_min@, time_max@, max),
    {
        let mut query: Vec<(String, String)> = Vec::new();
        let ghost (t0, t1) = (time_min@, time_max@);
        query.push((copy_str("timeMin"), time_min));
        query.push((copy_str("timeMax"), time_max));
        let mut m = String::new();
        push_signed_decimal(&mut m, max);
        proof {
            reveal_strlit("");
        }
        assert(m@ =~= signed_decimal(max as int));
        query.push((copy_str("maxResults"), m));
        query.push((copy_str("singleEvents"), copy_str("true")));
        query.push((copy_str("orderBy"), copy_str("startTime")));
        let r = GetRequest {
            url: copy_str("https://www.googleapis.com/calendar/v3/calendars/primary/events"),
            query,
        };
        assert(query_view(r.query@) =~= window_query(t0, t1, max));
        r
    }

    /// The days the call looks ahead and its request, from now on. The
    /// window starts at the clock's reading and ends that many days later;
    /// the rest is `request`'s.
    pub fn plan(args: Option<&JsonValue>) -> (r: (i64, GetRequest))
        requires
            -MAX_DAYS_AHEAD <= days_ahead(call_args(args)) <= MAX_DAYS_AHEAD,
        ensures
            r.0 == days_ahead(call_args(args)),
            r.1.url@ == "https://www.googleapis.com/calendar/v3/calendars/primary/events"@,
            query_view(r.1.query@).len() == 5,
            query_view(r.1.query@) == window_query(
                query_view(r.1.query@)[0].1,
                query_view(r.1.query@)[1].1,
                max_events(call_args(args)),
            ),
            days_later(query_view(r.1.query@)[0].1, r.0 as int) == Some(query_view(r.1.query@)[1].1),
    {
        let (days, max) = Self::window_of(args);
        let (t0, t1) = utc_window(days);
        (days, Self::request(t0, t1, max))
    }

    /// The entry of one event.
    pub fn event_entry(item: &JsonValue) -> (r: String)
        ensures
            r@ == event_entry(*item),
    {
        let mut o = copy_str("---\nEvent: ");
        o.append(item.text1_or("summary", "Untitled Event").as_str());
        o.append("\nStart: ");
        o.append(Self::when_of(item, "start", "Unknown Start").as_str());
        o.append("\nEnd: ");
        o.append(Self::when_of(item, "end", "Unknown End").as_str());
        o.append("\nDescription: ");
        o.append(item.text1_or("description", "").as_str());
        o.append("\nLink: ");
        o.append(item.text1_or("htmlLink", "").as_str());
        o.append("\n");
        o
    }

    fn when_of(item: &JsonValue, key: &str, default: &str) -> (r: String)
        ensures
            r@ == when_text(*item, key@, default@),
    {
        match item.get(key) {
            Some(s) => {
                let v = match s.get("dateTime") {
                    Some(x) => Some(x),
                    None => s.get("date"),
                };
                match v {
                    Some(x) => match x.as_str() {
                        Some(t) => copy_str(t),
                        None => copy_str(default),
                    },
                    None => copy_str(default),
                }
            },
            None => copy_str(default),
        }
    }

    /// The answer to a read of the next `days` days from its reply.
    pub fn read_result(days: i64, reply: Option<&HttpReply>) -> (r: Result<String, ToolError>)
        ensures
            match reply {
                None => r matches Err(e) && e.message@ == "Failed to request Calendar API"@,
                Some(h) => if !h.success {
                    r matches Err(e) && e.message@ == "Calendar API failed with "@ + h.status@ + ": "@
                        + h.text@
                } else {
                    r matches Ok(s) && s@ == events_text(json_or_null(*h), days)
                },
            },
    {
        let h = match reply {
            None => {
                return Err(ToolError::msg("Failed to request Calendar API"));
            },
            Some(h) => h,
        };
        if !h.success {
            let mut m = copy_str("Calendar API failed with ");
            m.append(h.status.as_str());
            m.append(": ");
            m.append(h.text.as_str());
            return Err(ToolError::new(m));
        }
        let null = JsonValue::Null;
        let d: &JsonValue = match &h.json {
            Some(v) => v,
            None => &null,
        };
        let items = match d.get("items") {
            Some(x) => x.as_array(),
            None => None,
        };
        let items = match items {
            Some(items) => if items.len() > 0 {
                items
            } else {
                let mut m = copy_str("No upcoming events found in the next ");
                push_signed_decimal(&mut m, days);
                m.append(" days.");
                return Ok(m);
            },
            None => {
                let mut m = copy_str("No upcoming events found in the next ");
                push_signed_decimal(&mut m, days);
                m.append(" days.");
                return Ok(m);
            },
        };
        let mut entries: Vec<String> = Vec::new();
        let mut i: usize = 0;
        while i < items.len()
            invariant
                i <= items@.len(),
                entries@.len() == i,
                forall|j: int| 0 <= j < i ==> #[trigger] entries@[j]@ == event_entry(items@[j]),
            decreases items@.len() - i,
        {
            entries.push(Self::event_entry(&items[i]));
            i = i + 1;
        }
        let ghost views = entries@.map_values(|s: String| s@);
        assert(views =~= items@.map_values(|i: JsonValue| event_entry(i)));
        let mut out = copy_str("Retrieved ");
        push_decimal(&mut out, entries.len() as u64);
        out.append(" upcoming events:\n\n");
        let ghost head = out@;
        let mut k: usize = 0;
        assert(views.take(0) =~= Seq::<Seq<char>>::empty());
        while k < entries.len()
            invariant
                k <= entries@.len(),
                views == entries@.map_values(|s: String| s@),
                out@ == head + join(views.take(k as int), "\n"@),
            decreases entries@.len() - k,
        {
            assert(views.take(k + 1).drop_last() =~= views.take(k as int));
            if k > 0 {
                out.append("\n");
            }
            out.append(entries[k].as_str());
            assert(out@ =~= head + join(views.take(k + 1), "\n"@));
            k = k + 1;
        }
        assert(views.take(views.len() as int) =~= views);
        Ok(out)
    }
}

/// An RFC 3339 time, parsed and moved one hour later, rendered again
/// (`DateTime::parse_from_rfc3339`, `+ Duration::hours(1)`, `to_rfc3339`);
/// nothing when the text does not parse.
pub uninterp spec fn hour_later(s: Seq<char>) -> Option<Seq<char>>;

/// Runs chrono on an RFC 3339 time: parses it and renders the time one hour
/// later. The contract names the result (`hour_later`); the parser accepts
/// four-digit years only, so the hour added never leaves chrono's range.
#[verifier::external_body]
fn rfc3339_hour_later(s: &str) -> (r: Option<String>)
    ensures
        match r {
            Some(x) => hour_later(s@) == Some(x@),
            None => hour_later(s@) is None,
        },
{
    chrono::DateTime::parse_from_rfc3339(s).ok().map(|t| (t + chrono::Duration::hours(1)).to_rfc3339())
}

/// The end an event gets when it names none: an hour after its start, the
/// start read as given or else with `Z` added.
pub open spec fn default_end(start: Seq<char>) -> Option<Seq<char>> {
    match hour_later(start) {
        Some(e) => Some(e),
        None => hour_later(start + "Z"@),
    }
}

/// A start or end of an event: its time, and the time zone when one is given.
pub open spec fn time_is(t: Option<JsonValue>, time: Seq<char>, zone: Option<Seq<char>>) -> bool {
    match t {
        Some(t) => {
            &&& keys_of(t) == seq!["dateTime"@] + match zone {
                Some(_) => seq!["timeZone"@],
                None => Seq::empty(),
            }
            &&& text_at(t, seq!["dateTime"]) == Some(time)
            &&& text_at(t, seq!["timeZone"]) == zone
        },
        None => false,
    }
}

/// The body of a new event: summary, description, start, end, and the
/// recurrence rules when the call gives a list of them.
pub open spec fn event_body_is(b: JsonValue, a: JsonValue, end: Seq<char>) -> bool {
    let rec = match as_list(get(a, "recurrence"@)) {
        Some(_) => get(a, "recurrence"@),
        None => None,
    };
    &&& keys_of(b) == seq!["summary"@, "description"@, "start"@, "end"@] + match rec {
        Some(_) => seq!["recurrence"@],
        None => Seq::empty(),
    }
    &&& text_at(b, seq!["summary"]) == text_at(a, seq!["summary"])
    &&& text_at(b, seq!["description"]) == Some(text_or(a, seq!["description"], ""@))
    &&& time_is(get(b, "start"@), text_or(a, seq!["start_time"], ""@), text_at(a, seq!["timezone"]))
    &&& time_is(get(b, "end"@), end, text_at(a, seq!["timezone"]))
    &&& get(b, "recurrence"@) == rec
}

/// What a call to create an event leads to: the event's summary and the
/// body to send, or the error.
pub open spec fn create_plan_is(args: Option<JsonValue>, r: Result<(String, JsonValue), ToolError>) -> bool {
    match args {
        None => r matches Err(e) && e.message@ == "Failed to parse arguments"@,
        Some(a) => {
            let start = text_or(a, seq!["start_time"], ""@);
            if text_at(a, seq!["summary"]) is None {
                r matches Err(e) && e.message@ == "Missing 'summary'"@
            } else if text_at(a, seq!["start_time"]) is None {
                r matches Err(e) && e.message@ == "Missing 'start_time'"@
            } else if default_end(start) is None {
                r matches Err(e) && e.message@ == "Invalid 'start_time' format. Must be ISO 8601"@
            } else {
                r matches Ok(p) && Some(p.0@) == text_at(a, seq!["summary"]) && event_body_is(
                    p.1,
                    a,
                    match text_at(a, seq!["end_time"]) {
                        Some(e) => e,
                        None => default_end(start)->0,
                    },
                )
            }
        },
    }
}

fn time_object(time: String, zone: Option<&str>) -> (r: JsonValue)
    ensures
        time_is(
            Some(r),
            time@,
            match zone {
                Some(z) => Some(z@),
                None => None,
            },
        ),
{
    let mut m: Vec<(String, JsonValue)> = Vec::new();
    m.push((copy_str("dateTime"), JsonValue::Str(time)));
    match zone {
        Some(z) => m.push((copy_str("timeZone"), JsonValue::Str(copy_str(z)))),
        None => {},
    }
    proof {
        reveal_strlit("dateTime");
        reveal_strlit("timeZone");
        assert("dateTime"@[0] != "timeZone"@[0]);
        if m@.len() > 1 {
            lemma_member_at(m@, 1, "timeZone"@);
        } else {
            lemma_member_none(m@, "timeZone"@);
        }
    }
    let r = JsonValue::Object(m);
    proof {
        lemma_lookup1(r, "dateTime");
        lemma_lookup1(r, "timeZone");
    }
    assert(keys_of(r) =~= seq!["dateTime"@] + match zone {
        Some(_) => seq!["timeZone"@],
        None => Seq::<Seq<char>>::empty(),
    });
    r
}

/// Creates an event on the primary Google Calendar.
pub struct GoogleCalendarTool {
    pub metadata: ToolMetadata,
}

impl GoogleCalendarTool {
    /// The tool.
    pub fn new() -> (t: Self)
        ensures
            metadata_is(
                t.metadata,
                "create_calendar_event"@,
                "Create Calendar Event"@,
                ToolType::GoogleCalendar,
                "Create an event on the user's primary Google Calendar."@,
                ToolCategory::Google,
            ),
    {
        GoogleCalendarTool {
            metadata: ToolMetadata::from_parts(
                "create_calendar_event",
                "Create Calendar Event",
                ToolType::GoogleCalendar,
                "Create an event on the user's primary Google Calendar.",
                ToolCategory::Google,
            ),
        }
    }

    /// The summary and body of the event a call describes (its arguments,
    /// `None` when they were not JSON), ending an hour after its start unless
    /// it says otherwise. The arguments are taken over, as their recurrence
    /// rules move into the body.
    pub fn plan(args: Option<JsonValue>) -> (r: Result<(String, JsonValue), ToolError>)
        ensures
            create_plan_is(args, r),
    {
        let a = match args {
            Some(a) => a,
            None => {
                return Err(ToolError::msg("Failed to parse arguments"));
            },
        };
        let summary = match a.text1("summary") {
            Some(s) => copy_str(s),
            None => {
                return Err(ToolError::msg("Missing 'summary'"));
            },
        };
        let description = a.text1_or("description", "");
        let start = match a.text1("start_time") {
            Some(s) => copy_str(s),
            None => {
                return Err(ToolError::msg("Missing 'start_time'"));
            },
        };
        let parsed = match rfc3339_hour_later(start.as_str()) {
            Some(e) => Some(e),
            None => {
                let mut z = start.clone();
                z.append("Z");
                rfc3339_hour_later(z.as_str())
            },
        };
        let later = match parsed {
            Some(e) => e,
            None => {
                return Err(ToolError::msg("Invalid 'start_time' format. Must be ISO 8601"));
            },
        };
        let end = match a.text1("end_time") {
            Some(e) => copy_str(e),
            None => later,
        };
        let zone = match a.text1("timezone") {
            Some(z) => Some(copy_str(z)),
            None => None,
        };
        let ghost whole = a;
        let start_obj = time_object(start, match &zone {
            Some(z) => Some(z.as_str()),
            None => None,
        });
        let end_obj = time_object(end, match &zone {
            Some(z) => Some(z.as_str()),
            None => None,
        });
        let rec = match a.take("recurrence") {
            Some(JsonValue::Array(items)) => Some(JsonValue::Array(items)),
            _ => None,
        };
        let mut b: Vec<(String, JsonValue)> = Vec::new();
        b.push((copy_str("summary"), JsonValue::Str(summary.clone())));
        b.push((copy_str("description"), JsonValue::Str(description)));
        b.push((copy_str("start"), start_obj));
        b.push((copy_str("end"), end_obj));
        let ghost has_rec = rec is Some;
        match rec {
            Some(r) => b.push((copy_str("recurrence"), r)),
            None => {},
        }
        proof {
            reveal_strlit("summary");
            reveal_strlit("description");
            reveal_strlit("start");
            reveal_strlit("end");
            reveal_strlit("recurrence");
            assert("summary"@.len() == 7 && "description"@.len() == 11 && "start"@.len() == 5);
            assert("end"@.len() == 3 && "recurrence"@.len() == 10);
            lemma_member_at(b@, 1, "description"@);
            lemma_member_at(b@, 2, "start"@);
            lemma_member_at(b@, 3, "end"@);
            if has_rec {
                lemma_member_at(b@, 4, "recurrence"@);
            } else {
                lemma_member_none(b@, "recurrence"@);
            }
        }
        let body = JsonValue::Object(b);
        proof {
            lemma_lookup1(body, "summary");
            lemma_lookup1(body, "description");
            lemma_lookup1(whole, "summary");
        }
        assert(keys_of(body) =~= seq!["summary"@, "description"@, "start"@, "end"@] + if has_rec {
            seq!["recurrence"@]
        } else {
            Seq::<Seq<char>>::empty()
        });
        Ok((summary, body))
    }

    /// The answer to the creation of the event `summary` from its reply.
    pub fn create_result(summary: &str, reply: Option<&HttpReply>) -> (r: Result<String, ToolError>)
        ensures
            match reply {
                None => r matches Err(e) && e.message@ == "Failed to send request to Calendar API"@,
                Some(h) => if !h.success {
                    r matches Err(e) && e.message@ == "Calendar API failed with "@ + h.status@ + ": "@
                        + h.text@
                } else {
                    r matches Ok(s) && s@ == "Successfully created event '"@ + summary@ + "'. Link: "@
                        + text_or(json_or_null(*h), seq!["htmlLink"], "No link provided"@)
                },
            },
    {
        let h = match reply {
            None => {
                return Err(ToolError::msg("Failed to send request to Calendar API"));
            },
            Some(h) => h,
        };
        if !h.success {
            let mut m = copy_str("Calendar API failed with ");
            m.append(h.status.as_str());
            m.append(": ");
            m.append(h.text.as_str());
            return Err(ToolError::new(m));
        }
        let null = JsonValue::Null;
        let d: &JsonValue = match &h.json {
            Some(v) => v,
            None => &null,
        };
        let mut o = copy_str("Successfully created event '");
        o.append(summary);
        o.append("'. Link: ");
        o.append(d.text1_or("htmlLink", "No link provided").as_str());
        Ok(o)
    }
}

} // verus!
