//! The Google Workspace tools: Drive, Sheets, Tasks and Docs. Each tool reads
//! its arguments and says which request to send (or answers at once when an
//! argument is missing), and renders the reply it is handed.
use vstd::prelude::*;
use crate::framework::{metadata_is, ToolCategory, ToolError, ToolMetadata, ToolType};
use crate::google::{args_or_empty, found_text, json_or_null, nat_or, query_view, GetRequest, HttpReply};
use crate::json::{
    as_list, as_text, get, keys_of, lemma_lookup1, lemma_member_at, lemma_member_none, lookup, member, text_at,
    text_or, JsonValue,
};
use crate::text::{copy_str, decimal, has_prefix, join, push_decimal};

verus! {

/// What a call leads to: a request to send, or an answer given at once.
pub enum Planned<T> {
    Send(T),
    Answer(String),
}

/// The reply itself rather than a reference to it.
pub open spec fn owned(reply: Option<&HttpReply>) -> Option<HttpReply> {
    match reply {
        Some(h) => Some(*h),
        None => None,
    }
}

/// The arguments of a call, `{}`-like when they were not JSON.
pub open spec fn call_args(args: Option<&JsonValue>) -> JsonValue {
    args_or_empty(
        match args {
            Some(x) => Some(*x),
            None => None,
        },
    )
}

/// How a tool answers a reply: `unsent` when it could not be sent, `failed`
/// and the reply's text when its status was not a success, and `ok` of the
/// reply otherwise.
pub open spec fn answers(
    reply: Option<HttpReply>,
    r: Result<String, ToolError>,
    unsent: Seq<char>,
    failed: Seq<char>,
    ok: spec_fn(HttpReply) -> Seq<char>,
) -> bool {
    match reply {
        None => r matches Err(e) && e.message@ == unsent,
        Some(h) => if !h.success {
            r matches Err(e) && e.message@ == failed + h.text@
        } else {
            r matches Ok(s) && s@ == ok(h)
        },
    }
}

/// The reply when it came back with a success, or the error the tool gives.
fn check_reply<'a>(reply: Option<&'a HttpReply>, unsent: &str, failed: &str) -> (r: Result<
    &'a HttpReply,
    ToolError,
>)
    ensures
        match reply {
            None => r matches Err(e) && e.message@ == unsent@,
            Some(h) => if !h.success {
                r matches Err(e) && e.message@ == failed@ + h.text@
            } else {
                r matches Ok(x) && *x == *h
            },
        },
{
    match reply {
        None => Err(ToolError::msg(unsent)),
        Some(h) => if !h.success {
            let mut m = copy_str(failed);
            m.append(h.text.as_str());
            Err(ToolError::new(m))
        } else {
            Ok(h)
        },
    }
}

/// `prefix` followed by `rest`.
fn concat(prefix: &str, rest: &str) -> (r: String)
    ensures
        r@ == prefix@ + rest@,
{
    let mut s = copy_str(prefix);
    s.append(rest);
    s
}

// ---------------------------------------------------------------------------
// Drive.
// ---------------------------------------------------------------------------

/// The entry of one file.
pub open spec fn file_entry(f: JsonValue) -> Seq<char> {
    "ID: "@ + text_or(f, seq!["id"], ""@) + "\nName: "@ + text_or(f, seq!["name"], ""@) + "\nType: "@
        + text_or(f, seq!["mimeType"], ""@) + "\nModified: "@ + text_or(f, seq!["modifiedTime"], ""@)
        + "\n---"@
}

/// The items of the list at `key`, or none.
pub open spec fn list_at(d: JsonValue, key: Seq<char>) -> Seq<JsonValue> {
    match as_list(get(d, key)) {
        Some(l) => l,
        None => Seq::empty(),
    }
}

/// The answer to a Drive search.
pub open spec fn drive_search_text(h: HttpReply) -> Seq<char> {
    found_text(
        list_at(json_or_null(h), "files"@).map_values(|f: JsonValue| file_entry(f)),
        "files"@,
        "No files found."@,
    )
}

/// Searches Google Drive.
pub struct GoogleDriveSearchTool {
    pub metadata: ToolMetadata,
}

impl GoogleDriveSearchTool {
    /// The tool.
    pub fn new() -> (t: Self)
        ensures
            metadata_is(
                t.metadata,
                "google_drive_search"@,
                "Search Google Drive"@,
                ToolType::GoogleDriveSearch,
                "Search for files and folders in Google Drive."@,
                ToolCategory::Google,
            ),
    {
        GoogleDriveSearchTool {
            metadata: ToolMetadata::from_parts(
                "google_drive_search",
                "Search Google Drive",
                ToolType::GoogleDriveSearch,
                "Search for files and folders in Google Drive.",
                ToolCategory::Google,
            ),
        }
    }

    /// The search request: at most `max_results` files (five by default),
    /// matching `query` when one is given.
    pub fn plan(args: Option<&JsonValue>) -> (r: GetRequest)
        ensures
            ({
                let a = call_args(args);
                let q = text_or(a, seq!["query"], ""@);
                r.url@ == "https://www.googleapis.com/drive/v3/files"@ && query_view(r.query@) == seq![
                    ("pageSize"@, decimal(nat_or(a, seq!["max_results"], 5))),
                    ("fields"@, "files(id, name, mimeType, modifiedTime)"@),
                ] + if q.len() == 0 {
                    Seq::empty()
                } else {
                    seq![("q"@, q)]
                }
            }),
    {
        let null = JsonValue::Null;
        let a: &JsonValue = match args {
            Some(a) => a,
            None => &null,
        };
        let n = match a.u64_1("max_results") {
            Some(n) => n,
            None => 5,
        };
        let q = a.text1_or("query", "");
        let mut query: Vec<(String, String)> = Vec::new();
        query.push((copy_str("pageSize"), crate::text::u64_to_string(n)));
        query.push((copy_str("fields"), copy_str("files(id, name, mimeType, modifiedTime)")));
        if !crate::text::is_empty_str(q.as_str()) {
            query.push((copy_str("q"), q));
        }
        let r = GetRequest { url: copy_str("https://www.googleapis.com/drive/v3/files"), query };
        assert(query_view(r.query@) =~= seq![
            ("pageSize"@, decimal(nat_or(*a, seq!["max_results"], 5))),
            ("fields"@, "files(id, name, mimeType, modifiedTime)"@),
        ] + if text_or(*a, seq!["query"], ""@).len() == 0 {
            Seq::empty()
        } else {
            seq![("q"@, text_or(*a, seq!["query"], ""@))]
        });
        r
    }

    /// The entry of one file.
    pub fn file_entry(f: &JsonValue) -> (r: String)
        ensures
            r@ == file_entry(*f),
    {
        let mut o = copy_str("ID: ");
        o.append(f.text1_or("id", "").as_str());
        o.append("\nName: ");
        o.append(f.text1_or("name", "").as_str());
        o.append("\nType: ");
        o.append(f.text1_or("mimeType", "").as_str());
        o.append("\nModified: ");
        o.append(f.text1_or("modifiedTime", "").as_str());
        o.append("\n---");
        o
    }

    /// The answer to a search from its reply (`None` when it could not be
    /// sent).
    pub fn search_result(reply: Option<&HttpReply>) -> (r: Result<String, ToolError>)
        ensures
            answers(
                owned(reply),
                r,
                "Failed to search Google Drive"@,
                "Google Drive API failed: "@,
                |h: HttpReply| drive_search_text(h),
            ),
    {
        let h = check_reply(reply, "Failed to search Google Drive", "Google Drive API failed: ")?;
        let null = JsonValue::Null;
        let d: &JsonValue = match &h.json {
            Some(v) => v,
            None => &null,
        };
        let mut entries: Vec<String> = Vec::new();
        match (match d.get("files") {
            Some(x) => x.as_array(),
            None => None,
        }) {
            Some(fs) => {
                let mut i: usize = 0;
                while i < fs.len()
                    invariant
                        i <= fs@.len(),
                        entries@.len() == i,
                        forall|j: int| 0 <= j < i ==> #[trigger] entries@[j]@ == file_entry(fs@[j]),
                    decreases fs@.len() - i,
                {
                    entries.push(Self::file_entry(&fs[i]));
                    i = i + 1;
                }
                assert(entries@.map_values(|s: String| s@) =~= fs@.map_values(
                    |f: JsonValue| file_entry(f),
                ));
            },
            None => {
                assert(entries@.map_values(|s: String| s@) =~= Seq::<Seq<char>>::empty());
            },
        }
        Ok(crate::google::found_result(&entries, "files", "No files found."))
    }
}

/// What a Drive read exports a Workspace document as, when it can.
pub open spec fn export_type(mime: Seq<char>) -> Option<Seq<char>> {
    if mime == "application/vnd.google-apps.document"@ {
        Some("text/plain"@)
    } else if mime == "application/vnd.google-apps.spreadsheet"@ {
        Some("text/csv"@)
    } else if mime == "application/vnd.google-apps.presentation"@ {
        Some("text/plain"@)
    } else {
        None
    }
}

/// What a Drive read leads to.
pub open spec fn drive_read_plan(a: JsonValue) -> Result<Seq<char>, Seq<char>> {
    let id = text_or(a, seq!["file_id"], ""@);
    let mime = text_or(a, seq!["mime_type"], ""@);
    if id.len() == 0 {
        Err("Error: file_id is required."@)
    } else if has_prefix(mime, "application/vnd.google-apps"@) {
        match export_type(mime) {
            Some(t) => Ok("https://www.googleapis.com/drive/v3/files/"@ + id + "/export?mimeType="@ + t),
            None => Err("Error: Cannot read Workspace document of type "@ + mime),
        }
    } else {
        Ok("https://www.googleapis.com/drive/v3/files/"@ + id + "?alt=media"@)
    }
}

/// The plan as a value of `Planned`.
pub open spec fn planned_as<T>(p: Planned<T>, want: Result<Seq<char>, Seq<char>>, view: spec_fn(T) -> Seq<char>) -> bool {
    match want {
        Ok(u) => p matches Planned::Send(x) && view(x) == u,
        Err(m) => p matches Planned::Answer(s) && s@ == m,
    }
}

/// Reads a file from Google Drive.
pub struct GoogleDriveReadTool {
    pub metadata: ToolMetadata,
}

impl GoogleDriveReadTool {
    /// The tool.
    pub fn new() -> (t: Self)
        ensures
            metadata_is(
                t.metadata,
                "google_drive_read"@,
                "Read Google Drive File"@,
                ToolType::GoogleDriveRead,
                "Read the contents of a file in Google Drive."@,
                ToolCategory::Google,
            ),
    {
        GoogleDriveReadTool {
            metadata: ToolMetadata::from_parts(
                "google_drive_read",
                "Read Google Drive File",
                ToolType::GoogleDriveRead,
                "Read the contents of a file in Google Drive.",
                ToolCategory::Google,
            ),
        }
    }

    /// The URL to read, exporting Google Docs, Sheets and Slides as text; or
    /// the answer when no file is named or its type cannot be exported.
    pub fn plan(args: Option<&JsonValue>) -> (r: Planned<String>)
        ensures
            planned_as(r, drive_read_plan(call_args(args)), |s: String| s@),
    {
        let null = JsonValue::Null;
        let a: &JsonValue = match args {
            Some(a) => a,
            None => &null,
        };
        let id = a.text1_or("file_id", "");
        let mime = a.text1_or("mime_type", "");
        if crate::text::is_empty_str(id.as_str()) {
            return Planned::Answer(copy_str("Error: file_id is required."));
        }
        if crate::text::starts_with(mime.as_str(), "application/vnd.google-apps") {
            let t = if crate::text::str_eq(mime.as_str(), "application/vnd.google-apps.document") {
                "text/plain"
            } else if crate::text::str_eq(mime.as_str(), "application/vnd.google-apps.spreadsheet") {
                "text/csv"
            } else if crate::text::str_eq(mime.as_str(), "application/vnd.google-apps.presentation") {
                "text/plain"
            } else {
                return Planned::Answer(concat("Error: Cannot read Workspace document of type ", mime.as_str()));
            };
            let mut u = copy_str("https://www.googleapis.com/drive/v3/files/");
            u.append(id.as_str());
            u.append("/export?mimeType=");
            u.append(t);
            Planned::Send(u)
        } else {
            let mut u = copy_str("https://www.googleapis.com/drive/v3/files/");
            u.append(id.as_str());
            u.append("?alt=media");
            Planned::Send(u)
        }
    }

    /// The answer to a read from its reply.
    pub fn read_result(reply: Option<&HttpReply>) -> (r: Result<String, ToolError>)
        ensures
            answers(
                owned(reply),
                r,
                "Failed to read Google Drive file"@,
                "Google Drive API read failed: "@,
                |h: HttpReply| "File Content:\n\n"@ + h.text@,
            ),
    {
        let h = check_reply(reply, "Failed to read Google Drive file", "Google Drive API read failed: ")?;
        Ok(concat("File Content:\n\n", h.text.as_str()))
    }
}

// ---------------------------------------------------------------------------
// Sheets.
// ---------------------------------------------------------------------------

/// The text of a cell: its string, or nothing.
pub open spec fn cell_text(c: JsonValue) -> Seq<char> {
    match as_text(Some(c)) {
        Some(s) => s,
        None => ""@,
    }
}

/// The rows that are lists, each as its cells joined with `, ` and ended by
/// a newline.
pub open spec fn rows_text(rows: Seq<JsonValue>) -> Seq<char>
    decreases rows.len(),
{
    if rows.len() == 0 {
        ""@
    } else {
        rows_text(rows.drop_last()) + match as_list(Some(rows.last())) {
            Some(cols) => join(cols.map_values(|c: JsonValue| cell_text(c)), ", "@) + "\n"@,
            None => ""@,
        }
    }
}

/// The answer to a Sheets read.
pub open spec fn sheet_text(h: HttpReply) -> Seq<char> {
    let t = rows_text(list_at(json_or_null(h), "values"@));
    "Sheet Content:\n\n"@ + if t.len() == 0 {
        "No data found in range."@
    } else {
        t
    }
}

/// The URL of a range of a spreadsheet.
pub open spec fn sheet_url(id: Seq<char>, range: Seq<char>) -> Seq<char> {
    "https://sheets.googleapis.com/v4/spreadsheets/"@ + id + "/values/"@ + range
}

fn row_line(cols: &Vec<JsonValue>) -> (r: String)
    ensures
        r@ == join(cols@.map_values(|c: JsonValue| cell_text(c)), ", "@) + "\n"@,
{
    let ghost cells = cols@.map_values(|c: JsonValue| cell_text(c));
    let mut out = String::new();
    let mut j: usize = 0;
    assert(cells.take(0) =~= Seq::<Seq<char>>::empty());
    proof {
        reveal_strlit("");
    }
    while j < cols.len()
        invariant
            j <= cols@.len(),
            cells == cols@.map_values(|c: JsonValue| cell_text(c)),
            out@ == join(cells.take(j as int), ", "@),
        decreases cols@.len() - j,
    {
        assert(cells.take(j + 1).drop_last() =~= cells.take(j as int));
        if j > 0 {
            out.append(", ");
        }
        assert(cells.take(j + 1).last() == cell_text(cols@[j as int]));
        assert(join(cells.take(j + 1), ", "@) == if j == 0 {
            cells[0]
        } else {
            join(cells.take(j as int), ", "@) + ", "@ + cells[j as int]
        });
        match cols[j].as_str() {
            Some(t) => out.append(t),
            None => {
                proof {
                    reveal_strlit("");
                }
            },
        }
        assert(out@ =~= join(cells.take(j + 1), ", "@));
        j = j + 1;
    }
    assert(cells.take(cells.len() as int) =~= cells);
    out.append("\n");
    out
}

/// Reads a range of a Google Sheet.
pub struct GoogleSheetsReadTool {
    pub metadata: ToolMetadata,
}

impl GoogleSheetsReadTool {
    /// The tool.
    pub fn new() -> (t: Self)
        ensures
            metadata_is(
                t.metadata,
                "google_sheets_read"@,
                "Read Google Sheet"@,
                ToolType::GoogleSheetsRead,
                "Read data from a Google Sheet range."@,
                ToolCategory::Google,
            ),
    {
        GoogleSheetsReadTool {
            metadata: ToolMetadata::from_parts(
                "google_sheets_read",
                "Read Google Sheet",
                ToolType::GoogleSheetsRead,
                "Read data from a Google Sheet range.",
                ToolCategory::Google,
            ),
        }
    }

    /// The URL of the range, or the answer when the sheet or the range is
    /// not named.
    pub fn plan(args: Option<&JsonValue>) -> (r: Planned<String>)
        ensures
            ({
                let a = call_args(args);
                let id = text_or(a, seq!["spreadsheet_id"], ""@);
                let range = text_or(a, seq!["range"], ""@);
                planned_as(
                    r,
                    if id.len() == 0 || range.len() == 0 {
                        Err("Error: spreadsheet_id and range are required."@)
                    } else {
                        Ok(sheet_url(id, range))
                    },
                    |s: String| s@,
                )
            }),
    {
        let null = JsonValue::Null;
        let a: &JsonValue = match args {
            Some(a) => a,
            None => &null,
        };
        let id = a.text1_or("spreadsheet_id", "");
        let range = a.text1_or("range", "");
        if crate::text::is_empty_str(id.as_str()) || crate::text::is_empty_str(range.as_str()) {
            return Planned::Answer(copy_str("Error: spreadsheet_id and range are required."));
        }
        let mut u = copy_str("https://sheets.googleapis.com/v4/spreadsheets/");
        u.append(id.as_str());
        u.append("/values/");
        u.append(range.as_str());
        Planned::Send(u)
    }

    /// The answer to a read from its reply.
    pub fn read_result(reply: Option<&HttpReply>) -> (r: Result<String, ToolError>)
        ensures
            answers(
                owned(reply),
                r,
                "Failed to read Google Sheet"@,
                "Google Sheets API failed: "@,
                |h: HttpReply| sheet_text(h),
            ),
    {
        let h = check_reply(reply, "Failed to read Google Sheet", "Google Sheets API failed: ")?;
        let null = JsonValue::Null;
        let d: &JsonValue = match &h.json {
            Some(v) => v,
            None => &null,
        };
        let mut content = String::new();
        proof {
            reveal_strlit("");
        }
        match (match d.get("values") {
            Some(x) => x.as_array(),
            None => None,
        }) {
            Some(rows) => {
                let mut i: usize = 0;
                assert(rows@.take(0) =~= Seq::<JsonValue>::empty());
                while i < rows.len()
                    invariant
                        i <= rows@.len(),
                        content@ == rows_text(rows@.take(i as int)),
                    decreases rows@.len() - i,
                {
                    assert(rows@.take(i + 1).drop_last() =~= rows@.take(i as int));
                    assert(rows@.take(i + 1).last() == rows@[i as int]);
                    let ghost before = content@;
                    match rows[i].as_array() {
                        Some(cols) => {
                            let line = row_line(cols);
                            content.append(line.as_str());
                            assert(content@ =~= before + line@);
                        },
                        None => {
                            proof {
                                reveal_strlit("");
                            }
                            assert(content@ =~= before + ""@);
                        },
                    }
                    assert(content@ == rows_text(rows@.take(i + 1)));
                    i = i + 1;
                }
                assert(rows@.take(rows@.len() as int) =~= rows@);
            },
            None => {},
        }
        let mut out = copy_str("Sheet Content:\n\n");
        if crate::text::is_empty_str(content.as_str()) {
            out.append("No data found in range.");
        } else {
            out.append(content.as_str());
        }
        Ok(out)
    }
}

/// The body of a Sheets update: the range, by rows, and the values given.
pub open spec fn update_body_is(b: JsonValue, range: Seq<char>, values: Option<JsonValue>) -> bool {
    &&& keys_of(b) == seq!["range"@, "majorDimension"@, "values"@]
    &&& text_at(b, seq!["range"]) == Some(range)
    &&& text_at(b, seq!["majorDimension"]) == Some("ROWS"@)
    &&& get(b, "values"@) == values
}

/// Writes values to a range of a Google Sheet.
pub struct GoogleSheetsWriteTool {
    pub metadata: ToolMetadata,
}

impl GoogleSheetsWriteTool {
    /// The tool.
    pub fn new() -> (t: Self)
        ensures
            metadata_is(
                t.metadata,
                "google_sheets_write"@,
                "Write Google Sheet"@,
                ToolType::GoogleSheetsWrite,
                "Write data to a Google Sheet range."@,
                ToolCategory::Google,
            ),
    {
        GoogleSheetsWriteTool {
            metadata: ToolMetadata::from_parts(
                "google_sheets_write",
                "Write Google Sheet",
                ToolType::GoogleSheetsWrite,
                "Write data to a Google Sheet range.",
                ToolCategory::Google,
            ),
        }
    }

    /// The URL and body of the update, which carries the call's `values`;
    /// or the answer when the sheet, the range or the values are missing.
    /// The arguments are taken over, as their values move into the body.
    pub fn plan(args: Option<JsonValue>) -> (r: Planned<(String, JsonValue)>)
        ensures
            ({
                let a = args_or_empty(args);
                let id = text_or(a, seq!["spreadsheet_id"], ""@);
                let range = text_or(a, seq!["range"], ""@);
                if id.len() == 0 || range.len() == 0 || get(a, "values"@) is None {
                    r matches Planned::Answer(s) && s@
                        == "Error: spreadsheet_id, range, and values are required."@
                } else {
                    r matches Planned::Send(p) && p.0@ == sheet_url(id, range)
                        + "?valueInputOption=USER_ENTERED"@ && update_body_is(
                        p.1,
                        range,
                        get(a, "values"@),
                    )
                }
            }),
    {
        let a = match args {
            Some(a) => a,
            None => {
                proof {
                    reveal_strlit("");
                    assert(lookup(JsonValue::Null, seq!["spreadsheet_id"]) is None);
                }
                return Planned::Answer(copy_str("Error: spreadsheet_id, range, and values are required."));
            },
        };
        let id = a.text1_or("spreadsheet_id", "");
        let range = a.text1_or("range", "");
        if crate::text::is_empty_str(id.as_str()) || crate::text::is_empty_str(range.as_str()) {
            return Planned::Answer(copy_str("Error: spreadsheet_id, range, and values are required."));
        }
        let values = match a.take("values") {
            Some(v) => v,
            None => {
                return Planned::Answer(copy_str("Error: spreadsheet_id, range, and values are required."));
            },
        };
        let mut u = copy_str("https://sheets.googleapis.com/v4/spreadsheets/");
        u.append(id.as_str());
        u.append("/values/");
        u.append(range.as_str());
        u.append("?valueInputOption=USER_ENTERED");
        let mut b: Vec<(String, JsonValue)> = Vec::new();
        b.push((copy_str("range"), JsonValue::Str(range)));
        b.push((copy_str("majorDimension"), JsonValue::Str(copy_str("ROWS"))));
        b.push((copy_str("values"), values));
        proof {
            reveal_strlit("range");
            reveal_strlit("majorDimension");
            reveal_strlit("values");
            assert("range"@.len() != "majorDimension"@.len());
            assert("range"@.len() != "values"@.len());
            assert("majorDimension"@.len() != "values"@.len());
            lemma_member_at(b@, 1, "majorDimension"@);
            lemma_member_at(b@, 2, "values"@);
        }
        let body = JsonValue::Object(b);
        assert(keys_of(body) =~= seq!["range"@, "majorDimension"@, "values"@]);
        proof {
            lemma_lookup1(body, "range");
            lemma_lookup1(body, "majorDimension");
        }
        Planned::Send((u, body))
    }

    /// The answer to an update from its reply; `id` is the sheet's id.
    pub fn write_result(id: &str, reply: Option<&HttpReply>) -> (r: Result<String, ToolError>)
        ensures
            answers(
                owned(reply),
                r,
                "Failed to update Google Sheet"@,
                "Google Sheets update API failed: "@,
                |h: HttpReply| "Successfully wrote to Sheet ID: "@ + id@,
            ),
    {
        let _h = check_reply(reply, "Failed to update Google Sheet", "Google Sheets update API failed: ")?;
        Ok(concat("Successfully wrote to Sheet ID: ", id))
    }
}

// ---------------------------------------------------------------------------
// Tasks.
// ---------------------------------------------------------------------------

/// The entry of one task.
pub open spec fn task_entry(t: JsonValue) -> Seq<char> {
    "ID: "@ + text_or(t, seq!["id"], ""@) + "\nTitle: "@ + text_or(t, seq!["title"], ""@) + "\nStatus: "@
        + text_or(t, seq!["status"], ""@) + "\nNotes: "@ + text_or(t, seq!["notes"], ""@) + "\n---"@
}

/// Law: a task's entry shows its id, title and status, then its notes (the
/// text of its `notes` member, nothing when it has none), and ends the
/// entry there: the notes are what comes between `Notes: ` and the closing
/// `---`.
pub proof fn law_task_entry_shows_its_notes(t: JsonValue, notes: Seq<char>)
    requires
        text_at(t, seq!["notes"]) == Some(notes) || (text_at(t, seq!["notes"]) is None && notes.len() == 0),
    ensures
        exists|head: Seq<char>| task_entry(t) == head + "\nNotes: "@ + notes + "\n---"@,
        task_entry(t) == "ID: "@ + text_or(t, seq!["id"], ""@) + "\nTitle: "@ + text_or(t, seq!["title"], ""@)
            + "\nStatus: "@ + text_or(t, seq!["status"], ""@) + "\nNotes: "@ + notes + "\n---"@,
{
    let head = "ID: "@ + text_or(t, seq!["id"], ""@) + "\nTitle: "@ + text_or(t, seq!["title"], ""@) + "\nStatus: "@
        + text_or(t, seq!["status"], ""@);
    if text_at(t, seq!["notes"]) is None {
        assert(notes =~= ""@) by {
            reveal_strlit("");
        }
    }
    assert(task_entry(t) == head + "\nNotes: "@ + notes + "\n---"@);
}

/// The answer to a Tasks read.
pub open spec fn tasks_text(h: HttpReply) -> Seq<char> {
    found_text(
        list_at(json_or_null(h), "items"@).map_values(|t: JsonValue| task_entry(t)),
        "tasks"@,
        "No tasks found."@,
    )
}

/// The URL of the tasks of a list.
pub open spec fn tasks_url(list: Seq<char>) -> Seq<char> {
    "https://tasks.googleapis.com/tasks/v1/lists/"@ + list + "/tasks"@
}

/// Reads the tasks of a Google Tasks list.
pub struct GoogleTasksReadTool {
    pub metadata: ToolMetadata,
}

impl GoogleTasksReadTool {
    /// The tool.
    pub fn new() -> (t: Self)
        ensures
            metadata_is(
                t.metadata,
                "google_tasks_read"@,
                "Read Google Tasks"@,
                ToolType::GoogleTasksRead,
                "Read tasks from a Google Tasks list."@,
                ToolCategory::Google,
            ),
    {
        GoogleTasksReadTool {
            metadata: ToolMetadata::from_parts(
                "google_tasks_read",
                "Read Google Tasks",
                ToolType::GoogleTasksRead,
                "Read tasks from a Google Tasks list.",
                ToolCategory::Google,
            ),
        }
    }

    /// The URL to read: at most `max_results` tasks (twenty by default) of
    /// `tasklist` (the default list unless one is named).
    pub fn plan(args: Option<&JsonValue>) -> (r: String)
        ensures
            ({
                let a = call_args(args);
                r@ == tasks_url(text_or(a, seq!["tasklist"], "@default"@)) + "?maxResults="@ + decimal(
                    nat_or(a, seq!["max_results"], 20),
                )
            }),
    {
        let null = JsonValue::Null;
        let a: &JsonValue = match args {
            Some(a) => a,
            None => &null,
        };
        let list = a.text1_or("tasklist", "@default");
        let n = match a.u64_1("max_results") {
            Some(n) => n,
            None => 20,
        };
        let mut u = copy_str("https://tasks.googleapis.com/tasks/v1/lists/");
        u.append(list.as_str());
        u.append("/tasks");
        u.append("?maxResults=");
        push_decimal(&mut u, n);
        u
    }

    /// The entry of one task.
    pub fn task_entry(t: &JsonValue) -> (r: String)
        ensures
            r@ == task_entry(*t),
    {
        let mut o = copy_str("ID: ");
        o.append(t.text1_or("id", "").as_str());
        o.append("\nTitle: ");
        o.append(t.text1_or("title", "").as_str());
        o.append("\nStatus: ");
        o.append(t.text1_or("status", "").as_str());
        o.append("\nNotes: ");
        o.append(t.text1_or("notes", "").as_str());
        o.append("\n---");
        o
    }

    /// The answer to a read from its reply.
    pub fn read_result(reply: Option<&HttpReply>) -> (r: Result<String, ToolError>)
        ensures
            answers(
                owned(reply),
                r,
                "Failed to read Google Tasks"@,
                "Google Tasks API failed: "@,
                |h: HttpReply| tasks_text(h),
            ),
    {
        let h = check_reply(reply, "Failed to read Google Tasks", "Google Tasks API failed: ")?;
        let null = JsonValue::Null;
        let d: &JsonValue = match &h.json {
            Some(v) => v,
            None => &null,
        };
        let mut entries: Vec<String> = Vec::new();
        match (match d.get("items") {
            Some(x) => x.as_array(),
            None => None,
        }) {
            Some(ts) => {
                let mut i: usize = 0;
                while i < ts.len()
                    invariant
                        i <= ts@.len(),
                        entries@.len() == i,
                        forall|j: int| 0 <= j < i ==> #[trigger] entries@[j]@ == task_entry(ts@[j]),
                    decreases ts@.len() - i,
                {
                    entries.push(Self::task_entry(&ts[i]));
                    i = i + 1;
                }
                assert(entries@.map_values(|s: String| s@) =~= ts@.map_values(
                    |t: JsonValue| task_entry(t),
                ));
            },
            None => {
                assert(entries@.map_values(|s: String| s@) =~= Seq::<Seq<char>>::empty());
            },
        }
        Ok(crate::google::found_result(&entries, "tasks", "No tasks found."))
    }
}

/// The body of a new task: its title, and the notes and due date the call
/// gives, in that order.
pub open spec fn task_body_is(b: JsonValue, a: JsonValue) -> bool {
    &&& keys_of(b) == seq!["title"@] + (if text_at(a, seq!["notes"]) is Some {
        seq!["notes"@]
    } else {
        Seq::empty()
    }) + (if text_at(a, seq!["due"]) is Some {
        seq!["due"@]
    } else {
        Seq::empty()
    })
    &&& text_at(b, seq!["title"]) == Some(text_or(a, seq!["title"], ""@))
    &&& text_at(b, seq!["notes"]) == text_at(a, seq!["notes"])
    &&& text_at(b, seq!["due"]) == text_at(a, seq!["due"])
}

/// Creates a task in a Google Tasks list.
pub struct GoogleTasksWriteTool {
    pub metadata: ToolMetadata,
}

impl GoogleTasksWriteTool {
    /// The tool.
    pub fn new() -> (t: Self)
        ensures
            metadata_is(
                t.metadata,
                "google_tasks_write"@,
                "Write Google Task"@,
                ToolType::GoogleTasksWrite,
                "Create a new task in a Google Tasks list."@,
                ToolCategory::Google,
            ),
    {
        GoogleTasksWriteTool {
            metadata: ToolMetadata::from_parts(
                "google_tasks_write",
                "Write Google Task",
                ToolType::GoogleTasksWrite,
                "Create a new task in a Google Tasks list.",
                ToolCategory::Google,
            ),
        }
    }

    /// The URL and body of the new task, or the answer when it has no title.
    pub fn plan(args: Option<&JsonValue>) -> (r: Planned<(String, JsonValue)>)
        ensures
            ({
                let a = call_args(args);
                if text_or(a, seq!["title"], ""@).len() == 0 {
                    r matches Planned::Answer(s) && s@ == "Error: title is required."@
                } else {
                    r matches Planned::Send(p) && p.0@ == tasks_url(
                        text_or(a, seq!["tasklist"], "@default"@),
                    ) && task_body_is(p.1, a)
                }
            }),
    {
        let null = JsonValue::Null;
        let a: &JsonValue = match args {
            Some(a) => a,
            None => &null,
        };
        let list = a.text1_or("tasklist", "@default");
        let title = a.text1_or("title", "");
        if crate::text::is_empty_str(title.as_str()) {
            return Planned::Answer(copy_str("Error: title is required."));
        }
        let notes = a.text1("notes");
        let due = a.text1("due");
        let mut b: Vec<(String, JsonValue)> = Vec::new();
        b.push((copy_str("title"), JsonValue::Str(title)));
        match notes {
            Some(n) => b.push((copy_str("notes"), JsonValue::Str(copy_str(n)))),
            None => {},
        }
        match due {
            Some(d) => b.push((copy_str("due"), JsonValue::Str(copy_str(d)))),
            None => {},
        }
        proof {
            reveal_strlit("title");
            reveal_strlit("notes");
            reveal_strlit("due");
            assert("title"@.len() == 5 && "notes"@.len() == 5 && "due"@.len() == 3);
            assert("title"@[0] == 't' && "notes"@[0] == 'n');
            assert(forall|j: int| 0 <= j < b@.len() ==> (#[trigger] b@[j]).0@ != "title"@ || j == 0);
            if b@.len() > 1 {
                lemma_member_at(b@, 1, b@[1].0@);
            }
            if b@.len() > 2 {
                lemma_member_at(b@, 2, "due"@);
            }
            if notes is None {
                lemma_member_none(b@, "notes"@);
            }
            if due is None {
                lemma_member_none(b@, "due"@);
            }
        }
        let body = JsonValue::Object(b);
        proof {
            lemma_lookup1(body, "title");
            lemma_lookup1(body, "notes");
            lemma_lookup1(body, "due");
            lemma_lookup1(*a, "notes");
            lemma_lookup1(*a, "due");
        }
        assert(keys_of(body) =~= seq!["title"@] + (if text_at(*a, seq!["notes"]) is Some {
            seq!["notes"@]
        } else {
            Seq::empty()
        }) + (if text_at(*a, seq!["due"]) is Some {
            seq!["due"@]
        } else {
            Seq::empty()
        }));
        Planned::Send((concat(concat("https://tasks.googleapis.com/tasks/v1/lists/", list.as_str()).as_str(), "/tasks"), body))
    }

    /// The answer to the creation from its reply.
    pub fn write_result(reply: Option<&HttpReply>) -> (r: Result<String, ToolError>)
        ensures
            answers(
                owned(reply),
                r,
                "Failed to create Google Task"@,
                "Google Tasks create API failed: "@,
                |h: HttpReply| "Successfully created Task ID: "@ + text_or(json_or_null(h), seq!["id"], "unknown"@),
            ),
    {
        let h = check_reply(reply, "Failed to create Google Task", "Google Tasks create API failed: ")?;
        let null = JsonValue::Null;
        let d: &JsonValue = match &h.json {
            Some(v) => v,
            None => &null,
        };
        Ok(concat("Successfully created Task ID: ", d.text1_or("id", "unknown").as_str()))
    }
}

// ---------------------------------------------------------------------------
// Docs.
// ---------------------------------------------------------------------------

/// The text of one element of a paragraph: its text run's content.
pub open spec fn run_text(el: JsonValue) -> Seq<char> {
    match text_at(el, seq!["textRun", "content"]) {
        Some(s) => s,
        None => ""@,
    }
}

/// The text of the elements of a paragraph.
pub open spec fn runs_text(els: Seq<JsonValue>) -> Seq<char>
    decreases els.len(),
{
    if els.len() == 0 {
        ""@
    } else {
        runs_text(els.drop_last()) + run_text(els.last())
    }
}

/// The text of one structural element of a document: that of its
/// paragraph, when it is one.
pub open spec fn element_text(e: JsonValue) -> Seq<char> {
    match as_list(lookup(e, seq!["paragraph", "elements"])) {
        Some(els) => runs_text(els),
        None => ""@,
    }
}

/// The text of the structural elements of a document.
pub open spec fn elements_text(es: Seq<JsonValue>) -> Seq<char>
    decreases es.len(),
{
    if es.len() == 0 {
        ""@
    } else {
        elements_text(es.drop_last()) + element_text(es.last())
    }
}

/// The text of a document: the text runs of its paragraphs, in order.
pub open spec fn doc_text(d: JsonValue) -> Seq<char> {
    match as_list(lookup(d, seq!["body", "content"])) {
        Some(c) => elements_text(c),
        None => ""@,
    }
}

/// The URL of a document.
pub open spec fn doc_url(id: Seq<char>) -> Seq<char> {
    "https://docs.googleapis.com/v1/documents/"@ + id
}

fn element_text_of(e: &JsonValue) -> (r: String)
    ensures
        r@ == element_text(*e),
{
    let mut out = String::new();
    proof {
        reveal_strlit("");
    }
    match e.array2("paragraph", "elements") {
        Some(els) => {
            let mut i: usize = 0;
            assert(els@.take(0) =~= Seq::<JsonValue>::empty());
            while i < els.len()
                invariant
                    i <= els@.len(),
                    out@ == runs_text(els@.take(i as int)),
                decreases els@.len() - i,
            {
                proof {
                    reveal_strlit("");
                }
                assert(els@.take(i + 1).drop_last() =~= els@.take(i as int));
                assert(els@.take(i + 1).last() == els@[i as int]);
                let ghost before = out@;
                match els[i].text2("textRun", "content") {
                    Some(t) => {
                        out.append(t);
                    },
                    None => {},
                }
                assert(out@ =~= before + run_text(els@[i as int]));
                i = i + 1;
            }
            assert(els@.take(els@.len() as int) =~= els@);
        },
        None => {},
    }
    out
}

/// Reads the text of a Google Doc.
pub struct GoogleDocsReadTool {
    pub metadata: ToolMetadata,
}

impl GoogleDocsReadTool {
    /// The tool.
    pub fn new() -> (t: Self)
        ensures
            metadata_is(
                t.metadata,
                "google_docs_read"@,
                "Read Google Doc"@,
                ToolType::GoogleDocsRead,
                "Read the contents of a Google Doc."@,
                ToolCategory::Google,
            ),
    {
        GoogleDocsReadTool {
            metadata: ToolMetadata::from_parts(
                "google_docs_read",
                "Read Google Doc",
                ToolType::GoogleDocsRead,
                "Read the contents of a Google Doc.",
                ToolCategory::Google,
            ),
        }
    }

    /// The URL of the document, or the answer when none is named.
    pub fn plan(args: Option<&JsonValue>) -> (r: Planned<String>)
        ensures
            ({
                let id = text_or(call_args(args), seq!["document_id"], ""@);
                planned_as(
                    r,
                    if id.len() == 0 {
                        Err("Error: document_id is required."@)
                    } else {
                        Ok(doc_url(id))
                    },
                    |s: String| s@,
                )
            }),
    {
        let null = JsonValue::Null;
        let a: &JsonValue = match args {
            Some(a) => a,
            None => &null,
        };
        let id = a.text1_or("document_id", "");
        if crate::text::is_empty_str(id.as_str()) {
            return Planned::Answer(copy_str("Error: document_id is required."));
        }
        Planned::Send(concat("https://docs.googleapis.com/v1/documents/", id.as_str()))
    }

    /// The answer to a read from its reply: the text of the document.
    pub fn read_result(reply: Option<&HttpReply>) -> (r: Result<String, ToolError>)
        ensures
            answers(
                owned(reply),
                r,
                "Failed to read Google Doc"@,
                "Google Docs API failed: "@,
                |h: HttpReply| "Doc Content:\n\n"@ + doc_text(json_or_null(h)),
            ),
    {
        let h = check_reply(reply, "Failed to read Google Doc", "Google Docs API failed: ")?;
        let null = JsonValue::Null;
        let d: &JsonValue = match &h.json {
            Some(v) => v,
            None => &null,
        };
        let mut out = copy_str("Doc Content:\n\n");
        let ghost head = out@;
        proof {
            reveal_strlit("");
        }
        match d.array2("body", "content") {
            Some(c) => {
                let mut i: usize = 0;
                assert(c@.take(0) =~= Seq::<JsonValue>::empty());
                assert(out@ =~= head + elements_text(c@.take(0)));
                while i < c.len()
                    invariant
                        i <= c@.len(),
                        out@ == head + elements_text(c@.take(i as int)),
                    decreases c@.len() - i,
                {
                    assert(c@.take(i + 1).drop_last() =~= c@.take(i as int));
                    assert(c@.take(i + 1).last() == c@[i as int]);
                    let t = element_text_of(&c[i]);
                    out.append(t.as_str());
                    assert(out@ =~= head + elements_text(c@.take(i + 1)));
                    i = i + 1;
                }
                assert(c@.take(c@.len() as int) =~= c@);
            },
            None => {
                assert(out@ =~= head + ""@);
            },
        }
        Ok(out)
    }
}

/// What a Docs write works with: the title of a document to create, the
/// document to write to (empty until there is one), and the text.
pub struct DocsWrite {
    pub title: String,
    pub document_id: String,
    pub text: String,
}

/// The body of an update inserting `text` at the start of a document.
pub open spec fn insert_body_is(b: JsonValue, text: Seq<char>) -> bool {
    &&& keys_of(b) == seq!["requests"@]
    &&& match as_list(get(b, "requests"@)) {
        Some(l) => l.len() == 1 && insert_request_is(l[0], text),
        None => false,
    }
}

/// One request inserting `text` at index 1.
pub open spec fn insert_request_is(req: JsonValue, text: Seq<char>) -> bool {
    &&& keys_of(req) == seq!["insertText"@]
    &&& match get(req, "insertText"@) {
        Some(ins) => {
            &&& keys_of(ins) == seq!["location"@, "text"@]
            &&& as_text(get(ins, "text"@)) == Some(text)
            &&& match get(ins, "location"@) {
                Some(loc) => keys_of(loc) == seq!["index"@] && crate::json::as_nat(get(loc, "index"@))
                    == Some(1u64),
                None => false,
            }
        },
        None => false,
    }
}

fn single(k: &str, v: JsonValue) -> (r: JsonValue)
    ensures
        keys_of(r) == seq![k@],
        get(r, k@) == Some(v),
{
    let mut m: Vec<(String, JsonValue)> = Vec::new();
    m.push((copy_str(k), v));
    let r = JsonValue::Object(m);
    assert(keys_of(r) =~= seq![k@]);
    r
}

/// Creates a Google Doc or writes text into one.
pub struct GoogleDocsWriteTool {
    pub metadata: ToolMetadata,
}

impl GoogleDocsWriteTool {
    /// The tool.
    pub fn new() -> (t: Self)
        ensures
            metadata_is(
                t.metadata,
                "google_docs_write"@,
                "Write Google Doc"@,
                ToolType::GoogleDocsWrite,
                "Create a new Google Doc or insert text into an existing one."@,
                ToolCategory::Google,
            ),
    {
        GoogleDocsWriteTool {
            metadata: ToolMetadata::from_parts(
                "google_docs_write",
                "Write Google Doc",
                ToolType::GoogleDocsWrite,
                "Create a new Google Doc or insert text into an existing one.",
                ToolCategory::Google,
            ),
        }
    }

    /// What the call names (the title, "Untitled Document" by default), or
    /// the answer when it names neither text nor a document.
    pub fn plan(args: Option<&JsonValue>) -> (r: Planned<DocsWrite>)
        ensures
            ({
                let a = call_args(args);
                let id = text_or(a, seq!["document_id"], ""@);
                let text = text_or(a, seq!["text"], ""@);
                if text.len() == 0 && id.len() == 0 {
                    r matches Planned::Answer(s) && s@ == "Error: text is required."@
                } else {
                    r matches Planned::Send(w) && w.title@ == text_or(a, seq!["title"], "Untitled Document"@)
                        && w.document_id@ == id && w.text@ == text
                }
            }),
    {
        let null = JsonValue::Null;
        let a: &JsonValue = match args {
            Some(a) => a,
            None => &null,
        };
        let title = a.text1_or("title", "Untitled Document");
        let document_id = a.text1_or("document_id", "");
        let text = a.text1_or("text", "");
        if crate::text::is_empty_str(text.as_str()) && crate::text::is_empty_str(document_id.as_str()) {
            return Planned::Answer(copy_str("Error: text is required."));
        }
        Planned::Send(DocsWrite { title, document_id, text })
    }

    /// The body creating a document with `title`.
    pub fn create_body(title: &str) -> (b: JsonValue)
        ensures
            keys_of(b) == seq!["title"@],
            text_at(b, seq!["title"]) == Some(title@),
    {
        let b = single("title", JsonValue::Str(copy_str(title)));
        proof {
            lemma_lookup1(b, "title");
        }
        b
    }

    /// The document written to after the creation's reply: the id the reply
    /// names, or still none when it names none.
    pub fn created_id(reply: Option<&HttpReply>) -> (r: Result<String, ToolError>)
        ensures
            answers(
                owned(reply),
                r,
                "Failed to create Google Doc"@,
                "Google Docs create API failed: "@,
                |h: HttpReply| text_or(json_or_null(h), seq!["documentId"], ""@),
            ),
    {
        let h = check_reply(reply, "Failed to create Google Doc", "Google Docs create API failed: ")?;
        let null = JsonValue::Null;
        let d: &JsonValue = match &h.json {
            Some(v) => v,
            None => &null,
        };
        Ok(d.text1_or("documentId", ""))
    }

    /// The URL and body inserting `text` at the start of the document.
    pub fn update_request(document_id: &str, text: &str) -> (r: (String, JsonValue))
        ensures
            r.0@ == doc_url(document_id@) + ":batchUpdate"@,
            insert_body_is(r.1, text@),
    {
        let loc = single("index", JsonValue::Number(crate::json::JsonNumber::PosInt(1)));
        let mut m: Vec<(String, JsonValue)> = Vec::new();
        m.push((copy_str("location"), loc));
        m.push((copy_str("text"), JsonValue::Str(copy_str(text))));
        proof {
            reveal_strlit("location");
            reveal_strlit("text");
            assert("location"@.len() != "text"@.len());
            lemma_member_at(m@, 1, "text"@);
        }
        let ins = JsonValue::Object(m);
        assert(keys_of(ins) =~= seq!["location"@, "text"@]);
        let req = single("insertText", ins);
        let mut l: Vec<JsonValue> = Vec::new();
        l.push(req);
        let b = single("requests", JsonValue::Array(l));
        let mut u = concat("https://docs.googleapis.com/v1/documents/", document_id);
        u.append(":batchUpdate");
        (u, b)
    }

    /// The answer to the update from its reply.
    pub fn update_result(document_id: &str, reply: Option<&HttpReply>) -> (r: Result<String, ToolError>)
        ensures
            answers(
                owned(reply),
                r,
                "Failed to update Google Doc"@,
                "Google Docs update API failed: "@,
                |h: HttpReply| "Successfully wrote to Document ID: "@ + document_id@,
            ),
    {
        let _h = check_reply(reply, "Failed to update Google Doc", "Google Docs update API failed: ")?;
        Ok(concat("Successfully wrote to Document ID: ", document_id))
    }
}

} // verus!
