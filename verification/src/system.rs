//! The system-command tool: which command a call asks for, which process to
//! start for it, and how the process's outcome is reported back.
use vstd::prelude::*;
use crate::framework::{ToolCategory, ToolMetadata, ToolType, metadata_is};
use crate::json::{JsonValue, text_or};
use crate::text::{all_ws, copy_str, has_char, has_prefix, is_blank, is_ws, trim, signed_decimal};

verus! {

/// The glob `find -iname` gets for a query: globs are kept, `.ext` becomes
/// `*.ext`, anything else is wrapped in `*...*`.
pub open spec fn glob_of(q: Seq<char>) -> Seq<char> {
    if has_char(q, '*') || has_char(q, '?') || has_char(q, '[') {
        q
    } else if q.len() > 0 && q[0] == '.' {
        "*"@ + q
    } else {
        "*"@ + q + "*"@
    }
}

/// Turns a bare file name or extension into a `find -iname` glob pattern.
pub fn as_glob_pattern(query: &str) -> (r: String)
    ensures
        r@ == glob_of(query@),
{
    let v = crate::text::chars_of(query);
    let s = v.as_slice();
    if crate::text::chars_contain(s, '*') || crate::text::chars_contain(s, '?')
        || crate::text::chars_contain(s, '[') {
        copy_str(query)
    } else if v.len() > 0 && v[0] == '.' {
        let mut r = copy_str("*");
        r.append(query);
        r
    } else {
        let mut r = copy_str("*");
        r.append(query);
        r.append("*");
        r
    }
}

/// `path` with a leading `~` (alone or before `/`) replaced by the home
/// directory, when one is known.
pub open spec fn expanded(path: Seq<char>, home: Option<Seq<char>>) -> Seq<char> {
    if (path == "~"@ || has_prefix(path, "~/"@)) && home is Some {
        home->0 + path.drop_first()
    } else {
        path
    }
}

/// Expands a leading `~` or `~/...` to the home directory (`HOME`, else
/// `USERPROFILE`), given as `home`.
pub fn expand_path(path: &str, home: Option<&str>) -> (r: String)
    ensures
        r@ == expanded(path@, match home {
            Some(h) => Some(h@),
            None => None,
        }),
{
    let is_tilde = crate::text::str_eq(path, "~") || crate::text::starts_with(path, "~/");
    match home {
        Some(h) if is_tilde => {
            proof {
                reveal_strlit("~");
                reveal_strlit("~/");
            }
            let v = crate::text::chars_of(path);
            let rest = vstd::slice::slice_subrange(v.as_slice(), 1, v.len());
            let mut r = copy_str(h);
            let tail = crate::text::string_from_chars(rest);
            r.append(tail.as_str());
            assert(rest@ =~= path@.drop_first());
            r
        },
        _ => copy_str(path),
    }
}

/// How a started process ended.
pub enum CommandOutcome {
    /// The process ran to completion.
    Finished { success: bool, code: Option<i32>, stdout: String, stderr: String },
    /// The process could not be started.
    SpawnFailed(String),
    /// The 30-second limit passed first.
    TimedOut,
}

/// The report of an ordinary command.
pub open spec fn output_report(o: CommandOutcome) -> Seq<char> {
    match o {
        CommandOutcome::Finished { success, code, stdout, stderr } => if success {
            if all_ws(stdout@) {
                "Command executed successfully (no output)."@
            } else {
                stdout@
            }
        } else {
            "Error exit "@ + signed_decimal(
                match code {
                    Some(c) => c as int,
                    None => 1,
                },
            ) + ":\n"@ + stderr@
        },
        CommandOutcome::SpawnFailed(e) => "Failed to execute command: "@ + e@,
        CommandOutcome::TimedOut => "Command timed out after 30 seconds."@,
    }
}

/// Law: a command that succeeds is reported by what it printed: its whole
/// standard output when that holds anything but whitespace, else a note that
/// it printed nothing. A command that fails is reported with its exit code
/// and its error output.
pub proof fn law_successful_output_is_reported(
    success: bool,
    code: Option<i32>,
    stdout: String,
    stderr: String,
)
    ensures
        success && (exists|i: int| 0 <= i < stdout@.len() && !is_ws(#[trigger] stdout@[i])) ==> output_report(
            CommandOutcome::Finished { success, code, stdout, stderr },
        ) == stdout@,
        success && (forall|i: int| 0 <= i < stdout@.len() ==> is_ws(#[trigger] stdout@[i])) ==> output_report(
            CommandOutcome::Finished { success, code, stdout, stderr },
        ) == "Command executed successfully (no output)."@,
        !success ==> output_report(CommandOutcome::Finished { success, code, stdout, stderr }) == "Error exit "@
            + signed_decimal(
            match code {
                Some(c) => c as int,
                None => 1,
            },
        ) + ":\n"@ + stderr@,
{
}

/// The report of a `find`/`grep`/`ping` style command, whose exit status
/// does not mean failure: its output is trusted whenever there is any.
pub open spec fn matches_report(o: CommandOutcome, no_matches: Seq<char>) -> Seq<char> {
    match o {
        CommandOutcome::Finished { stdout, .. } => if !all_ws(stdout@) {
            stdout@
        } else {
            no_matches
        },
        CommandOutcome::SpawnFailed(e) => "Failed to execute command: "@ + e@,
        CommandOutcome::TimedOut => "Command timed out after 30 seconds."@,
    }
}

/// Formats the outcome of an ordinary command.
pub fn process_output(o: &CommandOutcome) -> (r: String)
    ensures
        r@ == output_report(*o),
{
    match o {
        CommandOutcome::Finished { success, code, stdout, stderr } => {
            if *success {
                if is_blank(stdout.as_str()) {
                    copy_str("Command executed successfully (no output).")
                } else {
                    stdout.clone()
                }
            } else {
                let mut r = copy_str("Error exit ");
                let c: i32 = match code {
                    Some(c) => *c,
                    None => 1,
                };
                crate::text::push_signed_decimal(&mut r, c as i64);
                r.append(":\n");
                r.append(stderr.as_str());
                r
            }
        },
        CommandOutcome::SpawnFailed(e) => {
            let mut r = copy_str("Failed to execute command: ");
            r.append(e.as_str());
            r
        },
        CommandOutcome::TimedOut => copy_str("Command timed out after 30 seconds."),
    }
}

/// Formats the outcome of a `find`/`grep`/`ping` style command.
pub fn process_matches_output(o: &CommandOutcome, no_matches_message: &str) -> (r: String)
    ensures
        r@ == matches_report(*o, no_matches_message@),
{
    match o {
        CommandOutcome::Finished { stdout, .. } => {
            if !is_blank(stdout.as_str()) {
                stdout.clone()
            } else {
                copy_str(no_matches_message)
            }
        },
        CommandOutcome::SpawnFailed(e) => {
            let mut r = copy_str("Failed to execute command: ");
            r.append(e.as_str());
            r
        },
        CommandOutcome::TimedOut => copy_str("Command timed out after 30 seconds."),
    }
}

/// The error for a path that does not exist, or nothing when it does.
pub fn check_path_exists(path: &str, path_exists: bool) -> (r: Option<String>)
    ensures
        path_exists ==> r is None,
        !path_exists ==> (r matches Some(m) && m@ == "Error: path '"@ + path@ + "' does not exist."@),
{
    if path_exists {
        None
    } else {
        let mut m = copy_str("Error: path '");
        m.append(path);
        m.append("' does not exist.");
        Some(m)
    }
}

/// For opening in an editor: the path may be new as long as its parent
/// directory path_exists.
pub fn check_path_or_parent_exists(path: &str, path_exists: bool, parent_exists: bool) -> (r: Option<
    String,
>)
    ensures
        (path_exists || parent_exists) ==> r is None,
        !(path_exists || parent_exists) ==> (r matches Some(m) && m@ == "Error: '"@ + path@
            + "' does not exist and its parent directory doesn't either."@),
{
    if path_exists || parent_exists {
        None
    } else {
        let mut m = copy_str("Error: '");
        m.append(path);
        m.append("' does not exist and its parent directory doesn't either.");
        Some(m)
    }
}

/// A process to start: the program and its arguments.
pub struct CommandRun {
    pub program: String,
    pub args: Vec<String>,
}

/// The views of a list of strings.
pub open spec fn views(v: Seq<String>) -> Seq<Seq<char>> {
    v.map_values(|s: String| s@)
}

/// A command run from a program name and its arguments.
pub fn command(program: &str, args: Vec<String>) -> (c: CommandRun)
    ensures
        c.program@ == program@,
        c.args@ == args@,
{
    CommandRun { program: copy_str(program), args }
}

/// Which command a call asked for, with what it needs.
pub enum SystemPlan {
    /// Answer directly with this text.
    Reply(String),
    /// Check that `path` path_exists, then search it for names matching `pattern`.
    SearchFile { path: String, pattern: String },
    /// Open `path` with the desktop's file manager.
    OpenFolder { path: String },
    /// Open `path` in VS Code once it or its parent is known to exist.
    OpenVsCode { path: String },
    /// Open `path` in vim inside a terminal once it or its parent path_exists.
    OpenVim { path: String },
    /// List the processes using the most CPU.
    ListTopProcesses,
    /// Check that `path` path_exists, then search its files for `query`.
    GrepSearch { path: String, query: String },
    /// Report disk and memory usage.
    SystemStatus,
    /// List listening network ports.
    NetworkPorts,
    /// Ping `host`.
    PingHost { host: String },
}

/// The system-command tool.
pub struct SystemCommandTool {
    pub metadata: ToolMetadata,
}

/// The command the arguments name (`""` when none is given).
pub open spec fn arg_command(args: Option<JsonValue>) -> Seq<char> {
    match args {
        Some(a) => text_or(a, seq!["command"], ""@),
        None => ""@,
    }
}

/// The path the arguments name (`"~"` when none is given).
pub open spec fn arg_path(args: Option<JsonValue>) -> Seq<char> {
    match args {
        Some(a) => text_or(a, seq!["path"], "~"@),
        None => "~"@,
    }
}

/// The query the arguments name (`""` when none is given).
pub open spec fn arg_query(args: Option<JsonValue>) -> Seq<char> {
    match args {
        Some(a) => text_or(a, seq!["query"], ""@),
        None => ""@,
    }
}

impl SystemCommandTool {
    /// The tool with its metadata.
    pub fn new() -> (t: Self)
        ensures
            metadata_is(
                t.metadata,
                "system_command"@,
                "System Tools"@,
                ToolType::SystemCommand,
                "Execute safe, everyday Linux system commands (e.g., search files, view processes, check system status)."@,
                ToolCategory::Utility,
            ),
    {
        SystemCommandTool {
            metadata: ToolMetadata::from_parts(
                "system_command",
                "System Tools",
                ToolType::SystemCommand,
                "Execute safe, everyday Linux system commands (e.g., search files, view processes, check system status).",
                ToolCategory::Utility,
            ),
        }
    }

    /// The tool's metadata.
    pub fn metadata(&self) -> (m: &ToolMetadata)
        ensures
            *m == self.metadata,
    {
        &self.metadata
    }

    /// Decides what a call asks for. Arguments that are not JSON count as an
    /// empty object; the path has its `~` expanded with `home`.
    pub fn plan(args: Option<&JsonValue>, home: Option<&str>) -> (p: SystemPlan)
        ensures
            ({
                let a = match args {
                    Some(a) => Some(*a),
                    None => None,
                };
                let command = arg_command(a);
                let query = arg_query(a);
                let path = expanded(
                    arg_path(a),
                    match home {
                        Some(h) => Some(h@),
                        None => None,
                    },
                );
                if command == "search_file"@ {
                    if query.len() == 0 {
                        p matches SystemPlan::Reply(m) && m@
                            == "Error: 'query' parameter is required for search_file."@
                    } else {
                        p matches SystemPlan::SearchFile { path: pp, pattern } && pp@ == path
                            && pattern@ == glob_of(query)
                    }
                } else if command == "open_folder"@ {
                    p matches SystemPlan::OpenFolder { path: pp } && pp@ == path
                } else if command == "open_vscode"@ {
                    p matches SystemPlan::OpenVsCode { path: pp } && pp@ == path
                } else if command == "open_vim"@ {
                    p matches SystemPlan::OpenVim { path: pp } && pp@ == path
                } else if command == "list_top_processes"@ {
                    p is ListTopProcesses
                } else if command == "grep_search"@ {
                    if query.len() == 0 {
                        p matches SystemPlan::Reply(m) && m@
                            == "Error: 'query' parameter is required for grep_search."@
                    } else {
                        p matches SystemPlan::GrepSearch { path: pp, query: q } && pp@ == path
                            && q@ == query
                    }
                } else if command == "system_status"@ {
                    p is SystemStatus
                } else if command == "network_ports"@ {
                    p is NetworkPorts
                } else if command == "ping_host"@ {
                    if query.len() == 0 {
                        p matches SystemPlan::Reply(m) && m@
                            == "Error: 'query' parameter (the hostname or IP to ping) is required for ping_host."@
                    } else {
                        p matches SystemPlan::PingHost { host } && host@ == query
                    }
                } else {
                    p matches SystemPlan::Reply(m) && m@ == "Unknown command: "@ + command
                }
            }),
    {
        let (command, raw_path, query) = match args {
            Some(a) => (a.text1_or("command", ""), a.text1_or("path", "~"), a.text1_or("query", "")),
            None => (copy_str(""), copy_str("~"), copy_str("")),
        };
        let path = expand_path(raw_path.as_str(), home);
        let c = command.as_str();
        let query_empty = query.as_str().unicode_len() == 0;
        if crate::text::str_eq(c, "search_file") {
            if query_empty {
                SystemPlan::Reply(copy_str("Error: 'query' parameter is required for search_file."))
            } else {
                SystemPlan::SearchFile { path, pattern: as_glob_pattern(query.as_str()) }
            }
        } else if crate::text::str_eq(c, "open_folder") {
            SystemPlan::OpenFolder { path }
        } else if crate::text::str_eq(c, "open_vscode") {
            SystemPlan::OpenVsCode { path }
        } else if crate::text::str_eq(c, "open_vim") {
            SystemPlan::OpenVim { path }
        } else if crate::text::str_eq(c, "list_top_processes") {
            SystemPlan::ListTopProcesses
        } else if crate::text::str_eq(c, "grep_search") {
            if query_empty {
                SystemPlan::Reply(copy_str("Error: 'query' parameter is required for grep_search."))
            } else {
                SystemPlan::GrepSearch { path, query }
            }
        } else if crate::text::str_eq(c, "system_status") {
            SystemPlan::SystemStatus
        } else if crate::text::str_eq(c, "network_ports") {
            SystemPlan::NetworkPorts
        } else if crate::text::str_eq(c, "ping_host") {
            if query_empty {
                SystemPlan::Reply(
                    copy_str(
                        "Error: 'query' parameter (the hostname or IP to ping) is required for ping_host.",
                    ),
                )
            } else {
                SystemPlan::PingHost { host: query }
            }
        } else {
            let mut m = copy_str("Unknown command: ");
            m.append(c);
            SystemPlan::Reply(m)
        }
    }
}

fn strings(items: &[&str]) -> (v: Vec<String>)
    ensures
        v@.len() == items@.len(),
        forall|i: int| 0 <= i < items@.len() ==> #[trigger] v@[i]@ == items@[i]@,
{
    let mut v: Vec<String> = Vec::new();
    let mut i: usize = 0;
    while i < items.len()
        invariant
            i <= items@.len(),
            v@.len() == i,
            forall|j: int| 0 <= j < i ==> #[trigger] v@[j]@ == items@[j]@,
        decreases items@.len() - i,
    {
        v.push(copy_str(items[i]));
        i = i + 1;
    }
    v
}

/// `find {path} -iname {pattern}`: a case-insensitive name search.
pub fn search_file_command(path: &str, pattern: &str) -> (c: CommandRun)
    ensures
        c.program@ == "find"@,
        views(c.args@) == seq![path@, "-iname"@, pattern@],
{
    let a = [path, "-iname", pattern];
    let args = strings(a.as_slice());
    assert(views(args@) =~= seq![path@, "-iname"@, pattern@]);
    command("find", args)
}

/// `grep -rn {query} {path}`: a recursive content search.
pub fn grep_command(query: &str, path: &str) -> (c: CommandRun)
    ensures
        c.program@ == "grep"@,
        views(c.args@) == seq!["-rn"@, query@, path@],
{
    let a = ["-rn", query, path];
    let args = strings(a.as_slice());
    assert(views(args@) =~= seq!["-rn"@, query@, path@]);
    command("grep", args)
}

/// Four probes of `host`, waiting two seconds for each reply, in the flags of
/// the platform's `ping`.
pub fn ping_command(host: &str, windows: bool) -> (c: CommandRun)
    ensures
        c.program@ == "ping"@,
        windows ==> views(c.args@) == seq!["-n"@, "4"@, "-w"@, "2000"@, host@],
        !windows ==> views(c.args@) == seq!["-c"@, "4"@, "-W"@, "2"@, host@],
{
    if windows {
        let a = ["-n", "4", "-w", "2000", host];
        let args = strings(a.as_slice());
        assert(views(args@) =~= seq!["-n"@, "4"@, "-w"@, "2000"@, host@]);
        command("ping", args)
    } else {
        let a = ["-c", "4", "-W", "2", host];
        let args = strings(a.as_slice());
        assert(views(args@) =~= seq!["-c"@, "4"@, "-W"@, "2"@, host@]);
        command("ping", args)
    }
}

/// `ps` listing every process with its memory and CPU use, busiest first.
pub fn top_processes_command() -> (c: CommandRun)
    ensures
        c.program@ == "ps"@,
        views(c.args@) == seq!["-eo"@, "pid,ppid,cmd,%mem,%cpu"@, "--sort=-%cpu"@],
{
    let a = ["-eo", "pid,ppid,cmd,%mem,%cpu", "--sort=-%cpu"];
    let args = strings(a.as_slice());
    assert(views(args@) =~= seq!["-eo"@, "pid,ppid,cmd,%mem,%cpu"@, "--sort=-%cpu"@]);
    command("ps", args)
}

/// A program run with a single argument.
pub fn single_arg_command(program: &str, arg: &str) -> (c: CommandRun)
    ensures
        c.program@ == program@,
        views(c.args@) == seq![arg@],
{
    let a = [arg];
    let args = strings(a.as_slice());
    assert(views(args@) =~= seq![arg@]);
    command(program, args)
}

/// The report of a file search.
pub fn search_file_report(pattern: &str, path: &str, o: &CommandOutcome) -> (r: String)
    ensures
        r@ == matches_report(*o, "No files matching '"@ + pattern@ + "' found under '"@ + path@ + "'."@),
{
    let mut m = copy_str("No files matching '");
    m.append(pattern);
    m.append("' found under '");
    m.append(path);
    m.append("'.");
    process_matches_output(o, m.as_str())
}

/// The report of a content search.
pub fn grep_report(query: &str, path: &str, o: &CommandOutcome) -> (r: String)
    ensures
        r@ == matches_report(*o, "No matches found for '"@ + query@ + "' under '"@ + path@ + "'."@),
{
    let mut m = copy_str("No matches found for '");
    m.append(query);
    m.append("' under '");
    m.append(path);
    m.append("'.");
    process_matches_output(o, m.as_str())
}

/// The report of a ping.
pub fn ping_report(host: &str, o: &CommandOutcome) -> (r: String)
    ensures
        r@ == matches_report(*o, "Could not resolve or reach '"@ + host@ + "'."@),
{
    let mut m = copy_str("Could not resolve or reach '");
    m.append(host);
    m.append("'.");
    process_matches_output(o, m.as_str())
}

/// The report of opening a folder with `xdg-open`.
pub fn open_folder_report(o: &CommandOutcome) -> (r: String)
    ensures
        r@ == (match *o {
            CommandOutcome::Finished { success, stderr, .. } => if success {
                "Opened successfully."@
            } else {
                "Failed to open: "@ + stderr@
            },
            CommandOutcome::SpawnFailed(e) => "Failed to execute xdg-open: "@ + e@,
            CommandOutcome::TimedOut => "Command timed out."@,
        }),
{
    match o {
        CommandOutcome::Finished { success, stderr, .. } => {
            if *success {
                copy_str("Opened successfully.")
            } else {
                let mut r = copy_str("Failed to open: ");
                r.append(stderr.as_str());
                r
            }
        },
        CommandOutcome::SpawnFailed(e) => {
            let mut r = copy_str("Failed to execute xdg-open: ");
            r.append(e.as_str());
            r
        },
        CommandOutcome::TimedOut => copy_str("Command timed out."),
    }
}

/// The report of opening a path in VS Code.
pub fn open_vscode_report(path: &str, o: &CommandOutcome) -> (r: String)
    ensures
        r@ == (match *o {
            CommandOutcome::Finished { success, stderr, .. } => if success {
                "Opened '"@ + path@ + "' in VS Code."@
            } else {
                "Failed to open in VS Code: "@ + stderr@
            },
            CommandOutcome::SpawnFailed(e) => "Failed to execute 'code' (is VS Code's CLI installed and on PATH?): "@ + e@,
            CommandOutcome::TimedOut => "Command timed out."@,
        }),
{
    match o {
        CommandOutcome::Finished { success, stderr, .. } => {
            if *success {
                let mut r = copy_str("Opened '");
                r.append(path);
                r.append("' in VS Code.");
                r
            } else {
                let mut r = copy_str("Failed to open in VS Code: ");
                r.append(stderr.as_str());
                r
            }
        },
        CommandOutcome::SpawnFailed(e) => {
            let mut r = copy_str("Failed to execute 'code' (is VS Code's CLI installed and on PATH?): ");
            r.append(e.as_str());
            r
        },
        CommandOutcome::TimedOut => copy_str("Command timed out."),
    }
}

/// The terminal emulators tried, in order, with the flag each takes before
/// the command to run.
pub open spec fn terminals() -> Seq<(Seq<char>, Seq<char>)> {
    seq![
        ("gnome-terminal"@, "--"@),
        ("konsole"@, "-e"@),
        ("xfce4-terminal"@, "-x"@),
        ("alacritty"@, "-e"@),
        ("xterm"@, "-e"@),
    ]
}

/// The number of terminal emulators tried.
pub fn terminal_count() -> (n: usize)
    ensures
        n == terminals().len(),
{
    5
}

/// The command that opens `path` in `editor` inside the `i`-th terminal.
pub fn terminal_editor_command(i: usize, editor: &str, path: &str) -> (c: CommandRun)
    requires
        i < terminals().len(),
    ensures
        c.program@ == terminals()[i as int].0,
        views(c.args@) == seq![terminals()[i as int].1, editor@, path@],
{
    let (t, f) = if i == 0 {
        ("gnome-terminal", "--")
    } else if i == 1 {
        ("konsole", "-e")
    } else if i == 2 {
        ("xfce4-terminal", "-x")
    } else if i == 3 {
        ("alacritty", "-e")
    } else {
        ("xterm", "-e")
    };
    let a = [f, editor, path];
    let args = strings(a.as_slice());
    assert(views(args@) =~= seq![f@, editor@, path@]);
    command(t, args)
}

/// After trying the `i`-th terminal: the final report when it launched the
/// editor, or nothing when the next one should be tried.
pub fn terminal_editor_step(i: usize, editor: &str, path: &str, o: &CommandOutcome) -> (r: Option<String>)
    requires
        i < terminals().len(),
    ensures
        (*o matches CommandOutcome::Finished { success, .. } && success) ==> (r matches Some(m) && m@
            == "Opened '"@ + path@ + "' in "@ + editor@ + " inside "@ + terminals()[i as int].0 + "."@),
        !(*o matches CommandOutcome::Finished { success, .. } && success) ==> r is None,
{
    match o {
        CommandOutcome::Finished { success, .. } => {
            if *success {
                let c = terminal_editor_command(i, editor, path);
                let mut m = copy_str("Opened '");
                m.append(path);
                m.append("' in ");
                m.append(editor);
                m.append(" inside ");
                m.append(c.program.as_str());
                m.append(".");
                Some(m)
            } else {
                None
            }
        },
        _ => None,
    }
}

/// The report when no terminal emulator could open the editor.
pub fn no_terminal_report(editor: &str) -> (r: String)
    ensures
        r@ == "Could not find a terminal emulator to open "@ + editor@
            + " in (tried: gnome-terminal, konsole, xfce4-terminal, alacritty, xterm)."@,
{
    let mut r = copy_str("Could not find a terminal emulator to open ");
    r.append(editor);
    r.append(" in (tried: gnome-terminal, konsole, xfce4-terminal, alacritty, xterm).");
    r
}

/// The report of the process listing: its first 16 lines.
pub fn top_processes_report(o: &CommandOutcome) -> (r: String)
    ensures
        r@ == crate::text::join(
            crate::text::lines(output_report(*o)).take(
                if crate::text::lines(output_report(*o)).len() < 16 {
                    crate::text::lines(output_report(*o)).len() as int
                } else {
                    16
                },
            ),
            "\n"@,
        ),
{
    let res = process_output(o);
    crate::text::first_lines(res.as_str(), 16)
}

/// The report of the system status: disk usage, then memory usage.
pub fn system_status_report(df: &CommandOutcome, free: &CommandOutcome) -> (r: String)
    ensures
        r@ == "--- Disk Usage ---\n"@ + output_report(*df) + "\n--- Memory Usage ---\n"@
            + output_report(*free),
{
    let mut r = copy_str("--- Disk Usage ---\n");
    let d = process_output(df);
    r.append(d.as_str());
    r.append("\n--- Memory Usage ---\n");
    let f = process_output(free);
    r.append(f.as_str());
    r
}

} // verus!
