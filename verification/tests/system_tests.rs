use agent_tools::json::JsonValue;
use agent_tools::system::{
    check_path_exists, check_path_or_parent_exists, expand_path, ping_command, ping_report, search_file_command,
    search_file_report, CommandOutcome, SystemCommandTool, SystemPlan,
};

fn args(pairs: &[(&str, &str)]) -> JsonValue {
    JsonValue::Object(pairs.iter().map(|(k, v)| (k.to_string(), JsonValue::Str(v.to_string()))).collect())
}

fn finished(success: bool, code: i32, stdout: &str, stderr: &str) -> CommandOutcome {
    CommandOutcome::Finished { success, code: Some(code), stdout: stdout.to_string(), stderr: stderr.to_string() }
}

/// The search a call plans: the path and the pattern.
fn planned_search(a: &JsonValue) -> (String, String) {
    match SystemCommandTool::plan(Some(a), Some("/home/tester")) {
        SystemPlan::SearchFile { path, pattern } => (path, pattern),
        _ => panic!("a file search was expected"),
    }
}

#[test]
fn search_file_finds_match_with_bare_non_glob_query() {
    let (path, pattern) = planned_search(&args(&[("command", "search_file"), ("path", "/tmp/keys"), ("query", "jks")]));
    assert_eq!(path, "/tmp/keys");
    assert_eq!(pattern, "*jks*");
    let run = search_file_command(&path, &pattern);
    assert_eq!(run.program, "find");
    assert_eq!(run.args, vec!["/tmp/keys".to_string(), "-iname".to_string(), "*jks*".to_string()]);
    let result = search_file_report(&pattern, &path, &finished(true, 0, "/tmp/keys/spaceghost.jks\n", ""));
    assert!(result.contains("spaceghost.jks"), "expected match for bare 'jks' query, got: {}", result);
}

#[test]
fn search_file_returns_matches_even_when_find_hits_a_permission_denied_subdir() {
    let (path, pattern) =
        planned_search(&args(&[("command", "search_file"), ("path", "/tmp/keys"), ("query", "*.jks")]));
    assert_eq!(pattern, "*.jks");
    let outcome = finished(false, 1, "/tmp/keys/spaceghost.jks\n", "find: '/tmp/keys/locked': Permission denied\n");
    let result = search_file_report(&pattern, &path, &outcome);
    assert!(result.contains("spaceghost.jks"), "{}", result);
}

#[test]
fn search_file_reports_missing_path_clearly() {
    let (path, _) =
        planned_search(&args(&[("command", "search_file"), ("path", "/this/path/does/not/exist"), ("query", "*.jks")]));
    let result = check_path_exists(&path, false).expect("a missing path is reported");
    assert!(result.contains("does not exist"));
    assert!(check_path_exists(&path, true).is_none());
}

#[test]
fn ping_host_reaches_loopback() {
    let host = match SystemCommandTool::plan(Some(&args(&[("command", "ping_host"), ("query", "127.0.0.1")])), None) {
        SystemPlan::PingHost { host } => host,
        _ => panic!("a ping was expected"),
    };
    let run = ping_command(&host, false);
    assert_eq!(run.program, "ping");
    assert_eq!(run.args.last().map(|s| s.as_str()), Some("127.0.0.1"));
    let outcome = finished(true, 0, "PING 127.0.0.1 (127.0.0.1) 56(84) bytes of data.\n4 packets transmitted\n", "");
    let result = ping_report(&host, &outcome);
    assert!(result.contains("127.0.0.1"), "expected ping output for loopback, got: {}", result);
}

#[test]
fn ping_host_requires_query() {
    match SystemCommandTool::plan(Some(&args(&[("command", "ping_host")])), None) {
        SystemPlan::Reply(text) => assert!(text.contains("'query' parameter")),
        _ => panic!("the call must be answered directly"),
    }
}

#[test]
fn expand_path_resolves_tilde_using_home_env_var() {
    let home = "/home/tester";
    assert_eq!(expand_path("~", Some(home)), home);
    assert_eq!(expand_path("~/Git/androStore", Some(home)), format!("{}/Git/androStore", home));
    assert_eq!(expand_path("/tmp/foo", Some(home)), "/tmp/foo");
}

#[test]
fn check_path_or_parent_exists_allows_new_files_but_not_bad_directories() {
    assert!(check_path_or_parent_exists("/tmp/d/existing.txt", true, true).is_none());
    assert!(check_path_or_parent_exists("/tmp/d/new_notes.txt", false, true).is_none());
    assert!(check_path_or_parent_exists("/tmp/d/no_such_dir/file.txt", false, false).is_some());
}

#[test]
fn an_unknown_command_is_answered_by_name() {
    match SystemCommandTool::plan(Some(&args(&[("command", "reboot")])), None) {
        SystemPlan::Reply(text) => assert_eq!(text, "Unknown command: reboot"),
        _ => panic!("the call must be answered directly"),
    }
    match SystemCommandTool::plan(None, None) {
        SystemPlan::Reply(text) => assert_eq!(text, "Unknown command: "),
        _ => panic!("the call must be answered directly"),
    }
}

#[test]
fn executing_it_directly_is_an_error_because_the_loop_must_intercept_it() {
    let tool = agent_tools::ask_human::AskHumanTool::new();
    let error = match tool.execute() {
        Ok(_) => panic!("Running this tool for real must never succeed"),
        Err(e) => e.to_string(),
    };
    assert_eq!(error, "This tool requires human input and should be intercepted by the streaming loop.");
}
