use wcore::grep::{
    fallback_command, fallback_result, ripgrep_command, ripgrep_result, sandbox_refusal,
    GrepInput, GrepRequest, GrepStep, GrepTool, ProcessOutput, ToolCategory, MAX_OUTPUT_LINES,
};

fn argv_of(cmd: &tokio::process::Command) -> Vec<String> {
    let std_cmd = cmd.as_std();
    let mut v = vec![std_cmd.get_program().to_string_lossy().into_owned()];
    for a in std_cmd.get_args() {
        v.push(a.to_string_lossy().into_owned());
    }
    v
}

fn strings(v: &[&str]) -> Vec<String> {
    v.iter().map(|s| s.to_string()).collect()
}

fn input(pattern: Option<&str>, path: Option<&str>, glob: Option<&str>, ci: Option<bool>) -> GrepInput {
    GrepInput {
        pattern: pattern.map(String::from),
        path: path.map(String::from),
        glob: glob.map(String::from),
        case_insensitive: ci,
    }
}

fn request(pattern: &str, path: &str, glob: Option<&str>, ci: bool) -> GrepRequest {
    GrepRequest {
        pattern: pattern.to_string(),
        path: path.to_string(),
        glob: glob.map(String::from),
        case_insensitive: ci,
    }
}

fn output(code: Option<i32>, stdout: &[u8], stderr: &[u8]) -> ProcessOutput {
    ProcessOutput { code, stdout: stdout.to_vec(), stderr: stderr.to_vec() }
}

#[test]
fn missing_pattern_is_an_error_result() {
    let tool = GrepTool;
    let r = tool.request(&input(None, Some("src"), None, None)).err().unwrap();
    assert_eq!(r.content, "Missing required parameter: pattern");
    assert!(r.is_error);
}

#[test]
fn request_fills_in_defaults() {
    let tool = GrepTool;
    let req = tool.request(&input(Some("fn main"), None, None, None)).ok().unwrap();
    assert_eq!(req.pattern, "fn main");
    assert_eq!(req.path, ".");
    assert_eq!(req.glob, None);
    assert!(!req.case_insensitive);
    let req = tool
        .request(&input(Some("x"), Some("/tmp"), Some("*.rs"), Some(true)))
        .ok()
        .unwrap();
    assert_eq!(req.path, "/tmp");
    assert_eq!(req.glob.as_deref(), Some("*.rs"));
    assert!(req.case_insensitive);
}

#[test]
fn ripgrep_argv_puts_pattern_after_the_terminator() {
    let cmd = ripgrep_command(&request("--pre=evil", ".", None, false));
    assert_eq!(argv_of(&cmd), strings(&["rg", "--no-config", "-n", "--", "--pre=evil", "."]));
    assert!(!cmd.get_kill_on_drop());
}

#[test]
fn ripgrep_argv_with_glob_and_case_folding() {
    let cmd = ripgrep_command(&request("log.*Error", "src", Some("*.rs"), true));
    assert_eq!(
        argv_of(&cmd),
        strings(&["rg", "--no-config", "-n", "--glob", "*.rs", "-i", "--", "log.*Error", "src"])
    );
}

#[test]
fn grep_fallback_argv_on_unix() {
    let cmd = fallback_command(&request("-e", "dir", Some("*.rs"), false), false);
    assert_eq!(argv_of(&cmd), strings(&["grep", "-rn", "--", "-e", "dir"]));
    let cmd = fallback_command(&request("x", "dir", None, true), false);
    assert_eq!(argv_of(&cmd), strings(&["grep", "-rn", "-i", "--", "x", "dir"]));
}

#[test]
fn findstr_fallback_argv_on_windows() {
    let cmd = fallback_command(&request("x", "C:\\code\\/\\", None, true), true);
    assert_eq!(
        argv_of(&cmd),
        strings(&["findstr", "/S", "/N", "/R", "x", "C:\\code\\*", "/I"])
    );
    let cmd = fallback_command(&request("x", "src", None, false), true);
    assert_eq!(argv_of(&cmd), strings(&["findstr", "/S", "/N", "/R", "x", "src\\*"]));
    let cmd = fallback_command(&request("x", "//", None, false), true);
    assert_eq!(argv_of(&cmd), strings(&["findstr", "/S", "/N", "/R", "x", "\\*"]));
}

#[test]
fn ripgrep_exit_one_without_output_means_no_matches() {
    let r = ripgrep_result(&output(Some(1), b"", b""));
    assert_eq!(r.content, "No matches found");
    assert!(!r.is_error);
}

#[test]
fn ripgrep_failure_reports_stderr() {
    let r = ripgrep_result(&output(Some(2), b"", b"regex parse error"));
    assert_eq!(r.content, "rg error: regex parse error");
    assert!(r.is_error);
    let r = ripgrep_result(&output(None, b"partial", b"killed"));
    assert_eq!(r.content, "rg error: killed");
    assert!(r.is_error);
}

#[test]
fn ripgrep_matches_are_returned_line_by_line() {
    let r = ripgrep_result(&output(Some(0), b"a.rs:1:x\r\nb.rs:2:y\n", b""));
    assert_eq!(r.content, "a.rs:1:x\nb.rs:2:y");
    assert!(!r.is_error);
    let r = ripgrep_result(&output(Some(1), b"only\n", b""));
    assert_eq!(r.content, "only");
    assert!(!r.is_error);
}

#[test]
fn output_is_truncated_to_250_lines() {
    let text: String = (0..300).map(|i| format!("f:{}:m\n", i)).collect();
    let r = ripgrep_result(&output(Some(0), text.as_bytes(), b""));
    let lines: Vec<&str> = r.content.split('\n').collect();
    assert_eq!(lines.len(), MAX_OUTPUT_LINES);
    assert_eq!(lines[0], "f:0:m");
    assert_eq!(lines[249], "f:249:m");
}

#[test]
fn invalid_utf8_is_replaced() {
    let r = ripgrep_result(&output(Some(0), b"a\xffb\n", b""));
    assert_eq!(r.content, "a\u{fffd}b");
}

#[test]
fn empty_lines_and_lone_carriage_returns_are_kept() {
    let r = ripgrep_result(&output(Some(0), b"\n\nx\r", b""));
    assert_eq!(r.content, "\n\nx\r");
}

#[test]
fn fallback_results() {
    let r = fallback_result(&Err("No such file or directory (os error 2)".to_string()));
    assert_eq!(r.content, "grep failed: No such file or directory (os error 2)");
    assert!(r.is_error);
    let r = fallback_result(&Ok(output(Some(2), b"", b"grep: dir: no such file")));
    assert_eq!(r.content, "No matches found");
    assert!(!r.is_error);
    let r = fallback_result(&Ok(output(Some(0), b"x:1:a\nx:2:b", b"")));
    assert_eq!(r.content, "x:1:a\nx:2:b");
    assert!(!r.is_error);
}

#[test]
fn after_ripgrep_falls_back_only_when_ripgrep_could_not_run() {
    let tool = GrepTool;
    let req = request("needle", "hay", None, false);
    match tool.after_ripgrep(&req, Err("not found".to_string()), false) {
        GrepStep::Run(cmd) => {
            assert_eq!(argv_of(&cmd), strings(&["grep", "-rn", "--", "needle", "hay"]))
        }
        GrepStep::Done(_) => panic!("expected the fallback command"),
    }
    match tool.after_ripgrep(&req, Ok(output(Some(1), b"", b"")), false) {
        GrepStep::Done(r) => assert_eq!(r.content, "No matches found"),
        GrepStep::Run(_) => panic!("expected a result"),
    }
}

#[test]
fn describe_names_pattern_and_path() {
    let tool = GrepTool;
    assert_eq!(tool.describe(&input(Some("TODO"), Some("src"), None, None)), "Grep 'TODO' in src");
    assert_eq!(tool.describe(&input(None, None, None, None)), "Grep '' in .");
}

#[test]
fn tool_metadata() {
    let tool = GrepTool;
    assert_eq!(tool.name(), "Grep");
    assert!(tool.description().contains("Output is truncated to 250 lines."));
    assert_eq!(tool.max_result_size(), 20_000);
    assert!(matches!(tool.category(), ToolCategory::Info));
    assert!(tool.is_concurrency_safe(&input(None, None, None, None)));
}

#[test]
fn sandbox_refusal_quotes_the_path() {
    let r = sandbox_refusal("/etc/\"x\"", "outside sandbox root");
    assert_eq!(
        r.content,
        "Grep refused: path \"/etc/\\\"x\\\"\" rejected by sandbox: outside sandbox root"
    );
    assert!(r.is_error);
}

#[test]
fn search_path_defaults_to_current_directory() {
    assert_eq!(input(Some("x"), None, None, None).search_path(), ".");
    assert_eq!(input(Some("x"), Some("a/b"), None, None).search_path(), "a/b");
}
