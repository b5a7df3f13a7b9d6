//! The `Grep` tool: searches file contents with ripgrep, falling back to
//! `grep` (or `findstr` on Windows) when ripgrep cannot be started.
//!
//! What is decided here: which parameters the request carries, the exact argv
//! of each search command, and how each command's output becomes the tool's
//! result. Starting the commands and awaiting them is left to the caller.

use vstd::prelude::*;
use vstd::utf8::{decode_utf8, valid_utf8};
use tokio::process::Command;
use crate::command::{
    command_arg, command_argv, command_inherits_defaults, command_kills_on_drop, command_new,
    nul_free,
};
use crate::text::{chars_of, first_lines, first_lines_joined, lemma_first_lines_within_cap, lemma_text_lines_at_most_len, text_lines,
    lemma_first_lines_keeps_up_to_cap, join_lines, count_char, push_char, push_chars, string_of_chars};

verus! {

/// The most output lines a search result keeps.
pub const MAX_OUTPUT_LINES: usize = 250;

/// The result of running a tool: its text and whether it reports an error.
pub struct ToolResult {
    pub content: String,
    pub is_error: bool,
}

impl View for ToolResult {
    type V = (Seq<char>, bool);

    open spec fn view(&self) -> (Seq<char>, bool) {
        (self.content@, self.is_error)
    }
}

/// The category a tool is listed under.
pub enum ToolCategory {
    Info,
}

/// The grep tool.
pub struct GrepTool;

/// The tool's input parameters, each as it was found in the request (absent,
/// or not of the expected JSON type, is `None`).
pub struct GrepInput {
    pub pattern: Option<String>,
    pub path: Option<String>,
    pub glob: Option<String>,
    pub case_insensitive: Option<bool>,
}

/// A search request with its defaults filled in.
pub struct GrepRequest {
    pub pattern: String,
    pub path: String,
    pub glob: Option<String>,
    pub case_insensitive: bool,
}

/// What a finished child process handed back.
pub struct ProcessOutput {
    /// The exit code; `None` when the process was ended by a signal. The
    /// process succeeded exactly when this is `Some(0)`.
    pub code: Option<i32>,
    pub stdout: Vec<u8>,
    pub stderr: Vec<u8>,
}

/// What to do after ripgrep was tried: report a result, or run a fallback command.
pub enum GrepStep {
    Done(ToolResult),
    Run(Command),
}

/// What `String::from_utf8_lossy` makes of a byte string.
pub uninterp spec fn lossy_utf8(bytes: Seq<u8>) -> Seq<char>;

/// The `{:?}` rendering of a string slice.
pub uninterp spec fn debug_rendering(s: Seq<char>) -> Seq<char>;

/// `String::from_utf8_lossy(bytes).into_owned()`: decodes `bytes`, putting
/// U+FFFD for each invalid sequence. Its documentation says valid UTF-8 comes
/// back unchanged (so no bytes give the empty text) and every invalid sequence
/// becomes a character (so some bytes give some text); what invalid sequences
/// become is left to the name.
#[verifier::external_body]
fn utf8_lossy(bytes: &[u8]) -> (res: String)
    ensures
        res@ == lossy_utf8(bytes@),
        valid_utf8(bytes@) ==> res@ == decode_utf8(bytes@),
        res@.len() == 0 <==> bytes@.len() == 0,
{
    String::from_utf8_lossy(bytes).into_owned()
}

/// `format!("{:?}", s)`: the quoted, escaped rendering of `s`, left to the name.
#[verifier::external_body]
fn debug_str(s: &str) -> (res: String)
    ensures
        res@ == debug_rendering(s@),
{
    format!("{:?}", s)
}

/// The view of an optional string.
pub open spec fn opt_view(v: Option<String>) -> Option<Seq<char>> {
    match v {
        Some(s) => Some(s@),
        None => None,
    }
}

/// The request's pattern, path and glob hold no NUL.
pub open spec fn request_nul_free(req: GrepRequest) -> bool {
    &&& nul_free(req.pattern@)
    &&& nul_free(req.path@)
    &&& match req.glob {
        Some(g) => nul_free(g@),
        None => true,
    }
}

/// The texts of the search programs and flags hold no NUL.
proof fn lemma_search_words_nul_free()
    ensures
        nul_free("rg"@),
        nul_free("--no-config"@),
        nul_free("-n"@),
        nul_free("--glob"@),
        nul_free("-i"@),
        nul_free("--"@),
        nul_free("findstr"@),
        nul_free("/S"@),
        nul_free("/N"@),
        nul_free("/R"@),
        nul_free("/I"@),
        nul_free("grep"@),
        nul_free("-rn"@),
{
    reveal_strlit("rg");
    reveal_strlit("--no-config");
    reveal_strlit("-n");
    reveal_strlit("--glob");
    reveal_strlit("-i");
    reveal_strlit("--");
    reveal_strlit("findstr");
    reveal_strlit("/S");
    reveal_strlit("/N");
    reveal_strlit("/R");
    reveal_strlit("/I");
    reveal_strlit("grep");
    reveal_strlit("-rn");
}

/// The default of an optional text parameter.
pub open spec fn text_or(v: Option<String>, default: Seq<char>) -> Seq<char> {
    match v {
        Some(s) => s@,
        None => default,
    }
}

/// The argv of a ripgrep search: no config file (so no flags can be injected
/// through one), line numbers, the optional glob filter and case folding, then
/// `--`, so that the pattern is never read as a flag, the pattern and the path.
pub open spec fn ripgrep_argv(
    pattern: Seq<char>,
    path: Seq<char>,
    glob: Option<Seq<char>>,
    case_insensitive: bool,
) -> Seq<Seq<char>> {
    let head = seq!["rg"@, "--no-config"@, "-n"@];
    let with_glob = match glob {
        Some(g) => head + seq!["--glob"@, g],
        None => head,
    };
    let with_case = if case_insensitive {
        with_glob.push("-i"@)
    } else {
        with_glob
    };
    with_case + seq!["--"@, pattern, path]
}

/// The path with every trailing `\` and `/` removed.
pub open spec fn trim_trailing_separators(p: Seq<char>) -> Seq<char>
    decreases p.len(),
{
    if p.len() > 0 && (p.last() == '\\' || p.last() == '/') {
        trim_trailing_separators(p.drop_last())
    } else {
        p
    }
}

/// The argv of the fallback search. On Windows: `findstr /S /N /R <pattern>
/// <path>\*`, then `/I` when case-insensitive. Elsewhere: `grep -rn`, `-i` when
/// case-insensitive, then `--`, the pattern and the path.
pub open spec fn fallback_argv(
    pattern: Seq<char>,
    path: Seq<char>,
    case_insensitive: bool,
    windows: bool,
) -> Seq<Seq<char>> {
    if windows {
        let base = seq![
            "findstr"@,
            "/S"@,
            "/N"@,
            "/R"@,
            pattern,
            trim_trailing_separators(path) + seq!['\\', '*'],
        ];
        if case_insensitive {
            base.push("/I"@)
        } else {
            base
        }
    } else {
        let head = if case_insensitive {
            seq!["grep"@, "-rn"@, "-i"@]
        } else {
            seq!["grep"@, "-rn"@]
        };
        head + seq!["--"@, pattern, path]
    }
}

/// The result text for a search whose output holds no line.
pub open spec fn no_matches() -> (Seq<char>, bool) {
    ("No matches found"@, false)
}

/// How ripgrep's exit is reported: exit code 1 with no output means no
/// matches; any other failure (an exit code other than 0 and 1, or an end by a
/// signal) is an error carrying stderr; otherwise the first lines of stdout.
pub open spec fn ripgrep_report(code: Option<i32>, stdout: Seq<char>, stderr: Seq<char>) -> (
    Seq<char>,
    bool,
) {
    if code == Some(1i32) && stdout.len() == 0 {
        no_matches()
    } else if code != Some(0i32) && code != Some(1i32) {
        ("rg error: "@ + stderr, true)
    } else {
        (first_lines(stdout, MAX_OUTPUT_LINES as nat), false)
    }
}

/// How the fallback search is reported: an error when it could not be run,
/// no matches when it printed nothing, otherwise the first lines of stdout.
pub open spec fn fallback_report(outcome: Result<Seq<char>, Seq<char>>) -> (Seq<char>, bool) {
    match outcome {
        Ok(stdout) => if stdout.len() == 0 {
            no_matches()
        } else {
            (first_lines(stdout, MAX_OUTPUT_LINES as nat), false)
        },
        Err(e) => ("grep failed: "@ + e, true),
    }
}

/// A string holding `s` followed by `t`.
fn concat(s: &str, t: &str) -> (res: String)
    ensures
        res@ == s@ + t@,
{
    let mut r = s.to_owned();
    r.append(t);
    r
}

/// A tool result.
fn tool_result(content: String, is_error: bool) -> (res: ToolResult)
    ensures
        res@ == (content@, is_error),
{
    ToolResult { content, is_error }
}

impl GrepInput {
    /// The directory to search: the `path` parameter, or `.`.
    pub fn search_path(&self) -> (res: String)
        ensures
            res@ == text_or(self.path, "."@),
    {
        match &self.path {
            Some(p) => p.clone(),
            None => ".".to_owned(),
        }
    }
}

impl GrepTool {
    /// The tool's name.
    pub fn name(&self) -> (res: &'static str)
        ensures
            res@ == "Grep"@,
    {
        "Grep"
    }

    /// The tool's description, as shown to the model.
    pub fn description(&self) -> (res: &'static str)
        ensures
            res@ == "Searches file contents using regex patterns (powered by ripgrep).\n\nIMPORTANT: ALWAYS use this Grep tool for content search. NEVER run grep or rg as a Bash command.\n\n- Supports full regex syntax (e.g., \"log.*Error\", \"fn\\\\s+\\\\w+\").\n- Use the glob parameter to filter by file pattern (e.g., \"*.rs\").\n- Output is truncated to 250 lines.\n- Set case_insensitive to true for case-insensitive search."@,
    {
        "Searches file contents using regex patterns (powered by ripgrep).\n\nIMPORTANT: ALWAYS use this Grep tool for content search. NEVER run grep or rg as a Bash command.\n\n- Supports full regex syntax (e.g., \"log.*Error\", \"fn\\\\s+\\\\w+\").\n- Use the glob parameter to filter by file pattern (e.g., \"*.rs\").\n- Output is truncated to 250 lines.\n- Set case_insensitive to true for case-insensitive search."
    }

    /// Searches only read files, so concurrent runs are safe, whatever the input.
    pub fn is_concurrency_safe(&self, _input: &GrepInput) -> (res: bool)
        ensures
            res,
    {
        true
    }

    /// The largest result, in bytes, the caller should keep.
    pub fn max_result_size(&self) -> (res: usize)
        ensures
            res == 20000,
    {
        20_000
    }

    /// The tool's category.
    pub fn category(&self) -> (res: ToolCategory)
        ensures
            res == ToolCategory::Info,
    {
        ToolCategory::Info
    }

    /// A one-line description of a call: `Grep '<pattern>' in <path>`, with an
    /// empty pattern and `.` when they are absent.
    pub fn describe(&self, input: &GrepInput) -> (res: String)
        ensures
            res@ == "Grep '"@ + text_or(input.pattern, seq![]) + "' in "@ + text_or(
                input.path,
                "."@,
            ),
    {
        let mut r = "Grep '".to_owned();
        let pattern = match &input.pattern {
            Some(p) => chars_of(p.as_str()),
            None => Vec::new(),
        };
        push_chars(&mut r, &pattern, pattern.len());
        let mid = chars_of("' in ");
        push_chars(&mut r, &mid, mid.len());
        let path = chars_of(input.search_path().as_str());
        push_chars(&mut r, &path, path.len());
        proof {
            assert(pattern@.take(pattern@.len() as int) =~= pattern@);
            assert(mid@.take(mid@.len() as int) =~= mid@);
            assert(path@.take(path@.len() as int) =~= path@);
        }
        r
    }

    /// The request the input describes: `Err` with an error result exactly when
    /// `pattern` is absent; otherwise the path defaults to `.` and case folding
    /// to off.
    pub fn request(&self, input: &GrepInput) -> (res: Result<GrepRequest, ToolResult>)
        ensures
            input.pattern is None <==> res is Err,
            res matches Err(e) ==> e@ == ("Missing required parameter: pattern"@, true),
            res matches Ok(req) ==> {
                &&& Some(req.pattern) == input.pattern
                &&& req.path@ == text_or(input.path, "."@)
                &&& req.glob == input.glob
                &&& req.case_insensitive == match input.case_insensitive {
                    Some(b) => b,
                    None => false,
                }
            },
    {
        match &input.pattern {
            None => Err(tool_result("Missing required parameter: pattern".to_owned(), true)),
            Some(p) => {
                let case_insensitive = match input.case_insensitive {
                    Some(b) => b,
                    None => false,
                };
                Ok(
                    GrepRequest {
                        pattern: p.clone(),
                        path: input.search_path(),
                        glob: input.glob.clone(),
                        case_insensitive,
                    },
                )
            },
        }
    }

    /// What to do once ripgrep has been tried: its output is reported; if it
    /// could not be run (`Err`, with the error's message), the fallback search
    /// is to be run instead.
    pub fn after_ripgrep(
        &self,
        req: &GrepRequest,
        outcome: Result<ProcessOutput, String>,
        windows: bool,
    ) -> (res: GrepStep)
        ensures
            match (outcome, res) {
                (Ok(out), GrepStep::Done(r)) => r@ == ripgrep_report(
                    out.code,
                    lossy_utf8(out.stdout@),
                    lossy_utf8(out.stderr@),
                ),
                (Err(_), GrepStep::Run(cmd)) => {
                    &&& nul_free(req.pattern@) && nul_free(req.path@) ==> command_argv(cmd)
                        == fallback_argv(
                        req.pattern@,
                        req.path@,
                        req.case_insensitive,
                        windows,
                    )
                    &&& !command_kills_on_drop(cmd)
                    &&& command_inherits_defaults(cmd)
                },
                _ => false,
            },
    {
        match outcome {
            Ok(out) => GrepStep::Done(ripgrep_result(&out)),
            Err(_) => GrepStep::Run(fallback_command(req, windows)),
        }
    }
}

/// In every ripgrep command the first argument switches off config files and
/// the pattern and path come last, right after the `--` that ends option
/// parsing, so a pattern such as `--pre=<cmd>` is searched for, never obeyed.
pub proof fn lemma_ripgrep_pattern_is_never_a_flag(
    pattern: Seq<char>,
    path: Seq<char>,
    glob: Option<Seq<char>>,
    case_insensitive: bool,
)
    ensures
        ({
            let a = ripgrep_argv(pattern, path, glob, case_insensitive);
            &&& a.len() >= 6
            &&& a[0] == "rg"@
            &&& a[1] == "--no-config"@
            &&& a[a.len() - 3] == "--"@
            &&& a[a.len() - 2] == pattern
            &&& a[a.len() - 1] == path
        }),
{
}

/// Outside Windows, the fallback `grep` command likewise ends with `--`, the
/// pattern and the path, so a pattern beginning with `-` is never a flag.
pub proof fn lemma_fallback_pattern_is_never_a_flag(
    pattern: Seq<char>,
    path: Seq<char>,
    case_insensitive: bool,
)
    ensures
        ({
            let a = fallback_argv(pattern, path, case_insensitive, false);
            &&& a.len() >= 5
            &&& a[0] == "grep"@
            &&& a[a.len() - 3] == "--"@
            &&& a[a.len() - 2] == pattern
            &&& a[a.len() - 1] == path
        }),
{
}

/// "Output is truncated to 250 lines": every non-error result of either search
/// reads back as at most that many lines.
pub proof fn lemma_search_output_within_line_cap(
    code: Option<i32>,
    stdout: Seq<char>,
    stderr: Seq<char>,
)
    ensures
        !ripgrep_report(code, stdout, stderr).1 ==> text_lines(
            ripgrep_report(code, stdout, stderr).0,
        ).len() <= MAX_OUTPUT_LINES,
        text_lines(fallback_report(Ok(stdout)).0).len() <= MAX_OUTPUT_LINES,
{
    reveal_strlit("No matches found");
    lemma_text_lines_at_most_len("No matches found"@);
    lemma_first_lines_within_cap(stdout, MAX_OUTPUT_LINES as nat);
}

/// A search that ran keeps every line of its output up to the cap: with at
/// most 250 lines all of them come back; with more, exactly 250 do (249 line
/// breaks), the first ones.
pub proof fn lemma_search_output_keeps_lines_up_to_cap(
    code: Option<i32>,
    stdout: Seq<char>,
    stderr: Seq<char>,
)
    ensures
        stdout.len() > 0 && text_lines(stdout).len() <= MAX_OUTPUT_LINES ==> fallback_report(
            Ok(stdout),
        ) == (join_lines(text_lines(stdout)), false),
        stdout.len() > 0 && text_lines(stdout).len() > MAX_OUTPUT_LINES ==> {
            &&& fallback_report(Ok(stdout)) == (
                join_lines(text_lines(stdout).take(MAX_OUTPUT_LINES as int)),
                false,
            )
            &&& count_char(fallback_report(Ok(stdout)).0, '\n') == MAX_OUTPUT_LINES - 1
        },
        (code == Some(0i32) || (code == Some(1i32) && stdout.len() > 0)) && text_lines(stdout).len()
            <= MAX_OUTPUT_LINES ==> ripgrep_report(code, stdout, stderr) == (
            join_lines(text_lines(stdout)),
            false,
        ),
        (code == Some(0i32) || code == Some(1i32)) && text_lines(stdout).len() > MAX_OUTPUT_LINES
            ==> {
            &&& ripgrep_report(code, stdout, stderr) == (
                join_lines(text_lines(stdout).take(MAX_OUTPUT_LINES as int)),
                false,
            )
            &&& count_char(ripgrep_report(code, stdout, stderr).0, '\n') == MAX_OUTPUT_LINES - 1
        },
{
    lemma_first_lines_keeps_up_to_cap(stdout, MAX_OUTPUT_LINES as nat);
    if text_lines(stdout).len() > MAX_OUTPUT_LINES {
        lemma_text_lines_at_most_len(stdout);
    }
}

/// A ripgrep run that ended with any exit other than 0 or 1 (exit 2 and up,
/// or a signal) is an error carrying stderr, whatever it printed to stdout;
/// exits 0 and 1 are never errors, and exit 1 with no output is "No matches
/// found".
pub proof fn lemma_ripgrep_failure_is_an_error(
    code: Option<i32>,
    stdout: Seq<char>,
    stderr: Seq<char>,
)
    ensures
        code != Some(0i32) && code != Some(1i32) ==> ripgrep_report(code, stdout, stderr) == (
            "rg error: "@ + stderr,
            true,
        ),
        code == Some(0i32) || code == Some(1i32) ==> !ripgrep_report(code, stdout, stderr).1,
        code == Some(1i32) && stdout.len() == 0 ==> ripgrep_report(code, stdout, stderr).0
            == "No matches found"@,
{
}

/// The ripgrep command asks for case folding exactly when the request does,
/// whatever the glob: `-i` is then the last argument before `--`, and the
/// argv has one argument more than without it. A glob adds `--glob <g>` right
/// after `-n`.
pub proof fn lemma_ripgrep_case_flag_follows_request(
    pattern: Seq<char>,
    path: Seq<char>,
    glob: Option<Seq<char>>,
    case_insensitive: bool,
)
    ensures
        ({
            let a = ripgrep_argv(pattern, path, glob, case_insensitive);
            &&& a.len() == 6 + (if glob is Some {
                2int
            } else {
                0int
            }) + (if case_insensitive {
                1int
            } else {
                0int
            })
            &&& case_insensitive ==> a[a.len() - 4] == "-i"@
            &&& glob is None ==> (a[a.len() - 4] == "-i"@ <==> case_insensitive)
            &&& glob matches Some(g) ==> a[3] == "--glob"@ && a[4] == g
            &&& a.subrange(0, 3) == seq!["rg"@, "--no-config"@, "-n"@]
        }),
{
    reveal_strlit("-n");
    reveal_strlit("-i");
    let a = ripgrep_argv(pattern, path, glob, case_insensitive);
    assert(a.subrange(0, 3) =~= seq!["rg"@, "--no-config"@, "-n"@]);
    if !case_insensitive && glob is None {
        assert(a[a.len() - 4] == "-n"@);
        assert("-n"@[1] != "-i"@[1]);
    }
}

/// The findstr target keeps the path up to its trailing separators: the path
/// is the kept part followed only by `\` and `/` characters, and the kept
/// part is empty or ends in neither, so a path such as `.` is kept whole.
pub proof fn lemma_trim_removes_only_trailing_separators(p: Seq<char>)
    ensures
        ({
            let t = trim_trailing_separators(p);
            &&& t.len() <= p.len()
            &&& p.subrange(0, t.len() as int) == t
            &&& forall|i: int| t.len() <= i < p.len() ==> (p[i] == '\\' || p[i] == '/')
            &&& t.len() == 0 || (t.last() != '\\' && t.last() != '/')
        }),
    decreases p.len(),
{
    if p.len() > 0 && (p.last() == '\\' || p.last() == '/') {
        lemma_trim_removes_only_trailing_separators(p.drop_last());
        let t = trim_trailing_separators(p);
        assert(p.drop_last().subrange(0, t.len() as int) =~= p.subrange(0, t.len() as int));
        assert forall|i: int| t.len() <= i < p.len() implies (p[i] == '\\' || p[i] == '/') by {
            if i < p.len() - 1 {
                assert(p.drop_last()[i] == p[i]);
            }
        }
    } else {
        assert(p.subrange(0, p.len() as int) =~= p);
    }
}

/// The ripgrep command for a request, unstarted, with nothing else
/// configured. Its argv is exact when the request's texts are NUL-free.
pub fn ripgrep_command(req: &GrepRequest) -> (cmd: Command)
    ensures
        request_nul_free(*req) ==> command_argv(cmd) == ripgrep_argv(
            req.pattern@,
            req.path@,
            opt_view(req.glob),
            req.case_insensitive,
        ),
        !command_kills_on_drop(cmd),
        command_inherits_defaults(cmd),
{
    let mut cmd = command_new("rg");
    command_arg(&mut cmd, "--no-config");
    command_arg(&mut cmd, "-n");
    match &req.glob {
        Some(g) => {
            command_arg(&mut cmd, "--glob");
            command_arg(&mut cmd, g.as_str());
        },
        None => {},
    }
    if req.case_insensitive {
        command_arg(&mut cmd, "-i");
    }
    command_arg(&mut cmd, "--");
    command_arg(&mut cmd, req.pattern.as_str());
    command_arg(&mut cmd, req.path.as_str());
    proof {
        lemma_search_words_nul_free();
        assert(request_nul_free(*req) ==> command_argv(cmd) =~= ripgrep_argv(
            req.pattern@,
            req.path@,
            opt_view(req.glob),
            req.case_insensitive,
        ));
    }
    cmd
}

/// The path with its trailing `\` and `/` removed, then `\*` appended.
fn findstr_target(path: &str) -> (res: String)
    ensures
        res@ == trim_trailing_separators(path@) + seq!['\\', '*'],
        nul_free(path@) ==> nul_free(res@),
{
    let chars = chars_of(path);
    let mut end = chars.len();
    proof {
        assert(chars@.take(end as int) =~= chars@);
    }
    while end > 0 && (chars[end - 1] == '\\' || chars[end - 1] == '/')
        invariant
            end <= chars@.len(),
            trim_trailing_separators(chars@.take(end as int)) == trim_trailing_separators(chars@),
        decreases end,
    {
        proof {
            assert(chars@.take(end as int).drop_last() =~= chars@.take(end - 1));
        }
        end = end - 1;
    }
    proof {
        let t = chars@.take(end as int);
        assert(trim_trailing_separators(t) == t);
    }
    let mut r = String::new();
    push_chars(&mut r, &chars, end);
    push_char(&mut r, '\\');
    push_char(&mut r, '*');
    r
}

/// The fallback command for a request, unstarted, with nothing else
/// configured: `findstr` on Windows, `grep` elsewhere. Its argv is exact when
/// the pattern and path are NUL-free.
pub fn fallback_command(req: &GrepRequest, windows: bool) -> (cmd: Command)
    ensures
        nul_free(req.pattern@) && nul_free(req.path@) ==> command_argv(cmd) == fallback_argv(
            req.pattern@,
            req.path@,
            req.case_insensitive,
            windows,
        ),
        !command_kills_on_drop(cmd),
        command_inherits_defaults(cmd),
{
    if windows {
        let mut c = command_new("findstr");
        command_arg(&mut c, "/S");
        command_arg(&mut c, "/N");
        command_arg(&mut c, "/R");
        command_arg(&mut c, req.pattern.as_str());
        let target = findstr_target(req.path.as_str());
        command_arg(&mut c, target.as_str());
        if req.case_insensitive {
            command_arg(&mut c, "/I");
        }
        proof {
            lemma_search_words_nul_free();
            assert(nul_free(req.pattern@) && nul_free(req.path@) ==> command_argv(c)
                =~= fallback_argv(
                req.pattern@,
                req.path@,
                req.case_insensitive,
                windows,
            ));
        }
        c
    } else {
        let mut c = command_new("grep");
        command_arg(&mut c, "-rn");
        if req.case_insensitive {
            command_arg(&mut c, "-i");
        }
        command_arg(&mut c, "--");
        command_arg(&mut c, req.pattern.as_str());
        command_arg(&mut c, req.path.as_str());
        proof {
            lemma_search_words_nul_free();
            assert(nul_free(req.pattern@) && nul_free(req.path@) ==> command_argv(c)
                =~= fallback_argv(
                req.pattern@,
                req.path@,
                req.case_insensitive,
                windows,
            ));
        }
        c
    }
}

/// The tool result of a finished ripgrep run.
pub fn ripgrep_result(out: &ProcessOutput) -> (res: ToolResult)
    ensures
        res@ == ripgrep_report(out.code, lossy_utf8(out.stdout@), lossy_utf8(out.stderr@)),
        valid_utf8(out.stdout@) && valid_utf8(out.stderr@) ==> res@ == ripgrep_report(
            out.code,
            decode_utf8(out.stdout@),
            decode_utf8(out.stderr@),
        ),
        out.code == Some(1i32) && out.stdout@.len() == 0 ==> res@ == no_matches(),
        out.code == Some(0i32) && out.stdout@.len() == 0 ==> res@ == (Seq::<char>::empty(), false),
        out.stdout@.len() == 0 <==> lossy_utf8(out.stdout@).len() == 0,
        out.stderr@.len() == 0 <==> lossy_utf8(out.stderr@).len() == 0,
        valid_utf8(out.stdout@) ==> lossy_utf8(out.stdout@) == decode_utf8(out.stdout@),
        valid_utf8(out.stderr@) ==> lossy_utf8(out.stderr@) == decode_utf8(out.stderr@),
{
    let stdout = utf8_lossy(out.stdout.as_slice());
    let stderr = utf8_lossy(out.stderr.as_slice());
    let (exited_zero, exited_one) = match out.code {
        Some(c) => (c == 0, c == 1),
        None => (false, false),
    };
    if exited_one && stdout.as_str().is_empty() {
        return tool_result("No matches found".to_owned(), false);
    }
    if !exited_zero && !exited_one {
        return tool_result(concat("rg error: ", stderr.as_str()), true);
    }
    tool_result(first_lines_joined(stdout.as_str(), MAX_OUTPUT_LINES), false)
}

/// The tool result of the fallback search: `Ok` with its output, or `Err`
/// with the message of the error that kept it from running.
pub fn fallback_result(outcome: &Result<ProcessOutput, String>) -> (res: ToolResult)
    ensures
        res@ == fallback_report(
            match outcome {
                Ok(out) => Ok(lossy_utf8(out.stdout@)),
                Err(e) => Err(e@),
            },
        ),
        outcome matches Ok(out) ==> {
            &&& out.stdout@.len() == 0 ==> res@ == no_matches()
            &&& out.stdout@.len() == 0 <==> lossy_utf8(out.stdout@).len() == 0
            &&& valid_utf8(out.stdout@) ==> lossy_utf8(out.stdout@) == decode_utf8(out.stdout@)
        },
{
    match outcome {
        Ok(out) => {
            let stdout = utf8_lossy(out.stdout.as_slice());
            if stdout.as_str().is_empty() {
                tool_result("No matches found".to_owned(), false)
            } else {
                tool_result(first_lines_joined(stdout.as_str(), MAX_OUTPUT_LINES), false)
            }
        },
        Err(e) => tool_result(concat("grep failed: ", e.as_str()), true),
    }
}

/// The result when the sandbox rejects the search path: an error naming the
/// path (in `{:?}` form) and the sandbox's reason.
pub fn sandbox_refusal(path_arg: &str, reason: &str) -> (res: ToolResult)
    ensures
        res@ == (
            "Grep refused: path "@ + debug_rendering(path_arg@) + " rejected by sandbox: "@
                + reason@,
            true,
        ),
{
    let quoted = debug_str(path_arg);
    let head = concat("Grep refused: path ", quoted.as_str());
    let head = concat(head.as_str(), " rejected by sandbox: ");
    let content = concat(head.as_str(), reason);
    tool_result(content, true)
}

} // verus!
