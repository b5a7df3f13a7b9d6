//! Cross-platform shell / process helpers.
//!
//! Argv mode ([`shell_command_argv`]) runs a program directly with each
//! argument passed as one process argument, so no shell interprets them.
//! Shell-string mode ([`shell_command_builder`], [`hook_shell_command_builder`])
//! runs `sh -c <str>` on Unix and `cmd /C <str>` on Windows. Every command built
//! here kills its child when the handle is dropped.

use vstd::prelude::*;
use tokio::process::Command;
use crate::command::{
    all_nul_free, command_arg, command_args, command_argv, command_inherits_defaults,
    command_kill_on_drop, command_kills_on_drop, command_new, nul_free, views_of,
};

verus! {

/// The shell interpreter of a platform and the flag that hands it a command string.
pub struct ShellInfo {
    pub program: &'static str,
    pub flag: &'static str,
}

/// The interpreter: `cmd` on Windows, `sh` elsewhere.
pub open spec fn shell_program(windows: bool) -> Seq<char> {
    if windows {
        "cmd"@
    } else {
        "sh"@
    }
}

/// The command-string flag: `/C` on Windows, `-c` elsewhere.
pub open spec fn shell_flag(windows: bool) -> Seq<char> {
    if windows {
        "/C"@
    } else {
        "-c"@
    }
}

/// `info` is the shell of the platform given by `windows`.
pub open spec fn is_shell_info_for(info: ShellInfo, windows: bool) -> bool {
    info.program@ == shell_program(windows) && info.flag@ == shell_flag(windows)
}

/// The argv of shell-string mode: interpreter, flag, command string.
pub open spec fn shell_string_argv(windows: bool, command: Seq<char>) -> Seq<Seq<char>> {
    seq![shell_program(windows), shell_flag(windows), command]
}

/// The argv of a hook command: `cmd /V:ON /C <str>` on Windows (delayed
/// expansion of `!VAR!`), `sh -c <str>` elsewhere.
pub open spec fn hook_shell_argv(windows: bool, command: Seq<char>) -> Seq<Seq<char>> {
    if windows {
        seq!["cmd"@, "/V:ON"@, "/C"@, command]
    } else {
        shell_string_argv(false, command)
    }
}

/// The hook builder is identical to the shell-string builder except on
/// Windows, where it adds `/V:ON` before `/C`; on every platform the command
/// string is the single last argument and the interpreter is the same.
pub proof fn lemma_hook_differs_only_by_delayed_expansion(command: Seq<char>)
    ensures
        hook_shell_argv(false, command) == shell_string_argv(false, command),
        hook_shell_argv(true, command) == seq![
            shell_program(true),
            "/V:ON"@,
            shell_flag(true),
            command,
        ],
        hook_shell_argv(true, command).last() == command,
        shell_string_argv(true, command).last() == command,
        shell_string_argv(false, command).last() == command,
{
}

/// `std::path::is_separator`: whether `c` separates path components on the
/// platform this was built for. Its documentation shows `/` as a separator on
/// both Unix and Windows, the platforms on which tokio's process support
/// builds; that `\` is one on Windows only is left unstated.
#[verifier::external_body]
fn is_path_separator(c: char) -> (res: bool)
    ensures
        c == '/' ==> res,
{
    std::path::is_separator(c)
}

/// Whether the library was built for Windows: there, and only there, `\`
/// separates path components.
pub fn host_is_windows() -> (res: bool) {
    is_path_separator('\\')
}

/// The shell of the given platform.
pub fn shell_info_for(windows: bool) -> (info: ShellInfo)
    ensures
        is_shell_info_for(info, windows),
{
    if windows {
        ShellInfo { program: "cmd", flag: "/C" }
    } else {
        ShellInfo { program: "sh", flag: "-c" }
    }
}

/// The shell of the platform the library was built for.
pub fn shell_info() -> (info: ShellInfo)
    ensures
        is_shell_info_for(info, false) || is_shell_info_for(info, true),
{
    shell_info_for(host_is_windows())
}

/// The texts of the shell programs and flags hold no NUL.
proof fn lemma_shell_words_nul_free()
    ensures
        nul_free("sh"@),
        nul_free("-c"@),
        nul_free("cmd"@),
        nul_free("/C"@),
        nul_free("/V:ON"@),
{
    reveal_strlit("sh");
    reveal_strlit("-c");
    reveal_strlit("cmd");
    reveal_strlit("/C");
    reveal_strlit("/V:ON");
}

/// Shell-string mode on the given platform: `sh -c <str>` (Unix) / `cmd /C
/// <str>` (Windows), unstarted, with kill-on-drop set and nothing else
/// configured. A NUL-free command string is the single last argument, unchanged.
pub fn shell_command_builder_for(windows: bool, command_str: &str) -> (cmd: Command)
    ensures
        nul_free(command_str@) ==> command_argv(cmd) == shell_string_argv(windows, command_str@),
        command_kills_on_drop(cmd),
        command_inherits_defaults(cmd),
{
    let info = shell_info_for(windows);
    let mut cmd = command_new(info.program);
    command_arg(&mut cmd, info.flag);
    command_arg(&mut cmd, command_str);
    command_kill_on_drop(&mut cmd, true);
    proof {
        lemma_shell_words_nul_free();
        if nul_free(command_str@) {
            assert(command_argv(cmd) =~= shell_string_argv(windows, command_str@));
        }
    }
    cmd
}

/// Shell-string mode on the platform the library was built for: as
/// [`shell_command_builder_for`] with the shell [`shell_info`] reports there.
pub fn shell_command_builder(command_str: &str) -> (cmd: Command)
    ensures
        nul_free(command_str@) ==> (command_argv(cmd) == shell_string_argv(false, command_str@)
            || command_argv(cmd) == shell_string_argv(true, command_str@)),
        command_kills_on_drop(cmd),
        command_inherits_defaults(cmd),
{
    shell_command_builder_for(host_is_windows(), command_str)
}

/// Shell-string mode for hook commands on the given platform: as
/// [`shell_command_builder_for`], except that on Windows delayed expansion is
/// enabled (`cmd /V:ON /C <str>`).
pub fn hook_shell_command_builder_for(windows: bool, command_str: &str) -> (cmd: Command)
    ensures
        nul_free(command_str@) ==> command_argv(cmd) == hook_shell_argv(windows, command_str@),
        command_kills_on_drop(cmd),
        command_inherits_defaults(cmd),
{
    let mut cmd = if windows {
        let mut c = command_new("cmd");
        command_arg(&mut c, "/V:ON");
        command_arg(&mut c, "/C");
        command_arg(&mut c, command_str);
        c
    } else {
        let info = shell_info_for(windows);
        let mut c = command_new(info.program);
        command_arg(&mut c, info.flag);
        command_arg(&mut c, command_str);
        c
    };
    command_kill_on_drop(&mut cmd, true);
    proof {
        lemma_shell_words_nul_free();
        if nul_free(command_str@) {
            assert(command_argv(cmd) =~= hook_shell_argv(windows, command_str@));
        }
    }
    cmd
}

/// Shell-string mode for hook commands on the platform the library was built
/// for: as [`hook_shell_command_builder_for`] there.
pub fn hook_shell_command_builder(command_str: &str) -> (cmd: Command)
    ensures
        nul_free(command_str@) ==> (command_argv(cmd) == hook_shell_argv(false, command_str@)
            || command_argv(cmd) == hook_shell_argv(true, command_str@)),
        command_kills_on_drop(cmd),
        command_inherits_defaults(cmd),
{
    hook_shell_command_builder_for(host_is_windows(), command_str)
}

/// Argv mode: `program` is run directly (not through a shell) with each of
/// `args` as one process argument, unstarted, with kill-on-drop set and nothing
/// else configured. NUL-free texts are held exactly as given, in order.
pub fn shell_command_argv(program: &str, args: &[&str]) -> (cmd: Command)
    ensures
        nul_free(program@) && all_nul_free(views_of(args@)) ==> command_argv(cmd) == seq![
            program@,
        ] + views_of(args@),
        command_kills_on_drop(cmd),
        command_inherits_defaults(cmd),
{
    let mut cmd = command_new(program);
    command_args(&mut cmd, args);
    command_kill_on_drop(&mut cmd, true);
    cmd
}

} // verus!
