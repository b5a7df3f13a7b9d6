//! Unstarted child-process commands (`tokio::process::Command`), seen through
//! what they hold: the program followed by its arguments, and whether the
//! child is killed when its handle is dropped.

use vstd::prelude::*;
use tokio::process::Command;

verus! {

#[verifier::external_type_specification]
#[verifier::external_body]
pub struct ExCommand(Command);

/// What a command holds: its program, then its arguments in order.
pub uninterp spec fn command_argv(cmd: Command) -> Seq<Seq<char>>;

/// Whether the child of this command is killed when its handle is dropped.
pub uninterp spec fn command_kills_on_drop(cmd: Command) -> bool;

/// Whether the command still has the setup it was made with: no environment
/// variable, working directory or standard stream set on it, so the child
/// inherits the current process's.
pub uninterp spec fn command_inherits_defaults(cmd: Command) -> bool;

/// The text holds no NUL character. A program or argument with a NUL cannot
/// be passed to a process; what a command records for one is left open.
pub open spec fn nul_free(s: Seq<char>) -> bool {
    forall|i: int| 0 <= i < s.len() ==> s[i] != '\0'
}

/// Every text of the list is NUL-free.
pub open spec fn all_nul_free(ss: Seq<Seq<char>>) -> bool {
    forall|i: int| 0 <= i < ss.len() ==> nul_free(#[trigger] ss[i])
}

/// The views of a list of string slices.
pub open spec fn views_of(args: Seq<&str>) -> Seq<Seq<char>> {
    args.map_values(|a: &str| a@)
}

/// `tokio::process::Command::new`: a command for `program` with no arguments.
/// Tokio's source builds it from `std::process::Command::new(program)` with
/// `kill_on_drop` false, and documents that the child inherits the current
/// environment, working directory and standard streams. A NUL-free program is
/// recorded as given; for one with a NUL the recorded program is left unstated.
#[verifier::external_body]
pub(crate) fn command_new(program: &str) -> (cmd: Command)
    ensures
        nul_free(program@) ==> command_argv(cmd) == seq![program@],
        !command_kills_on_drop(cmd),
        command_inherits_defaults(cmd),
{
    Command::new(program)
}

/// `tokio::process::Command::arg`: appends one argument after the ones already
/// held (as given, when it is NUL-free; otherwise what is held is left
/// unstated); the kill-on-drop setting and the rest of the setup are untouched.
#[verifier::external_body]
pub(crate) fn command_arg(cmd: &mut Command, arg: &str)
    ensures
        nul_free(arg@) ==> command_argv(*final(cmd)) == command_argv(*old(cmd)).push(arg@),
        command_kills_on_drop(*final(cmd)) == command_kills_on_drop(*old(cmd)),
        command_inherits_defaults(*final(cmd)) == command_inherits_defaults(*old(cmd)),
{
    cmd.arg(arg);
}

/// `tokio::process::Command::args`: appends each argument, in order, after the
/// ones already held (as given, when all are NUL-free; otherwise what is held
/// is left unstated); the kill-on-drop setting and the rest of the setup are
/// untouched.
#[verifier::external_body]
pub(crate) fn command_args(cmd: &mut Command, args: &[&str])
    ensures
        all_nul_free(views_of(args@)) ==> command_argv(*final(cmd)) == command_argv(*old(cmd))
            + views_of(args@),
        command_kills_on_drop(*final(cmd)) == command_kills_on_drop(*old(cmd)),
        command_inherits_defaults(*final(cmd)) == command_inherits_defaults(*old(cmd)),
{
    cmd.args(args);
}

/// `tokio::process::Command::kill_on_drop`: sets the kill-on-drop flag and
/// leaves the program, arguments and the rest of the setup as they were.
#[verifier::external_body]
pub(crate) fn command_kill_on_drop(cmd: &mut Command, kill: bool)
    ensures
        command_argv(*final(cmd)) == command_argv(*old(cmd)),
        command_kills_on_drop(*final(cmd)) == kill,
        command_inherits_defaults(*final(cmd)) == command_inherits_defaults(*old(cmd)),
{
    cmd.kill_on_drop(kill);
}

} // verus!
