use wcore::shell::{
    hook_shell_command_builder, hook_shell_command_builder_for, host_is_windows,
    shell_command_argv, shell_command_builder, shell_command_builder_for,
    shell_info, shell_info_for,
};

fn argv_of(cmd: &tokio::process::Command) -> Vec<String> {
    let std_cmd = cmd.as_std();
    let mut v = vec![std_cmd.get_program().to_string_lossy().into_owned()];
    for a in std_cmd.get_args() {
        v.push(a.to_string_lossy().into_owned());
    }
    v
}

#[test]
fn shell_info_returns_platform_appropriate_values() {
    let info = shell_info();
    if host_is_windows() {
        assert_eq!(info.program, "cmd");
        assert_eq!(info.flag, "/C");
    } else {
        assert_eq!(info.program, "sh");
        assert_eq!(info.flag, "-c");
    }
}

#[test]
fn shell_info_for_each_platform() {
    let w = shell_info_for(true);
    assert_eq!((w.program, w.flag), ("cmd", "/C"));
    let u = shell_info_for(false);
    assert_eq!((u.program, u.flag), ("sh", "-c"));
}

#[test]
fn shell_command_builder_runs_the_string_through_the_shell() {
    let cmd = shell_command_builder("echo hello && echo $HOME");
    let info = shell_info();
    assert_eq!(
        argv_of(&cmd),
        vec![info.program.to_string(), info.flag.to_string(), "echo hello && echo $HOME".to_string()]
    );
    assert!(cmd.get_kill_on_drop());
}

#[test]
fn hook_shell_command_builder_enables_delayed_expansion_on_windows_only() {
    let cmd = hook_shell_command_builder("echo ${VAR}");
    let expected: Vec<String> = if host_is_windows() {
        vec!["cmd", "/V:ON", "/C", "echo ${VAR}"]
    } else {
        vec!["sh", "-c", "echo ${VAR}"]
    }
    .into_iter()
    .map(String::from)
    .collect();
    assert_eq!(argv_of(&cmd), expected);
    assert!(cmd.get_kill_on_drop());
}

#[test]
fn shell_command_argv_passes_metacharacters_as_one_literal_argument() {
    let payload = "hello; rm -rf /";
    let cmd = shell_command_argv("echo", &[payload]);
    assert_eq!(argv_of(&cmd), vec!["echo".to_string(), payload.to_string()]);
    assert!(cmd.get_kill_on_drop());
}

#[test]
fn shell_command_argv_keeps_command_substitution_literal() {
    let cmd = shell_command_argv("echo", &["$(whoami)", "`id`", "a b"]);
    assert_eq!(
        argv_of(&cmd),
        vec!["echo", "$(whoami)", "`id`", "a b"].into_iter().map(String::from).collect::<Vec<_>>()
    );
}

#[test]
fn shell_command_argv_with_git_arguments() {
    let cmd = shell_command_argv("git", &["status", "--porcelain=v1"]);
    assert_eq!(
        argv_of(&cmd),
        vec!["git", "status", "--porcelain=v1"].into_iter().map(String::from).collect::<Vec<_>>()
    );
    let bare = shell_command_argv("git", &[]);
    assert_eq!(argv_of(&bare), vec!["git".to_string()]);
}

#[test]
fn builders_for_each_platform() {
    let cmd = shell_command_builder_for(false, "ls | wc -l");
    assert_eq!(argv_of(&cmd), vec!["sh", "-c", "ls | wc -l"]);
    assert!(cmd.get_kill_on_drop());
    let cmd = shell_command_builder_for(true, "dir");
    assert_eq!(argv_of(&cmd), vec!["cmd", "/C", "dir"]);
    let cmd = hook_shell_command_builder_for(true, "echo !VAR!");
    assert_eq!(argv_of(&cmd), vec!["cmd", "/V:ON", "/C", "echo !VAR!"]);
    assert!(cmd.get_kill_on_drop());
    let cmd = hook_shell_command_builder_for(false, "echo ${VAR}");
    assert_eq!(argv_of(&cmd), vec!["sh", "-c", "echo ${VAR}"]);
}

#[test]
fn builders_leave_environment_and_directory_alone() {
    let cmd = shell_command_builder("true");
    assert_eq!(cmd.as_std().get_envs().count(), 0);
    assert!(cmd.as_std().get_current_dir().is_none());
    let cmd = shell_command_argv("git", &["status"]);
    assert_eq!(cmd.as_std().get_envs().count(), 0);
    assert!(cmd.as_std().get_current_dir().is_none());
}
