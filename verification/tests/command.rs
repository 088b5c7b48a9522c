use terminal_sessions::command::build_command;
use terminal_sessions::launch::{plan_session, PtyDims, SpawnPlan, TerminalCreateRequest};

fn plan(shell: &str, args: &[&str], cwd: &str) -> SpawnPlan {
    SpawnPlan {
        shell: String::from(shell),
        args: args.iter().map(|arg| String::from(*arg)).collect(),
        cwd: String::from(cwd),
        size: PtyDims { cols: 80, rows: 24 },
    }
}

fn argv(words: &[&str]) -> Vec<String> {
    words.iter().map(|word| String::from(*word)).collect()
}

fn argv_of(command: &portable_pty::CommandBuilder) -> Vec<String> {
    command.get_argv().iter().map(|arg| arg.to_string_lossy().into_owned()).collect()
}

fn cwd_of(command: &portable_pty::CommandBuilder) -> Option<String> {
    command.get_cwd().map(|dir| dir.to_string_lossy().into_owned())
}

#[test]
fn the_command_holds_the_shell_then_the_arguments() {
    let command = build_command(&plan("/bin/sh", &["-c", "echo hi; exit 0"], "/tmp"));
    assert_eq!(argv_of(&command), argv(&["/bin/sh", "-c", "echo hi; exit 0"]));
    assert_eq!(cwd_of(&command), Some(String::from("/tmp")));
}

#[test]
fn a_command_without_arguments_holds_only_the_shell() {
    let command = build_command(&plan("/usr/bin/fish", &[], "/home/u"));
    assert_eq!(argv_of(&command), argv(&["/usr/bin/fish"]));
    assert_eq!(cwd_of(&command), Some(String::from("/home/u")));
    assert!(!command.is_default_prog());
}

#[test]
fn arguments_are_not_split_or_reordered() {
    let command = build_command(&plan("sh", &["", "a b", "--", "-x", "\u{e9}"], "rel dir"));
    assert_eq!(argv_of(&command), argv(&["sh", "", "a b", "--", "-x", "\u{e9}"]));
    assert_eq!(cwd_of(&command), Some(String::from("rel dir")));
}

#[test]
fn the_command_of_a_planned_session() {
    let request = TerminalCreateRequest {
        cwd: Some(String::from("work")),
        cols: None,
        rows: None,
        shell: None,
        args: None,
    };
    let plan = plan_session(request, None, Ok(String::from("/home/u"))).unwrap();
    let command = build_command(&plan);
    assert_eq!(argv_of(&command), argv(&["/bin/bash", "--login"]));
    assert_eq!(cwd_of(&command), Some(String::from("/home/u/work")));
}
