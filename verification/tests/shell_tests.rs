use minishell::builtin::{is_builtin, Builtin};
use minishell::shell::{ExecAction, Shell};
use minishell::tokenizer::Command;

fn shell_with(path: Vec<&str>, home: &str, current_dir: &str) -> Shell {
    let path = path.into_iter().map(String::from).collect();
    Shell::new(path, String::from(home), String::from(current_dir))
}

fn cmd(name: &str, args: Vec<&str>) -> Command {
    Command { name: String::from(name), args: args.into_iter().map(String::from).collect() }
}

#[test]
fn classify_builtin_names() {
    assert!(matches!(is_builtin("cd"), Some(Builtin::Cd)));
    assert!(matches!(is_builtin("echo"), Some(Builtin::Echo)));
    assert!(matches!(is_builtin("exit"), Some(Builtin::Exit)));
    assert!(matches!(is_builtin("pwd"), Some(Builtin::Pwd)));
    assert!(matches!(is_builtin("type"), Some(Builtin::Type)));
    assert!(is_builtin("ls").is_none());
    assert!(is_builtin("").is_none());
}

#[test]
fn cd_double_dot_moves_up() {
    let mut shell = shell_with(vec![], "/home/u", "/a/b/c");
    let action = shell.exec(cmd("cd", vec![".."]));
    match action {
        ExecAction::ChangeDir(target) => assert_eq!(target, "/a/b"),
        other => panic!("unexpected action: {:?}", other),
    }
    assert_eq!(shell.current_dir, "/a/b");
}

#[test]
fn cd_to_missing_absolute_path_reports_and_keeps_state() {
    let mut shell = shell_with(vec![], "/home/u", "/a");
    let action = shell.exec(cmd("cd", vec!["/nonexistent"]));
    let target = match action {
        ExecAction::TryChangeDir(target) => target,
        other => panic!("unexpected action: {:?}", other),
    };
    assert_eq!(target, "/nonexistent");
    let msg = shell.cd_finish(&target, false);
    assert_eq!(msg, Some(String::from("cd: /nonexistent: No such file or directory")));
    assert_eq!(shell.current_dir, "/a");
}

#[test]
fn cd_finish_commits_on_success() {
    let mut shell = shell_with(vec![], "/home/u", "/a");
    let target = String::from("/tmp");
    let msg = shell.cd_finish(&target, true);
    assert!(msg.is_none());
    assert_eq!(shell.current_dir, "/tmp");
}

#[test]
fn cd_tilde_goes_home() {
    let mut shell = shell_with(vec![], "/home/u", "/a");
    let action = shell.exec(cmd("cd", vec!["~"]));
    match action {
        ExecAction::ChangeDir(target) => assert_eq!(target, "/home/u"),
        other => panic!("unexpected action: {:?}", other),
    }
    assert_eq!(shell.current_dir, "/home/u");
}

#[test]
fn cd_tilde_with_suffix_is_a_no_op() {
    let mut shell = shell_with(vec![], "/home/u", "/a");
    let action = shell.exec(cmd("cd", vec!["~foo"]));
    assert!(matches!(action, ExecAction::NoOp));
    assert_eq!(shell.current_dir, "/a");
}

#[test]
fn cd_without_operand_asks_for_one() {
    let mut shell = shell_with(vec![], "/home/u", "/a");
    let action = shell.exec(cmd("cd", vec![]));
    match action {
        ExecAction::Print(line) => assert_eq!(line, "cd: missing operand"),
        other => panic!("unexpected action: {:?}", other),
    }
    assert_eq!(shell.current_dir, "/a");
}

#[test]
fn cd_dotted_path_resolves_segments() {
    let mut shell = shell_with(vec![], "/home/u", "/a");
    let action = shell.exec(cmd("cd", vec!["./x/../y"]));
    match action {
        ExecAction::ChangeDir(target) => assert_eq!(target, "/a/y"),
        other => panic!("unexpected action: {:?}", other),
    }
    assert_eq!(shell.current_dir, "/a/y");
}

#[test]
fn echo_joins_arguments_with_spaces() {
    let mut shell = shell_with(vec![], "/home/u", "/a");
    let action = shell.exec(cmd("echo", vec!["hello", "world"]));
    match action {
        ExecAction::Print(line) => assert_eq!(line, "hello world"),
        other => panic!("unexpected action: {:?}", other),
    }
}

#[test]
fn echo_of_nothing_prints_empty_line() {
    let mut shell = shell_with(vec![], "/home/u", "/a");
    let action = shell.exec(cmd("echo", vec![]));
    match action {
        ExecAction::Print(line) => assert_eq!(line, ""),
        other => panic!("unexpected action: {:?}", other),
    }
}

#[test]
fn exit_terminates() {
    let mut shell = shell_with(vec![], "/home/u", "/a");
    assert!(matches!(shell.exec(cmd("exit", vec![])), ExecAction::Exit));
}

#[test]
fn pwd_prints_the_same_path_twice() {
    let mut shell = shell_with(vec![], "/home/u", "/a/b");
    let first = match shell.exec(cmd("pwd", vec![])) {
        ExecAction::Print(line) => line,
        other => panic!("unexpected action: {:?}", other),
    };
    let second = match shell.exec(cmd("pwd", vec![])) {
        ExecAction::Print(line) => line,
        other => panic!("unexpected action: {:?}", other),
    };
    assert_eq!(first, "/a/b");
    assert_eq!(first, second);
}

#[test]
fn type_reports_builtins() {
    let mut shell = shell_with(vec![], "/home/u", "/a");
    let action = shell.exec(cmd("type", vec!["cd"]));
    match action {
        ExecAction::Print(line) => assert_eq!(line, "cd is a shell builtin"),
        other => panic!("unexpected action: {:?}", other),
    }
}

#[test]
fn type_reports_unresolvable_names() {
    let mut shell = shell_with(vec!["/nonexistent_dir_xyz"], "/home/u", "/a");
    let action = shell.exec(cmd("type", vec!["nonexistent_cmd_xyz"]));
    match action {
        ExecAction::Print(line) => assert_eq!(line, "nonexistent_cmd_xyz: not found"),
        other => panic!("unexpected action: {:?}", other),
    }
}

#[test]
fn type_without_operand_asks_for_one() {
    let mut shell = shell_with(vec![], "/home/u", "/a");
    let action = shell.exec(cmd("type", vec![]));
    match action {
        ExecAction::Print(line) => assert_eq!(line, "type: missing operand"),
        other => panic!("unexpected action: {:?}", other),
    }
}

#[test]
fn type_resolved_path_exists_and_ends_with_name() {
    let mut shell = shell_with(vec!["/nonexistent_dir_xyz", "/"], "/home/u", "/a");
    let action = shell.exec(cmd("type", vec!["tmp"]));
    let line = match action {
        ExecAction::Print(line) => line,
        other => panic!("unexpected action: {:?}", other),
    };
    assert_eq!(line, "tmp is /tmp");
    let reported = &line["tmp is ".len()..];
    assert!(std::path::Path::new(reported).exists());
    assert!(reported.ends_with("tmp"));
}

#[test]
fn in_path_finds_first_existing_candidate() {
    let shell = shell_with(vec!["/nonexistent_dir_xyz", "/"], "/home/u", "/a");
    assert_eq!(shell.in_path("tmp"), Some(String::from("/tmp")));
    assert_eq!(shell.in_path("nonexistent_cmd_xyz"), None);
}

#[test]
fn in_path_with_empty_search_path_finds_nothing() {
    let shell = shell_with(vec![], "/home/u", "/a");
    assert_eq!(shell.in_path("tmp"), None);
}

#[test]
fn unknown_command_is_reported() {
    let mut shell = shell_with(vec![], "/home/u", "/a");
    let action = shell.exec(cmd("nosuchcmd_xyz", vec![]));
    match action {
        ExecAction::Print(line) => assert_eq!(line, "nosuchcmd_xyz: command not found"),
        other => panic!("unexpected action: {:?}", other),
    }
}

#[test]
fn resolvable_command_is_run() {
    let mut shell = shell_with(vec!["/nonexistent_dir_xyz", "/"], "/home/u", "/a");
    let action = shell.exec(cmd("tmp", vec!["x"]));
    match action {
        ExecAction::RunProgram(program, args) => {
            assert_eq!(program, "/tmp");
            assert_eq!(args, vec![String::from("x")]);
        },
        other => panic!("unexpected action: {:?}", other),
    }
}

#[test]
fn empty_command_name_does_nothing() {
    let mut shell = shell_with(vec!["/"], "/home/u", "/a");
    assert!(matches!(shell.exec(cmd("", vec![])), ExecAction::NoOp));
}
