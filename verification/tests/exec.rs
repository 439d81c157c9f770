use std::time::Duration;

use nrv_rs::exec::{
    build_command, build_command_windows, command_line_join, command_line_join_windows, conclude,
    wait_step, CommandOptions, ExecError, ExecOutcome, Invocation, WaitStep,
};

fn parts(items: &[&str]) -> Vec<String> {
    items.iter().map(|item| item.to_string()).collect()
}

#[test]
fn module_is_named_exec() {
    assert_eq!(nrv_rs::exec::module_name(), "exec");
}

#[test]
fn new_options_run_the_program_directly() {
    let options = CommandOptions::new("echo");
    assert_eq!(options.program, "echo");
    assert!(options.args.is_empty());
    assert_eq!(options.cwd, None);
    assert!(options.env.is_empty());
    assert_eq!(options.timeout, None);
    assert!(!options.use_shell);
}

#[test]
fn runs_basic_command() {
    let mut options = CommandOptions::new("echo");
    options.args.push("nrv".into());
    options.use_shell = true;

    assert_eq!(
        build_command(&options),
        Invocation { program: "sh".into(), args: parts(&["-c", "echo nrv"]) }
    );
    assert_eq!(wait_step(true, false), WaitStep::Collect);
    let outcome = conclude(None, Some(0), "nrv\n".into(), String::new(), 3).expect("exec");
    assert_eq!(outcome.status, Some(0));
    assert!(outcome.stdout.to_lowercase().contains("nrv"));
}

#[test]
fn times_out_long_running_command() {
    let mut options = CommandOptions::new("sleep 2");
    options.use_shell = true;
    options.timeout = Some(Duration::from_millis(200));

    assert_eq!(
        build_command(&options),
        Invocation { program: "sh".into(), args: parts(&["-c", "'sleep 2'"]) }
    );
    assert_eq!(wait_step(false, false), WaitStep::Sleep { millis: 10 });
    assert_eq!(wait_step(false, true), WaitStep::Kill);
    let err = conclude(options.timeout, None, String::new(), String::new(), 204)
        .expect_err("timeout");
    match err {
        ExecError::Timeout { duration, .. } => {
            assert_eq!(duration, Duration::from_millis(200));
        }
        other => panic!("unexpected error: {other:?}"),
    }
}

#[test]
fn direct_invocation_keeps_program_and_arguments() {
    let mut options = CommandOptions::new("git");
    options.args = parts(&["commit", "-m", "it's done", ""]);
    assert_eq!(
        build_command(&options),
        Invocation { program: "git".into(), args: parts(&["commit", "-m", "it's done", ""]) }
    );
}

#[test]
fn plain_parts_are_joined_by_spaces() {
    assert_eq!(command_line_join(&parts(&["ls", "-la", "/tmp"])), "ls -la /tmp");
    assert_eq!(command_line_join(&parts(&["one"])), "one");
    assert_eq!(command_line_join(&[]), "");
}

#[test]
fn parts_with_special_characters_are_quoted() {
    assert_eq!(command_line_join(&parts(&["echo", "a b"])), "echo 'a b'");
    assert_eq!(command_line_join(&parts(&["echo", ""])), "echo ''");
    assert_eq!(command_line_join(&parts(&["echo", "$HOME"])), "echo '$HOME'");
    assert_eq!(command_line_join(&parts(&["a\"b", "c`d", "e\\f"])), "'a\"b' 'c`d' 'e\\f'");
    assert_eq!(command_line_join(&parts(&["tab\there", "new\nline"])), "'tab\there' 'new\nline'");
    assert_eq!(command_line_join(&parts(&["wide\u{3000}space"])), "'wide\u{3000}space'");
    assert_eq!(command_line_join(&parts(&["a;b", "c|d", "e&f", "*"])), "a;b c|d e&f *");
}

#[test]
fn single_quotes_are_escaped_inside_quotes() {
    assert_eq!(command_line_join(&parts(&["it's"])), "'it'\\''s'");
    assert_eq!(command_line_join(&parts(&["'"])), "''\\'''");
    assert_eq!(command_line_join(&parts(&["''", "x"])), "''\\'''\\''' x");
}

#[test]
fn waiting_collects_kills_or_sleeps() {
    assert_eq!(wait_step(true, false), WaitStep::Collect);
    assert_eq!(wait_step(true, true), WaitStep::Collect);
    assert_eq!(wait_step(false, true), WaitStep::Kill);
    assert_eq!(wait_step(false, false), WaitStep::Sleep { millis: 10 });
}

#[test]
fn timeout_is_reported_with_its_duration() {
    let err = conclude(Some(Duration::from_millis(200)), None, "out".into(), "err".into(), 215)
        .expect_err("timeout");
    match err {
        ExecError::Timeout { duration, stdout, stderr } => {
            assert_eq!(duration, Duration::from_millis(200));
            assert_eq!(stdout, "out");
            assert_eq!(stderr, "err");
        }
        other => panic!("unexpected error: {other:?}"),
    }
}

#[test]
fn finished_command_reports_its_outcome() {
    let outcome = conclude(None, Some(0), "nrv\n".into(), String::new(), 12).expect("exec");
    assert_eq!(
        outcome,
        ExecOutcome { status: Some(0), stdout: "nrv\n".into(), stderr: String::new(), duration_ms: 12 }
    );
    assert!(outcome.stdout.to_lowercase().contains("nrv"));
}

#[test]
fn windows_parts_are_quoted_with_double_quotes() {
    assert_eq!(command_line_join_windows(&parts(&["dir", "/B", "C:\\tmp"])), "dir /B C:\\tmp");
    assert_eq!(command_line_join_windows(&parts(&["echo", "a b"])), "echo \"a b\"");
    assert_eq!(command_line_join_windows(&parts(&["echo", ""])), "echo ");
    assert_eq!(command_line_join_windows(&parts(&["a^b", "c&d", "e|f", "g<h", "i>j"])),
        "\"a^b\" \"c&d\" \"e|f\" \"g<h\" \"i>j\"");
    assert_eq!(command_line_join_windows(&parts(&["say \"hi\""])), "\"say \\\"hi\\\"\"");
    assert_eq!(command_line_join_windows(&parts(&["it's", "$HOME"])), "it's $HOME");
    assert_eq!(command_line_join_windows(&[]), "");
}

#[test]
fn windows_shell_invocation_runs_cmd() {
    let mut options = CommandOptions::new("echo");
    options.args.push("two words".into());
    options.use_shell = true;
    assert_eq!(
        build_command_windows(&options),
        Invocation { program: "cmd".into(), args: parts(&["/C", "echo \"two words\""]) }
    );
    options.use_shell = false;
    assert_eq!(
        build_command_windows(&options),
        Invocation { program: "echo".into(), args: parts(&["two words"]) }
    );
}
