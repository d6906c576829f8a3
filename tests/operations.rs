use bylexa_assistant::operations::{
    execute_command_result, interactive_login_result, interactive_start_result, log_output,
    send_shell_input_result, start_interactive_shell_result,
};
use bylexa_assistant::process::{
    execute_command_plan, interactive_login_plan, interactive_start_plan, send_shell_input_plan,
    start_interactive_shell_plan, Captured, Completion, Outcome,
};
use bylexa_assistant::text::decimal;

fn captured(stdout: &[u8], stderr: &[u8], code: Option<i32>, status: &str) -> Captured {
    Captured {
        stdout: stdout.to_vec(),
        stderr: stderr.to_vec(),
        code,
        status: status.to_string(),
    }
}

#[test]
fn login_plan_writes_email_then_password() {
    let plan = interactive_login_plan(&"me@example.com".to_string(), &"hunter2".to_string());
    assert_eq!(plan.program, "bylexa");
    assert_eq!(plan.args, vec!["login".to_string()]);
    assert_eq!(plan.input, Some("me@example.com\nhunter2\n".to_string()));
    assert_eq!(plan.completion, Completion::WaitForExit);
}

#[test]
fn login_plan_with_empty_credentials() {
    let plan = interactive_login_plan(&String::new(), &String::new());
    assert_eq!(plan.input, Some("\n\n".to_string()));
}

#[test]
fn other_plans() {
    let start = interactive_start_plan();
    assert_eq!(start.program, "bylexa");
    assert_eq!(start.args, vec!["start".to_string()]);
    assert_eq!(start.input, None);
    assert_eq!(start.completion, Completion::WaitForExit);

    let cmd = execute_command_plan(&"status".to_string());
    assert_eq!(cmd.args, vec!["status".to_string()]);
    assert_eq!(cmd.input, None);
    assert_eq!(cmd.completion, Completion::CollectOutput);

    let shell = start_interactive_shell_plan();
    assert_eq!(shell.args, vec!["shell".to_string()]);
    assert_eq!(shell.completion, Completion::DrainStdout);
}

#[test]
fn shell_input_plan_ignores_session() {
    let a = send_shell_input_plan(&"session_12".to_string(), &"open notepad".to_string());
    let b = send_shell_input_plan(&"session_99".to_string(), &"open notepad".to_string());
    assert_eq!(a.program, "bylexa");
    assert_eq!(a.args, vec!["open notepad".to_string()]);
    assert_eq!(a.args, b.args);
    assert_eq!(a.input, b.input);
    assert_eq!(a.completion, Completion::CollectOutput);
    assert_eq!(b.completion, Completion::CollectOutput);
}

#[test]
fn login_success_returns_stdout() {
    let o = Outcome::Exited(captured(b"Logged in\n", b"warn", Some(0), "exit status: 0"));
    assert_eq!(interactive_login_result(&o), Ok("Logged in\n".to_string()));
}

#[test]
fn login_failure_returns_stderr() {
    let o = Outcome::Exited(captured(b"", b"bad password", Some(1), "exit status: 1"));
    assert_eq!(interactive_login_result(&o), Err("bad password".to_string()));
}

#[test]
fn login_killed_by_signal_is_failure() {
    let o = Outcome::Exited(captured(b"partial", b"killed", None, "signal: 9 (SIGKILL)"));
    assert_eq!(interactive_login_result(&o), Err("killed".to_string()));
}

#[test]
fn login_stage_errors() {
    assert_eq!(
        interactive_login_result(&Outcome::SpawnFailed("No such file or directory (os error 2)".to_string())),
        Err("Failed to spawn process: No such file or directory (os error 2)".to_string())
    );
    assert_eq!(
        interactive_login_result(&Outcome::StdinUnavailable),
        Err("Failed to open stdin".to_string())
    );
    assert_eq!(
        interactive_login_result(&Outcome::StdinFailed("Broken pipe (os error 32)".to_string())),
        Err("Failed to write to stdin: Broken pipe (os error 32)".to_string())
    );
    assert_eq!(
        interactive_login_result(&Outcome::WaitFailed("interrupted".to_string())),
        Err("Failed to wait on process: interrupted".to_string())
    );
}

#[test]
fn start_client_results() {
    let ok = Outcome::Exited(captured(b"client running", b"", Some(0), "exit status: 0"));
    assert_eq!(interactive_start_result(&ok), Ok("client running".to_string()));
    let bad = Outcome::Exited(captured(b"", b"already running", Some(2), "exit status: 2"));
    assert_eq!(interactive_start_result(&bad), Err("already running".to_string()));
    assert_eq!(
        interactive_start_result(&Outcome::SpawnFailed("not found".to_string())),
        Err("Failed to start bylexa client: not found".to_string())
    );
    assert_eq!(
        interactive_start_result(&Outcome::WaitFailed("gone".to_string())),
        Err("Failed to wait on process: gone".to_string())
    );
}

#[test]
fn start_client_twice_gives_independent_results() {
    let first = Outcome::Exited(captured(b"one", b"", Some(0), "exit status: 0"));
    let second = Outcome::Exited(captured(b"", b"two", Some(3), "exit status: 3"));
    let r1 = interactive_start_result(&first);
    let r2 = interactive_start_result(&second);
    assert_eq!(r1, Ok("one".to_string()));
    assert_eq!(r2, Err("two".to_string()));
    assert_eq!(interactive_start_result(&first), r1);
    let p1 = interactive_start_plan();
    let p2 = interactive_start_plan();
    assert_eq!(p1.args, p2.args);
    assert_eq!(p1.input, p2.input);
}

#[test]
fn report_format() {
    let c = captured(b"out", b"err", Some(0), "exit status: 0");
    assert_eq!(
        log_output(&c),
        "STDOUT:\nout\n\nSTDERR:\nerr\n\nExit Status: exit status: 0"
    );
}

#[test]
fn report_decodes_invalid_bytes_lossily() {
    let c = captured(&[b'a', 0xff, b'b'], &[], Some(0), "exit status: 0");
    assert_eq!(
        log_output(&c),
        "STDOUT:\na\u{FFFD}b\n\nSTDERR:\n\n\nExit Status: exit status: 0"
    );
}

#[test]
fn execute_command_success_contains_stdout() {
    let r = execute_command_result(
        &"status".to_string(),
        &Ok(captured(b"all good\n", b"", Some(0), "exit status: 0")),
    );
    let text = r.unwrap();
    assert!(text.contains("all good\n"));
    assert_eq!(text, "STDOUT:\nall good\n\n\nSTDERR:\n\n\nExit Status: exit status: 0");
}

#[test]
fn execute_command_nonzero_exit_is_still_ok() {
    let r = execute_command_result(
        &"bogus".to_string(),
        &Ok(captured(b"", b"unknown command", Some(1), "exit status: 1")),
    );
    assert_eq!(
        r,
        Ok("STDOUT:\n\n\nSTDERR:\nunknown command\n\nExit Status: exit status: 1".to_string())
    );
}

#[test]
fn execute_command_spawn_failure() {
    let r = execute_command_result(&"status".to_string(), &Err("program not found".to_string()));
    assert_eq!(r, Err("Failed to execute bylexa status: program not found".to_string()));
}

#[test]
fn shell_session_label_embeds_pid() {
    assert_eq!(start_interactive_shell_result(&Ok(4242)), Ok("session_4242".to_string()));
    assert_eq!(start_interactive_shell_result(&Ok(0)), Ok("session_0".to_string()));
    assert_eq!(
        start_interactive_shell_result(&Ok(u32::MAX)),
        Ok("session_4294967295".to_string())
    );
    assert_eq!(
        start_interactive_shell_result(&Err("not found".to_string())),
        Err("Failed to start interactive shell: not found".to_string())
    );
}

#[test]
fn decimal_numerals() {
    assert_eq!(decimal(0), "0");
    assert_eq!(decimal(7), "7");
    assert_eq!(decimal(10), "10");
    assert_eq!(decimal(1905), "1905");
    assert_eq!(decimal(u32::MAX), "4294967295");
}

#[test]
fn shell_input_results() {
    let ok = send_shell_input_result(&Ok(captured(b"done", b"", Some(0), "exit status: 0")));
    assert_eq!(ok, Ok("STDOUT:\ndone\n\nSTDERR:\n\n\nExit Status: exit status: 0".to_string()));
    let bad = send_shell_input_result(&Ok(captured(b"", b"no such action", Some(4), "exit status: 4")));
    assert_eq!(bad, Err("Command failed: no such action".to_string()));
    let lossy = send_shell_input_result(&Ok(captured(b"", &[0xc3], Some(1), "exit status: 1")));
    assert_eq!(lossy, Err("Command failed: \u{FFFD}".to_string()));
    let spawn = send_shell_input_result(&Err("not found".to_string()));
    assert_eq!(spawn, Err("Failed to send shell input: not found".to_string()));
}

#[test]
fn every_operation_fails_when_unspawnable() {
    let why = "No such file or directory (os error 2)".to_string();
    for r in [
        interactive_login_result(&Outcome::SpawnFailed(why.clone())),
        interactive_start_result(&Outcome::SpawnFailed(why.clone())),
        execute_command_result(&"status".to_string(), &Err(why.clone())),
        start_interactive_shell_result(&Err(why.clone())),
        send_shell_input_result(&Err(why.clone())),
    ] {
        let e = r.unwrap_err();
        assert!(e.ends_with(&why));
    }
}
