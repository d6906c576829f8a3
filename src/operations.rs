//! What each operation hands back, given what happened to its child process.
use crate::process::{Captured, Outcome};
use crate::text::{decimal, decimal_text, decode_lossy, lossy_text};
use vstd::prelude::*;
use vstd::string::StringExecFns;

verus! {

/// The text content of a result of strings.
pub open spec fn result_text(r: Result<String, String>) -> Result<Seq<char>, Seq<char>> {
    match r {
        Ok(t) => Ok(t@),
        Err(e) => Err(e@),
    }
}

/// The report of a finished child: its output, its error output, and how it ended.
pub open spec fn report_text(c: Captured) -> Seq<char> {
    "STDOUT:\n"@ + lossy_text(c.stdout@) + "\n\nSTDERR:\n"@ + lossy_text(c.stderr@)
        + "\n\nExit Status: "@ + c.status@
}

/// The result of an operation that waits for its child, where `spawn_prefix`
/// introduces a launch failure.
pub open spec fn waited_result(spawn_prefix: Seq<char>, o: Outcome) -> Result<Seq<char>, Seq<char>> {
    match o {
        Outcome::SpawnFailed(e) => Err(spawn_prefix + e@),
        Outcome::StdinUnavailable => Err("Failed to open stdin"@),
        Outcome::StdinFailed(e) => Err("Failed to write to stdin: "@ + e@),
        Outcome::WaitFailed(e) => Err("Failed to wait on process: "@ + e@),
        Outcome::Exited(c) => if c.succeeded() {
            Ok(lossy_text(c.stdout@))
        } else {
            Err(lossy_text(c.stderr@))
        },
    }
}

pub open spec fn login_result(o: Outcome) -> Result<Seq<char>, Seq<char>> {
    waited_result("Failed to spawn process: "@, o)
}

pub open spec fn start_result(o: Outcome) -> Result<Seq<char>, Seq<char>> {
    waited_result("Failed to start bylexa client: "@, o)
}

/// A command's report, whether or not it exited with code 0.
pub open spec fn command_result(command_type: Seq<char>, r: Result<Captured, String>) -> Result<
    Seq<char>,
    Seq<char>,
> {
    match r {
        Ok(c) => Ok(report_text(c)),
        Err(e) => Err("Failed to execute bylexa "@ + command_type + ": "@ + e@),
    }
}

/// The session label of a shell child with process id `pid`.
pub open spec fn session_label(pid: u32) -> Seq<char> {
    "session_"@ + decimal_text(pid as nat)
}

pub open spec fn shell_result(r: Result<u32, String>) -> Result<Seq<char>, Seq<char>> {
    match r {
        Ok(pid) => Ok(session_label(pid)),
        Err(e) => Err("Failed to start interactive shell: "@ + e@),
    }
}

pub open spec fn shell_input_result(r: Result<Captured, String>) -> Result<Seq<char>, Seq<char>> {
    match r {
        Ok(c) => if c.succeeded() {
            Ok(report_text(c))
        } else {
            Err("Command failed: "@ + lossy_text(c.stderr@))
        },
        Err(e) => Err("Failed to send shell input: "@ + e@),
    }
}

fn prefixed(prefix: &str, e: &String) -> (r: String)
    ensures
        r@ == prefix@ + e@,
{
    let mut s = String::from_str(prefix);
    s.append(e.as_str());
    s
}

/// Formats the report of a finished child.
pub fn log_output(c: &Captured) -> (r: String)
    ensures
        r@ == report_text(*c),
{
    let mut s = String::from_str("STDOUT:\n");
    let out = decode_lossy(&c.stdout);
    s.append(out.as_str());
    s.append("\n\nSTDERR:\n");
    let err = decode_lossy(&c.stderr);
    s.append(err.as_str());
    s.append("\n\nExit Status: ");
    s.append(c.status.as_str());
    s
}

fn waited(spawn_prefix: &str, o: &Outcome) -> (r: Result<String, String>)
    ensures
        result_text(r) == waited_result(spawn_prefix@, *o),
{
    match o {
        Outcome::SpawnFailed(e) => Err(prefixed(spawn_prefix, e)),
        Outcome::StdinUnavailable => Err(String::from_str("Failed to open stdin")),
        Outcome::StdinFailed(e) => Err(prefixed("Failed to write to stdin: ", e)),
        Outcome::WaitFailed(e) => Err(prefixed("Failed to wait on process: ", e)),
        Outcome::Exited(c) => if c.success() {
            Ok(decode_lossy(&c.stdout))
        } else {
            Err(decode_lossy(&c.stderr))
        },
    }
}

/// The login's result: its standard output on exit code 0, else its error output.
pub fn interactive_login_result(o: &Outcome) -> (r: Result<String, String>)
    ensures
        result_text(r) == login_result(*o),
{
    waited("Failed to spawn process: ", o)
}

/// The client start's result: its standard output on exit code 0, else its error output.
pub fn interactive_start_result(o: &Outcome) -> (r: Result<String, String>)
    ensures
        result_text(r) == start_result(*o),
{
    waited("Failed to start bylexa client: ", o)
}

/// A command's result: its report whatever its exit code; an error only where
/// it could not be run.
pub fn execute_command_result(command_type: &String, r: &Result<Captured, String>) -> (res: Result<
    String,
    String,
>)
    ensures
        result_text(res) == command_result(command_type@, *r),
{
    match r {
        Ok(c) => Ok(log_output(c)),
        Err(e) => {
            let mut s = String::from_str("Failed to execute bylexa ");
            s.append(command_type.as_str());
            s.append(": ");
            s.append(e.as_str());
            Err(s)
        },
    }
}

/// The shell start's result: a label made from the child's process id.
pub fn start_interactive_shell_result(r: &Result<u32, String>) -> (res: Result<String, String>)
    ensures
        result_text(res) == shell_result(*r),
{
    match r {
        Ok(pid) => {
            let mut s = String::from_str("session_");
            let digits = decimal(*pid);
            s.append(digits.as_str());
            Ok(s)
        },
        Err(e) => Err(prefixed("Failed to start interactive shell: ", e)),
    }
}

/// The shell input's result: the report on exit code 0, else the error output.
pub fn send_shell_input_result(r: &Result<Captured, String>) -> (res: Result<String, String>)
    ensures
        result_text(res) == shell_input_result(*r),
{
    match r {
        Ok(c) => if c.success() {
            Ok(log_output(c))
        } else {
            Err(prefixed("Command failed: ", &decode_lossy(&c.stderr)))
        },
        Err(e) => Err(prefixed("Failed to send shell input: ", e)),
    }
}

} // verus!
