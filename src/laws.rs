//! Properties that hold across the operations.
use crate::operations::{
    command_result, login_result, report_text, session_label, shell_input_result, shell_result,
    start_result,
};
use crate::process::{shell_input_plan, Captured, Outcome};
use crate::text::{decimal_text, lossy_text};
use vstd::prelude::*;

verus! {

/// `t` holds `s` as a contiguous piece starting at position `i`.
pub open spec fn occurs_at(t: Seq<char>, s: Seq<char>, i: int) -> bool {
    0 <= i && i + s.len() <= t.len() && t.subrange(i, i + s.len()) == s
}

/// `t` ends with `s`.
pub open spec fn ends_with(t: Seq<char>, s: Seq<char>) -> bool {
    s.len() <= t.len() && t.subrange(t.len() - s.len(), t.len() as int) == s
}

proof fn lemma_report_holds_stdout(c: Captured)
    ensures
        occurs_at(report_text(c), lossy_text(c.stdout@), "STDOUT:\n"@.len() as int),
{
    let out = lossy_text(c.stdout@);
    let p = "STDOUT:\n"@;
    let rest = "\n\nSTDERR:\n"@ + lossy_text(c.stderr@) + "\n\nExit Status: "@ + c.status@;
    assert(report_text(c) =~= p + out + rest);
    assert((p + out + rest).subrange(p.len() as int, (p.len() + out.len()) as int) =~= out);
}

/// Every operation that ends with exit code 0 hands back the text of the
/// child's standard output: whole where the operation returns the output, and
/// as a contiguous piece of the report where it returns a report.
pub proof fn lemma_success_returns_stdout(command_type: Seq<char>, c: Captured)
    requires
        c.succeeded(),
    ensures
        login_result(Outcome::Exited(c)) == Ok::<Seq<char>, Seq<char>>(lossy_text(c.stdout@)),
        start_result(Outcome::Exited(c)) == Ok::<Seq<char>, Seq<char>>(lossy_text(c.stdout@)),
        command_result(command_type, Ok(c)) is Ok,
        occurs_at(
            command_result(command_type, Ok(c))->Ok_0,
            lossy_text(c.stdout@),
            "STDOUT:\n"@.len() as int,
        ),
        shell_input_result(Ok(c)) is Ok,
        occurs_at(
            shell_input_result(Ok(c))->Ok_0,
            lossy_text(c.stdout@),
            "STDOUT:\n"@.len() as int,
        ),
{
    lemma_report_holds_stdout(c);
}

proof fn lemma_ends_with_suffix(p: Seq<char>, e: Seq<char>)
    ensures
        ends_with(p + e, e),
{
    assert((p + e).subrange(p.len() as int, (p + e).len() as int) =~= e);
}

/// Where the child cannot be launched, every operation fails, and its error
/// ends with the description of why the launch failed.
pub proof fn lemma_spawn_failure_is_error(command_type: Seq<char>, e: String)
    ensures
        login_result(Outcome::SpawnFailed(e)) is Err,
        ends_with(login_result(Outcome::SpawnFailed(e))->Err_0, e@),
        start_result(Outcome::SpawnFailed(e)) is Err,
        ends_with(start_result(Outcome::SpawnFailed(e))->Err_0, e@),
        command_result(command_type, Err(e)) is Err,
        ends_with(command_result(command_type, Err(e))->Err_0, e@),
        shell_result(Err(e)) is Err,
        ends_with(shell_result(Err(e))->Err_0, e@),
        shell_input_result(Err(e)) is Err,
        ends_with(shell_input_result(Err(e))->Err_0, e@),
{
    lemma_ends_with_suffix("Failed to spawn process: "@, e@);
    lemma_ends_with_suffix("Failed to start bylexa client: "@, e@);
    lemma_ends_with_suffix("Failed to execute bylexa "@ + command_type + ": "@, e@);
    lemma_ends_with_suffix("Failed to start interactive shell: "@, e@);
    lemma_ends_with_suffix("Failed to send shell input: "@, e@);
}

/// A shell session's label holds the decimal numeral of the child's process
/// id, right after the `session_` prefix and up to its end.
pub proof fn lemma_session_label_holds_pid(pid: u32)
    ensures
        shell_result(Ok(pid)) == Ok::<Seq<char>, Seq<char>>(session_label(pid)),
        occurs_at(session_label(pid), decimal_text(pid as nat), "session_"@.len() as int),
        ends_with(session_label(pid), decimal_text(pid as nat)),
{
    let p = "session_"@;
    let d = decimal_text(pid as nat);
    assert((p + d).subrange(p.len() as int, (p.len() + d.len()) as int) =~= d);
    lemma_ends_with_suffix(p, d);
}

/// Input sent to a shell session launches the same fresh invocation whatever
/// session is named: no session routes it to an earlier child.
pub proof fn lemma_shell_input_ignores_session(first: Seq<char>, second: Seq<char>, input: Seq<char>)
    ensures
        shell_input_plan(first, input) == shell_input_plan(second, input),
{
}

/// Starting the client twice launches the same invocation each time, and each
/// result is decided by what its own child did alone, with no state kept
/// between calls: equal outcomes give equal results.
pub proof fn lemma_start_twice_independent(first: Outcome, second: Outcome)
    ensures
        first == second ==> start_result(first) == start_result(second),
{
}

} // verus!
