//! What is launched for each operation, and what comes back from a launch.
use vstd::prelude::*;
use vstd::string::StringExecFns;

verus! {

/// How the caller is to finish an invocation once the child is launched.
#[derive(Clone, Copy, Debug, PartialEq, Eq, Structural)]
pub enum Completion {
    /// Pipe standard output and error, and standard input where there is input
    /// to write (else the child inherits it); write the input, then wait for
    /// the child to exit and collect what it wrote.
    WaitForExit,
    /// Launch and collect in a single step; standard input is not inherited.
    CollectOutput,
    /// Pipe all three streams, read standard output line by line until it ends,
    /// and keep no handle on the child.
    DrainStdout,
}

/// One launch of an external program.
pub struct Invocation {
    pub program: String,
    pub args: Vec<String>,
    /// Text written to the child's standard input, if any.
    pub input: Option<String>,
    pub completion: Completion,
}

/// The mathematical content of an [`Invocation`].
pub struct InvocationView {
    pub program: Seq<char>,
    pub args: Seq<Seq<char>>,
    pub input: Option<Seq<char>>,
    pub completion: Completion,
}

pub open spec fn option_text(o: Option<String>) -> Option<Seq<char>> {
    match o {
        Some(s) => Some(s@),
        None => None,
    }
}

impl View for Invocation {
    type V = InvocationView;

    open spec fn view(&self) -> InvocationView {
        InvocationView {
            program: self.program@,
            args: self.args@.map_values(|a: String| a@),
            input: option_text(self.input),
            completion: self.completion,
        }
    }
}

/// The external program that every operation launches.
pub open spec fn program_name() -> Seq<char> {
    "bylexa"@
}

/// An invocation of the external program with one argument.
pub open spec fn invocation_of(
    arg: Seq<char>,
    input: Option<Seq<char>>,
    completion: Completion,
) -> InvocationView {
    InvocationView { program: program_name(), args: seq![arg], input, completion }
}

/// The two lines that the login subcommand reads: the email, then the password.
pub open spec fn credentials_text(email: Seq<char>, password: Seq<char>) -> Seq<char> {
    email + "\n"@ + password + "\n"@
}

pub open spec fn login_plan(email: Seq<char>, password: Seq<char>) -> InvocationView {
    invocation_of("login"@, Some(credentials_text(email, password)), Completion::WaitForExit)
}

pub open spec fn start_plan() -> InvocationView {
    invocation_of("start"@, None, Completion::WaitForExit)
}

pub open spec fn command_plan(command_type: Seq<char>) -> InvocationView {
    invocation_of(command_type, None, Completion::CollectOutput)
}

pub open spec fn shell_plan() -> InvocationView {
    invocation_of("shell"@, None, Completion::DrainStdout)
}

/// The session named by the caller plays no part: the input becomes the sole
/// argument of a fresh invocation.
pub open spec fn shell_input_plan(session_id: Seq<char>, input: Seq<char>) -> InvocationView {
    invocation_of(input, None, Completion::CollectOutput)
}

fn invocation(arg: String, input: Option<String>, completion: Completion) -> (r: Invocation)
    ensures
        r@ == invocation_of(arg@, option_text(input), completion),
{
    let mut args: Vec<String> = Vec::new();
    let ghost a = arg@;
    args.push(arg);
    let r = Invocation { program: String::from_str("bylexa"), args, input, completion };
    assert(r@.args =~= seq![a]);
    r
}

/// The login subcommand, fed the credentials on standard input.
pub fn interactive_login_plan(email: &String, password: &String) -> (r: Invocation)
    ensures
        r@ == login_plan(email@, password@),
{
    let mut text = email.clone();
    text.append("\n");
    text.append(password.as_str());
    text.append("\n");
    invocation(String::from_str("login"), Some(text), Completion::WaitForExit)
}

/// The start subcommand, with nothing written to it.
pub fn interactive_start_plan() -> (r: Invocation)
    ensures
        r@ == start_plan(),
{
    invocation(String::from_str("start"), None, Completion::WaitForExit)
}

/// The caller's command as the sole argument.
pub fn execute_command_plan(command_type: &String) -> (r: Invocation)
    ensures
        r@ == command_plan(command_type@),
{
    invocation(command_type.clone(), None, Completion::CollectOutput)
}

/// The shell subcommand, with its initial output drained.
pub fn start_interactive_shell_plan() -> (r: Invocation)
    ensures
        r@ == shell_plan(),
{
    invocation(String::from_str("shell"), None, Completion::DrainStdout)
}

/// A fresh invocation with the input as its sole argument, whatever the session.
pub fn send_shell_input_plan(session_id: &String, input: &String) -> (r: Invocation)
    ensures
        r@ == shell_input_plan(session_id@, input@),
{
    invocation(input.clone(), None, Completion::CollectOutput)
}

/// What a child that ran to its end left behind.
pub struct Captured {
    pub stdout: Vec<u8>,
    pub stderr: Vec<u8>,
    /// The exit code; `None` where the child was ended by a signal.
    pub code: Option<i32>,
    /// The platform's description of how the child ended.
    pub status: String,
}

impl Captured {
    /// Exit code 0 is success; any other code, or none, is failure.
    pub open spec fn succeeded(&self) -> bool {
        self.code == Some(0i32)
    }

    pub fn success(&self) -> (r: bool)
        ensures
            r == self.succeeded(),
    {
        match self.code {
            Some(c) => c == 0,
            None => false,
        }
    }
}

/// How far an invocation that waits for its child got.
pub enum Outcome {
    /// The program could not be launched; the description of why.
    SpawnFailed(String),
    /// The child was launched but its standard input could not be had.
    StdinUnavailable,
    /// Writing the input failed; the description of why.
    StdinFailed(String),
    /// Waiting for the child failed; the description of why.
    WaitFailed(String),
    /// The child ran to its end.
    Exited(Captured),
}

} // verus!
