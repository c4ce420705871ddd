//! The parent's side of the script sandbox. A script runs in a process of
//! its own; what is decided here is what the end of that process means and
//! which text stands for it in the rendered template.

use crate::text::from_chars;
use vstd::prelude::*;

verus! {

/// The exit code by which the sandbox says that the script ran out of time.
pub const TIMEOUT_EXIT_CODE: i32 = 100;

/// The exit code by which the sandbox says that the script crashed.
pub const CRASH_EXIT_CODE: i32 = 128;

pub const TIMEOUT_TEXT: &'static str = "Script Error: Timeout";

pub const CRASH_TEXT: &'static str = "Script Error: Crash";

pub const IO_TEXT: &'static str = "Script Error: IO";

/// Why a script gave no result.
#[derive(Clone, Copy, Debug, PartialEq, Eq)]
pub enum ScriptRunnerError {
    Timeout,
    Crash,
    IO,
}

/// What came of running a script in the sandbox.
#[derive(Debug)]
pub enum SandboxOutput {
    /// The process could not be started, or its output could not be read.
    Failed,
    /// The process ended: its exit code, or none where a signal ended it,
    /// and what it wrote to its standard output.
    Exited(Option<i32>, Vec<u8>),
}

/// The text that bytes stand for, each byte one character of the same code.
pub open spec fn bytes_text(bytes: Seq<u8>) -> Seq<char> {
    bytes.map_values(|b: u8| b as char)
}

/// What the end of the sandbox process means. The two distinguished exit
/// codes are the timeout and the crash; a process that a signal ended has
/// crashed; with any other exit code the output is the result.
pub open spec fn evaluation(output: SandboxOutput) -> Result<Seq<char>, ScriptRunnerError> {
    match output {
        SandboxOutput::Failed => Err(ScriptRunnerError::IO),
        SandboxOutput::Exited(None, _) => Err(ScriptRunnerError::Crash),
        SandboxOutput::Exited(Some(code), stdout) => if code == TIMEOUT_EXIT_CODE {
            Err(ScriptRunnerError::Timeout)
        } else if code == CRASH_EXIT_CODE {
            Err(ScriptRunnerError::Crash)
        } else {
            Ok(bytes_text(stdout@))
        },
    }
}

/// The text that stands for a script in the rendered template: its result,
/// or the name of what went wrong.
pub open spec fn sandbox_text(output: SandboxOutput) -> Seq<char> {
    match evaluation(output) {
        Ok(result) => result,
        Err(ScriptRunnerError::Timeout) => TIMEOUT_TEXT@,
        Err(ScriptRunnerError::Crash) => CRASH_TEXT@,
        Err(ScriptRunnerError::IO) => IO_TEXT@,
    }
}

/// What the end of the sandbox process means.
pub fn eval(output: &SandboxOutput) -> (r: Result<String, ScriptRunnerError>)
    ensures
        match evaluation(*output) {
            Ok(text) => r is Ok && r->Ok_0@ == text,
            Err(e) => r == Err::<String, ScriptRunnerError>(e),
        },
{
    match output {
        SandboxOutput::Failed => Err(ScriptRunnerError::IO),
        SandboxOutput::Exited(None, _) => Err(ScriptRunnerError::Crash),
        SandboxOutput::Exited(Some(code), stdout) => {
            if *code == TIMEOUT_EXIT_CODE {
                Err(ScriptRunnerError::Timeout)
            } else if *code == CRASH_EXIT_CODE {
                Err(ScriptRunnerError::Crash)
            } else {
                let mut chars: Vec<char> = Vec::new();
                let mut i: usize = 0;
                while i < stdout.len()
                    invariant
                        i <= stdout.len(),
                        chars@ == bytes_text(stdout@.subrange(0, i as int)),
                    decreases stdout.len() - i,
                {
                    chars.push(stdout[i] as char);
                    i = i + 1;
                    assert(chars@ =~= bytes_text(stdout@.subrange(0, i as int)));
                }
                assert(stdout@.subrange(0, i as int) =~= stdout@);
                Ok(from_chars(&chars))
            }
        },
    }
}

/// The text that stands for a script in the rendered template, given what
/// came of running it in the sandbox.
pub fn run(output: &SandboxOutput) -> (r: String)
    ensures
        r@ == sandbox_text(*output),
{
    match eval(output) {
        Ok(result) => result,
        Err(e) => match e {
            ScriptRunnerError::Timeout => TIMEOUT_TEXT.to_string(),
            ScriptRunnerError::Crash => CRASH_TEXT.to_string(),
            ScriptRunnerError::IO => IO_TEXT.to_string(),
        },
    }
}

/// A script never fails the rendering: whatever came of the sandbox, there
/// is a text for it, and a timeout is told as such.
pub proof fn lemma_timeout_is_told(stdout: Vec<u8>)
    ensures
        sandbox_text(SandboxOutput::Exited(Some(TIMEOUT_EXIT_CODE), stdout)) == TIMEOUT_TEXT@,
        sandbox_text(SandboxOutput::Exited(Some(CRASH_EXIT_CODE), stdout)) == CRASH_TEXT@,
        sandbox_text(SandboxOutput::Exited(None, stdout)) == CRASH_TEXT@,
        sandbox_text(SandboxOutput::Failed) == IO_TEXT@,
{
}

} // verus!
