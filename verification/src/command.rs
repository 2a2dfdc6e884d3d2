//! A command to be run, and what its ending means.

use crate::text::decoded;
use vstd::prelude::*;

verus! {

/// One command line, with what is to be done with the child's standard
/// streams.
#[derive(Debug, Clone, PartialEq, Eq)]
pub struct Invocation {
    /// The program to start.
    pub program: String,
    /// Its arguments, in order.
    pub args: Vec<String>,
    /// Whether the child's standard output is collected rather than passed
    /// through to the terminal.
    pub capture: bool,
    /// Bytes to write to the child's standard input before waiting for it.
    pub input: Option<Vec<u8>>,
}

/// An [`Invocation`] as plain text and bytes.
pub ghost struct InvocationView {
    pub program: Seq<char>,
    pub args: Seq<Seq<char>>,
    pub capture: bool,
    pub input: Option<Seq<u8>>,
}

/// The text of each string of `strings`, in order.
pub open spec fn texts(strings: Seq<String>) -> Seq<Seq<char>> {
    strings.map_values(|s: String| s@)
}

impl View for Invocation {
    type V = InvocationView;

    open spec fn view(&self) -> InvocationView {
        InvocationView {
            program: self.program@,
            args: texts(self.args@),
            capture: self.capture,
            input: match self.input {
                Some(bytes) => Some(bytes@),
                None => None,
            },
        }
    }
}

/// The invocation that runs `program` on `args` with its output passed
/// through and nothing written to its input.
pub open spec fn plain(program: Seq<char>, args: Seq<Seq<char>>) -> InvocationView {
    InvocationView { program, args, capture: false, input: None }
}

/// The invocation that runs `program` on `args` and collects its output.
pub open spec fn capturing(
    program: Seq<char>,
    args: Seq<Seq<char>>,
    input: Option<Seq<u8>>,
) -> InvocationView {
    InvocationView { program, args, capture: true, input }
}

/// Why a command counts as failed: it ran and did not exit with success.
#[derive(Debug, Clone, PartialEq, Eq)]
pub struct Failure {
    /// The program that was run.
    pub command: String,
    /// The exit status, as the system describes it.
    pub status: String,
    /// What the command wrote to its standard output, where that was
    /// collected and is text.
    pub output: Option<String>,
}

/// A [`Failure`] as plain text.
pub ghost struct FailureView {
    pub command: Seq<char>,
    pub status: Seq<char>,
    pub output: Option<Seq<char>>,
}

impl View for Failure {
    type V = FailureView;

    open spec fn view(&self) -> FailureView {
        FailureView {
            command: self.command@,
            status: self.status@,
            output: match self.output {
                Some(text) => Some(text@),
                None => None,
            },
        }
    }
}

/// The failure of `command` with exit status `status`.  The output is
/// reported only where it was collected and is well-formed UTF-8.
pub open spec fn failure_of(
    command: Seq<char>,
    capture: bool,
    status: Seq<char>,
    stdout: Seq<u8>,
) -> FailureView {
    FailureView {
        command,
        status,
        output: if capture {
            decoded(stdout)
        } else {
            None
        },
    }
}

/// The one-line report of a failure.
pub open spec fn failure_message(failure: FailureView) -> Seq<char> {
    "Command "@ + failure.command + " exited with exit status "@ + failure.status
        + match failure.output {
        Some(text) => " and output "@ + text,
        None => Seq::empty(),
    }
}

impl Failure {
    /// The one-line report of this failure.
    pub fn message(&self) -> (line: String)
        ensures
            line@ == failure_message(self@),
    {
        let mut line = String::from_str("Command ");
        line.append(self.command.as_str());
        line.append(" exited with exit status ");
        line.append(self.status.as_str());
        match &self.output {
            Some(text) => {
                line.append(" and output ");
                line.append(text.as_str());
                assert(line@ =~= failure_message(self@));
            },
            None => {
                assert(line@ =~= failure_message(self@));
            },
        }
        line
    }
}

impl Invocation {
    /// A command whose output goes to the terminal and whose input stays
    /// empty.
    pub fn plain(program: &str, args: Vec<String>) -> (invocation: Invocation)
        ensures
            invocation@ == plain(program@, texts(args@)),
    {
        Invocation { program: program.to_owned(), args, capture: false, input: None }
    }

    /// A command whose output is collected, and which is fed `input` where
    /// there is any.
    pub fn capturing(program: &str, args: Vec<String>, input: Option<Vec<u8>>) -> (invocation:
        Invocation)
        ensures
            invocation@ == capturing(
                program@,
                texts(args@),
                match input {
                    Some(bytes) => Some(bytes@),
                    None => None,
                },
            ),
    {
        Invocation { program: program.to_owned(), args, capture: true, input }
    }

    /// Judges the command once it has ended.  `success` says whether it
    /// exited with success, `status` describes the exit status, and `stdout`
    /// is what was collected of its output (empty where nothing was).
    ///
    /// A command that succeeded hands its output on unchanged; any other
    /// ending is a [`Failure`].
    pub fn conclude(&self, success: bool, status: &str, stdout: Vec<u8>) -> (outcome: Result<
        Vec<u8>,
        Failure,
    >)
        ensures
            success ==> outcome == Ok::<Vec<u8>, Failure>(stdout),
            !success ==> outcome is Err && outcome->Err_0@ == failure_of(
                self.program@,
                self.capture,
                status@,
                stdout@,
            ),
    {
        if success {
            return Ok(stdout);
        }
        let output = if self.capture {
            match String::from_utf8(stdout) {
                Ok(text) => Some(text),
                Err(_) => None,
            }
        } else {
            None
        };
        Err(Failure { command: self.program.clone(), status: status.to_owned(), output })
    }
}

/// The command to go on with once command `done` of a plan of `length`
/// commands has ended well: the one after it, where there is one.
pub open spec fn due_after(length: nat, done: nat) -> Option<usize> {
    if done + 1 < length {
        Some((done + 1) as usize)
    } else {
        None
    }
}

/// The command of `plan` to start with: the first, unless the plan is
/// empty.
pub fn first(plan: &Vec<Invocation>) -> (due: Option<usize>)
    ensures
        due == if plan@.len() > 0 {
            Some(0usize)
        } else {
            None
        },
{
    if plan.len() > 0 {
        Some(0)
    } else {
        None
    }
}

/// What follows when command `done` of `plan` has ended with `outcome`.  A
/// command that failed ends the plan with its failure, whatever would have
/// come after it.  One that succeeded leads to the next command, or to the
/// end of the plan where it was the last.
pub fn proceed(plan: &Vec<Invocation>, done: usize, outcome: Result<Vec<u8>, Failure>) -> (next:
    Result<Option<usize>, Failure>)
    ensures
        match outcome {
            Ok(_) => next == Ok::<Option<usize>, Failure>(
                due_after(plan@.len(), done as nat),
            ),
            Err(failure) => next == Err::<Option<usize>, Failure>(failure),
        },
{
    match outcome {
        Ok(_) => {
            if done < plan.len() && done + 1 < plan.len() {
                Ok(Some(done + 1))
            } else {
                Ok(None)
            }
        },
        Err(failure) => Err(failure),
    }
}

} // verus!
