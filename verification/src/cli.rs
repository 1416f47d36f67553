//! The front-end with subcommands: `greet`, `math` and `generate`, and a
//! flag for verbose output.
//!
//! The caller parses the command line into a `Command`; `respond` decides
//! what is to be written and what is left for the caller to evaluate.

use vstd::prelude::*;
use crate::calculator::Request;
use crate::failure::{Failure, FailureModel, EXIT_FAILURE, EXIT_SUCCESS};
use crate::operator::Operator;
use crate::record::{generate, generated, TestData};
use crate::text::{append_decimal, decimal, texts};

verus! {

/// A parsed subcommand.
#[derive(Clone, Debug, PartialEq, Eq)]
pub enum Command {
    /// Greet `name`, `count` times.
    Greet { name: String, count: u8 },
    /// Evaluate one operation on two doubles, given by their bits.
    Math { operator: Operator, lhs: u64, rhs: u64 },
    /// Generate `count` records.
    Generate { count: usize },
}

/// What is to be done for a command.
#[derive(Clone, Debug, PartialEq, Eq)]
pub enum Outcome {
    /// Write these lines to standard output.
    Print { lines: Vec<String> },
    /// Evaluate the request and write its equation to standard output; the
    /// request is not a division by zero.
    Evaluate { request: Request },
    /// Write the header and each of the records to standard output.
    Show { header: String, items: Vec<TestData> },
    /// Report the failure on the error stream and exit with its status.
    Refuse { failure: Failure },
}

/// The answer to one invocation: the notice to write first, if any, and
/// what follows it.
#[derive(Clone, Debug, PartialEq, Eq)]
pub struct Response {
    pub notice: Option<String>,
    pub outcome: Outcome,
}

/// The greeting itself.
pub open spec fn greeting(name: Seq<char>) -> Seq<char> {
    "Hello, "@ + name + "!"@
}

/// The greeting line at a 1-based position: numbered when there is more
/// than one line, bare when there is only one.
pub open spec fn greeting_line(name: Seq<char>, count: nat, position: nat) -> Seq<char> {
    if count > 1 {
        decimal(position) + ". "@ + greeting(name)
    } else {
        greeting(name)
    }
}

/// All greeting lines for `count` repetitions, in order.
pub open spec fn greeting_lines_spec(name: Seq<char>, count: nat) -> Seq<Seq<char>> {
    Seq::new(count, |k: int| greeting_line(name, count, (k + 1) as nat))
}

/// The notice that the verbose flag asks for.
pub open spec fn verbose_notice() -> Seq<char> {
    "Running in verbose mode"@
}

/// The lines written when no subcommand is given.
pub open spec fn idle_lines() -> Seq<Seq<char>> {
    seq!["Test project is running successfully!"@, "Use --help for available commands."@]
}

/// The line above a batch of `count` generated records.
pub open spec fn generated_header(count: nat) -> Seq<char> {
    "Generated "@ + decimal(count) + " test items:"@
}

/// Whether `outcome` is what `command` asks for.
pub open spec fn answers(command: Option<Command>, outcome: Outcome) -> bool {
    match command {
        None => outcome matches Outcome::Print { lines } && texts(lines@) == idle_lines(),
        Some(Command::Greet { name, count }) => outcome matches Outcome::Print { lines } && texts(
            lines@,
        ) == greeting_lines_spec(name@, count as nat),
        Some(Command::Math { operator, lhs, rhs }) => if operator.undefined_on(rhs) {
            outcome matches Outcome::Refuse { failure } && failure@ == FailureModel::DivisionByZero
        } else {
            outcome == (Outcome::Evaluate { request: Request { operator, lhs, rhs } })
        },
        Some(Command::Generate { count }) => outcome matches Outcome::Show { header, items }
            && header@ == generated_header(count as nat) && generated(items@, count as nat),
    }
}

impl Outcome {
    /// The status that the process ends with: 1 where the command is
    /// refused, 0 in every other case.
    pub fn exit_status(&self) -> (status: i32)
        ensures
            status == (if self is Refuse {
                EXIT_FAILURE
            } else {
                EXIT_SUCCESS
            }),
    {
        match self {
            Outcome::Refuse { failure } => failure.exit_status(),
            _ => EXIT_SUCCESS,
        }
    }
}

/// The lines that greet `name`, `count` times: none for a count of zero,
/// one bare greeting for a count of one, numbered greetings beyond that.
pub fn greeting_lines(name: &str, count: u8) -> (lines: Vec<String>)
    ensures
        texts(lines@) == greeting_lines_spec(name@, count as nat),
{
    let mut lines: Vec<String> = Vec::new();
    let mut written: u8 = 0;
    while written < count
        invariant
            written <= count,
            lines@.len() == written,
            forall|k: int|
                0 <= k < written ==> (#[trigger] lines@[k])@ == greeting_line(
                    name@,
                    count as nat,
                    (k + 1) as nat,
                ),
        decreases count - written,
    {
        written = written + 1;
        let mut line = String::new();
        if count > 1 {
            append_decimal(&mut line, written as u64);
            line.append(". ");
        }
        line.append("Hello, ");
        line.append(name);
        line.append("!");
        lines.push(line);
    }
    lines
}

/// Decides what is to be done for one invocation.
pub fn respond(verbose: bool, command: Option<Command>) -> (response: Response)
    ensures
        match response.notice {
            Some(text) => verbose && text@ == verbose_notice(),
            None => !verbose,
        },
        answers(command, response.outcome),
{
    let notice = if verbose {
        Some(String::from_str("Running in verbose mode"))
    } else {
        None
    };
    let outcome = match command {
        None => {
            let mut lines: Vec<String> = Vec::new();
            lines.push(String::from_str("Test project is running successfully!"));
            lines.push(String::from_str("Use --help for available commands."));
            assert(texts(lines@) =~= idle_lines());
            Outcome::Print { lines }
        },
        Some(Command::Greet { name, count }) => Outcome::Print {
            lines: greeting_lines(name.as_str(), count),
        },
        Some(Command::Math { operator, lhs, rhs }) => {
            if operator.is_undefined_on(rhs) {
                Outcome::Refuse { failure: Failure::DivisionByZero }
            } else {
                Outcome::Evaluate { request: Request { operator, lhs, rhs } }
            }
        },
        Some(Command::Generate { count }) => {
            let items = generate(count);
            let mut header = String::from_str("Generated ");
            append_decimal(&mut header, items.len() as u64);
            header.append(" test items:");
            Outcome::Show { header, items }
        },
    };
    Response { notice, outcome }
}

/// Nothing that `respond` hands on for evaluation is a division by zero.
pub proof fn lemma_respond_guards(command: Option<Command>, request: Request)
    requires
        answers(command, Outcome::Evaluate { request }),
    ensures
        !request.operator.undefined_on(request.rhs),
        command == Some(
            Command::Math { operator: request.operator, lhs: request.lhs, rhs: request.rhs },
        ),
{
}

} // verus!
