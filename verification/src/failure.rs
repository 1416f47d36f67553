//! What can be wrong with an invocation, and how it is reported.
//!
//! Every failure is found before anything is evaluated; it is reported on
//! the error stream and ends the process with status 1.

use vstd::prelude::*;

verus! {

/// A reason to refuse an invocation.
#[derive(Clone, Debug, PartialEq, Eq)]
pub enum Failure {
    /// The number of arguments is wrong; `program` is the name that the
    /// program was started under.
    Usage { program: String },
    /// An operand does not read as a number.
    InvalidNumber { literal: String },
    /// The operator token is none of the four symbols.
    UnknownOperator { token: String },
    /// A division whose right operand is zero.
    DivisionByZero,
}

/// A failure with its texts as sequences of characters: what a `Failure`
/// is in contracts.
pub ghost enum FailureModel {
    Usage { program: Seq<char> },
    InvalidNumber { literal: Seq<char> },
    UnknownOperator { token: Seq<char> },
    DivisionByZero,
}

impl View for Failure {
    type V = FailureModel;

    open spec fn view(&self) -> FailureModel {
        match *self {
            Failure::Usage { program } => FailureModel::Usage { program: program@ },
            Failure::InvalidNumber { literal } => FailureModel::InvalidNumber { literal: literal@ },
            Failure::UnknownOperator { token } => FailureModel::UnknownOperator { token: token@ },
            Failure::DivisionByZero => FailureModel::DivisionByZero,
        }
    }
}

impl FailureModel {
    /// The lines that report the failure, in order.
    pub open spec fn lines(self) -> Seq<Seq<char>> {
        match self {
            FailureModel::Usage { program } => seq![
                "Usage: "@ + program + " <number1> <operator> <number2>"@,
                "Operators: +, -, *, /"@,
                "Example: "@ + program + " 5 + 3"@,
            ],
            FailureModel::InvalidNumber { literal } => seq![
                "Error: '"@ + literal + "' is not a valid number"@,
            ],
            FailureModel::UnknownOperator { token } => seq![
                "Error: Unknown operator '"@ + token + "'"@,
                "Supported operators: +, -, *, /"@,
            ],
            FailureModel::DivisionByZero => seq!["Error: Division by zero!"@],
        }
    }
}

/// The exit status of an invocation that was carried out.
pub const EXIT_SUCCESS: i32 = 0;

/// The exit status of a refused invocation.
pub const EXIT_FAILURE: i32 = 1;

impl Failure {
    /// The lines to write to the error stream, in order.
    pub fn lines(&self) -> (lines: Vec<String>)
        ensures
            crate::text::texts(lines@) == self@.lines(),
    {
        let mut lines: Vec<String> = Vec::new();
        match self {
            Failure::Usage { program } => {
                let mut usage = String::from_str("Usage: ");
                usage.append(program.as_str());
                usage.append(" <number1> <operator> <number2>");
                let mut example = String::from_str("Example: ");
                example.append(program.as_str());
                example.append(" 5 + 3");
                lines.push(usage);
                lines.push(String::from_str("Operators: +, -, *, /"));
                lines.push(example);
            },
            Failure::InvalidNumber { literal } => {
                let mut line = String::from_str("Error: '");
                line.append(literal.as_str());
                line.append("' is not a valid number");
                lines.push(line);
            },
            Failure::UnknownOperator { token } => {
                let mut line = String::from_str("Error: Unknown operator '");
                line.append(token.as_str());
                line.append("'");
                lines.push(line);
                lines.push(String::from_str("Supported operators: +, -, *, /"));
            },
            Failure::DivisionByZero => {
                lines.push(String::from_str("Error: Division by zero!"));
            },
        }
        lines
    }

    /// The status that the process ends with: 1, whatever the failure.
    pub fn exit_status(&self) -> (status: i32)
        ensures
            status == EXIT_FAILURE,
    {
        EXIT_FAILURE
    }
}

} // verus!
