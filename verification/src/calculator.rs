//! The positional front-end: `<program> <number1> <operator> <number2>`.
//!
//! The caller reads the arguments and tries to read the two operands as
//! doubles; `interpret` decides from that what the invocation asks for, or
//! why it is refused.

use vstd::prelude::*;
use crate::failure::{Failure, FailureModel, EXIT_FAILURE, EXIT_SUCCESS};
use crate::operator::Operator;
use crate::text::texts;

verus! {

/// One operation to evaluate, its operands given by their bits.
#[derive(Clone, Copy, Debug, PartialEq, Eq, Structural)]
pub struct Request {
    pub operator: Operator,
    pub lhs: u64,
    pub rhs: u64,
}

/// What an invocation comes to. `args` holds the program's name and the
/// arguments behind it; `first` and `second` are the bits of the doubles
/// that the two operands read as, and `None` for one that does not read as
/// a number. The checks are made in this order, and the first that fails
/// decides: the number of arguments, the first operand, the second operand,
/// the operator, and the divisor of a division.
pub open spec fn interpret_spec(
    args: Seq<Seq<char>>,
    first: Option<u64>,
    second: Option<u64>,
) -> Result<Request, FailureModel>
    recommends
        args.len() >= 1,
{
    if args.len() != 4 {
        Err(FailureModel::Usage { program: args[0] })
    } else if first is None {
        Err(FailureModel::InvalidNumber { literal: args[1] })
    } else if second is None {
        Err(FailureModel::InvalidNumber { literal: args[3] })
    } else {
        match Operator::from_symbol_spec(args[2]) {
            None => Err(FailureModel::UnknownOperator { token: args[2] }),
            Some(operator) => if operator.undefined_on(second->0) {
                Err(FailureModel::DivisionByZero)
            } else {
                Ok(Request { operator, lhs: first->0, rhs: second->0 })
            },
        }
    }
}

/// A result of `interpret` with the failure taken by its view.
pub open spec fn verdict(result: Result<Request, Failure>) -> Result<Request, FailureModel> {
    match result {
        Ok(request) => Ok(request),
        Err(failure) => Err(failure@),
    }
}

/// Decides what an invocation asks for. `args[0]` is the program's name;
/// `first` and `second` are what the caller read `args[1]` and `args[3]`
/// as, and are not looked at unless there are exactly four arguments.
pub fn interpret(args: &Vec<String>, first: Option<u64>, second: Option<u64>) -> (result: Result<
    Request,
    Failure,
>)
    requires
        args@.len() >= 1,
    ensures
        verdict(result) == interpret_spec(texts(args@), first, second),
{
    if args.len() != 4 {
        return Err(Failure::Usage { program: args[0].clone() });
    }
    let lhs: u64 = match first {
        Some(bits) => bits,
        None => {
            return Err(Failure::InvalidNumber { literal: args[1].clone() });
        },
    };
    let rhs: u64 = match second {
        Some(bits) => bits,
        None => {
            return Err(Failure::InvalidNumber { literal: args[3].clone() });
        },
    };
    match Operator::from_symbol(args[2].as_str()) {
        None => Err(Failure::UnknownOperator { token: args[2].clone() }),
        Some(operator) => {
            if operator.is_undefined_on(rhs) {
                Err(Failure::DivisionByZero)
            } else {
                Ok(Request { operator, lhs, rhs })
            }
        },
    }
}

/// The status that the process ends with: 0 after a request, 1 after a
/// failure.
pub fn exit_status(result: &Result<Request, Failure>) -> (status: i32)
    ensures
        status == (if result is Ok {
            EXIT_SUCCESS
        } else {
            EXIT_FAILURE
        }),
{
    match result {
        Ok(_) => EXIT_SUCCESS,
        Err(failure) => failure.exit_status(),
    }
}

/// No request that `interpret` lets through is a division by zero, and a
/// refused invocation is never passed on for evaluation.
pub proof fn lemma_interpret_guards(
    args: Seq<Seq<char>>,
    first: Option<u64>,
    second: Option<u64>,
)
    ensures
        interpret_spec(args, first, second) matches Ok(request) ==> {
            &&& !request.operator.undefined_on(request.rhs)
            &&& args.len() == 4
            &&& first == Some(request.lhs)
            &&& second == Some(request.rhs)
            &&& Operator::from_symbol_spec(args[2]) == Some(request.operator)
        },
{
}

} // verus!
