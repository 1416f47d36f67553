//! The four operations, the symbols that select them, and the one case in
//! which an operation has no result.

use vstd::prelude::*;
use crate::double::{is_zero, zero};

verus! {

/// One of the four binary operations.
#[derive(Clone, Copy, Debug, PartialEq, Eq, Structural)]
pub enum Operator {
    Add,
    Subtract,
    Multiply,
    Divide,
}

impl Operator {
    /// The character that stands for the operation in an equation.
    pub open spec fn symbol_spec(self) -> char {
        match self {
            Operator::Add => '+',
            Operator::Subtract => '-',
            Operator::Multiply => '*',
            Operator::Divide => '/',
        }
    }

    /// The operation that a token selects: the token must be exactly one of
    /// the four symbols.
    pub open spec fn from_symbol_spec(token: Seq<char>) -> Option<Operator> {
        if token.len() != 1 {
            None
        } else if token[0] == '+' {
            Some(Operator::Add)
        } else if token[0] == '-' {
            Some(Operator::Subtract)
        } else if token[0] == '*' {
            Some(Operator::Multiply)
        } else if token[0] == '/' {
            Some(Operator::Divide)
        } else {
            None
        }
    }

    /// Whether the operation has no result on a right operand with the given
    /// bits: only a division by positive or negative zero.
    pub open spec fn undefined_on(self, rhs: u64) -> bool {
        self == Operator::Divide && zero(rhs)
    }

    /// How an equation reads: both operands, the symbol between them, and the
    /// result behind an equals sign, set apart by single spaces.
    pub open spec fn equation_spec(
        self,
        lhs: Seq<char>,
        rhs: Seq<char>,
        result: Seq<char>,
    ) -> Seq<char> {
        lhs + seq![' ', self.symbol_spec(), ' '] + rhs + seq![' ', '=', ' '] + result
    }

    /// Returns the operation's symbol as a text of one character.
    pub fn symbol(self) -> (text: &'static str)
        ensures
            text@ == seq![self.symbol_spec()],
    {
        proof {
            reveal_strlit("+");
            reveal_strlit("-");
            reveal_strlit("*");
            reveal_strlit("/");
        }
        let text: &'static str = match self {
            Operator::Add => "+",
            Operator::Subtract => "-",
            Operator::Multiply => "*",
            Operator::Divide => "/",
        };
        text
    }

    /// Resolves an operator token; `None` for anything but `+`, `-`, `*`, `/`.
    pub fn from_symbol(token: &str) -> (found: Option<Operator>)
        ensures
            found == Self::from_symbol_spec(token@),
    {
        if token.unicode_len() != 1 {
            return None;
        }
        let c: char = token.get_char(0);
        if c == '+' {
            Some(Operator::Add)
        } else if c == '-' {
            Some(Operator::Subtract)
        } else if c == '*' {
            Some(Operator::Multiply)
        } else if c == '/' {
            Some(Operator::Divide)
        } else {
            None
        }
    }

    /// The guard that both front-ends apply before they evaluate: tells
    /// whether the operation is a division whose right operand is zero.
    pub fn is_undefined_on(self, rhs: u64) -> (refused: bool)
        ensures
            refused == self.undefined_on(rhs),
    {
        match self {
            Operator::Divide => is_zero(rhs),
            _ => false,
        }
    }

    /// Lays out `<lhs> <symbol> <rhs> = <result>` from the three numbers as
    /// they are to be shown.
    pub fn equation(self, lhs: &str, rhs: &str, result: &str) -> (line: String)
        ensures
            line@ == self.equation_spec(lhs@, rhs@, result@),
    {
        proof {
            reveal_strlit(" ");
            reveal_strlit(" = ");
        }
        let mut line = String::from_str(lhs);
        line.append(" ");
        line.append(self.symbol());
        line.append(" ");
        line.append(rhs);
        line.append(" = ");
        line.append(result);
        line
    }
}

/// A symbol selects the operation that it belongs to, and no other token
/// selects that operation.
pub proof fn lemma_symbol_round_trip(operator: Operator, token: Seq<char>)
    ensures
        Operator::from_symbol_spec(seq![operator.symbol_spec()]) == Some(operator),
        Operator::from_symbol_spec(token) == Some(operator) ==> token == seq![
            operator.symbol_spec(),
        ],
{
}

} // verus!
