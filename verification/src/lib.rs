//! The rules of a small command-line calculator, verified.
//!
//! Two front-ends share this library: a positional one (`<a> <op> <b>`) and
//! one with subcommands. Reading arguments, printing and the arithmetic on
//! doubles are the caller's part; every decision in between is made here.

pub mod operator;
pub mod text;
pub mod double;
pub mod failure;
pub mod calculator;
pub mod record;
pub mod cli;
