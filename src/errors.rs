use vstd::prelude::*;
use crate::types::Value;

verus! {

/// Errors that a type checker would have caught before evaluation.
#[derive(Debug, PartialEq, Eq)]
pub enum CheckErrors {
    IncorrectArgumentCount(usize, usize),
    RequiresAtLeastArguments(usize, usize),
    ExpectedOptionalValue(Value),
    ExpectedResponseValue(Value),
    ExpectedOptionalOrResponseValue(Value),
    BadMatchInput(crate::types::TypeSignature),
    BadMatchOptionSyntax(Box<CheckErrors>),
    BadMatchResponseSyntax(Box<CheckErrors>),
    ExpectedName,
}

/// Errors raised while a well-typed program runs.
#[derive(Debug, PartialEq, Eq)]
pub enum RuntimeErrorType {
    UnwrapFailure,
}

/// Early exits that carry the value the enclosing function returns.
#[derive(Debug, PartialEq, Eq)]
pub enum ShortReturnType {
    ExpectedValue(Value),
}

/// Everything evaluation can stop with.
#[derive(Debug, PartialEq, Eq)]
pub enum Error {
    Unchecked(CheckErrors),
    Runtime(RuntimeErrorType),
    ShortReturn(ShortReturnType),
}

pub type InterpreterResult<T> = Result<T, Error>;

/// Fails with `IncorrectArgumentCount(expected, found)` unless exactly `expected` arguments are given.
pub fn check_argument_count<T>(expected: usize, args: &Vec<T>) -> (r: InterpreterResult<()>)
    ensures
        args@.len() == expected ==> r == Ok::<(), Error>(()),
        args@.len() != expected ==> r == Err::<(), Error>(
            Error::Unchecked(CheckErrors::IncorrectArgumentCount(expected, args@.len() as usize)),
        ),
{
    if args.len() != expected {
        Err(Error::Unchecked(CheckErrors::IncorrectArgumentCount(expected, args.len())))
    } else {
        Ok(())
    }
}

/// Fails with `RequiresAtLeastArguments(expected, found)` when fewer than `expected` arguments are given.
pub fn check_arguments_at_least<T>(expected: usize, args: &Vec<T>) -> (r: InterpreterResult<()>)
    ensures
        args@.len() >= expected ==> r == Ok::<(), Error>(()),
        args@.len() < expected ==> r == Err::<(), Error>(
            Error::Unchecked(CheckErrors::RequiresAtLeastArguments(expected, args@.len() as usize)),
        ),
{
    if args.len() < expected {
        Err(Error::Unchecked(CheckErrors::RequiresAtLeastArguments(expected, args.len())))
    } else {
        Ok(())
    }
}

} // verus!
