use vstd::prelude::*;
use crate::errors::{
    check_argument_count, check_arguments_at_least, CheckErrors, Error, InterpreterResult,
    RuntimeErrorType, ShortReturnType,
};
use crate::types::{
    error_spec, none_spec, okay_spec, some_spec, type_of_spec, SymbolicExpression, TypeSignature, Value,
};

verus! {

/// What `unwrap!`-style forms extract: the payload of `(some x)` or `(ok x)`,
/// nothing for `none` or `(err x)`, and an error for any other value.
pub open spec fn inner_unwrap_spec(v: Value) -> InterpreterResult<Option<Value>> {
    match v {
        Value::Optional(d) => Ok(
            match d.data {
                Some(b) => Some(*b),
                None => None,
            },
        ),
        Value::Response(d) => Ok(if d.committed { Some(*d.data) } else { None }),
        _ => Err(Error::Unchecked(CheckErrors::ExpectedOptionalOrResponseValue(v))),
    }
}

/// What `unwrap-err!`-style forms extract: the payload of `(err x)`, nothing
/// for `(ok x)`, and an error for any other value.
pub open spec fn inner_unwrap_err_spec(v: Value) -> InterpreterResult<Option<Value>> {
    match v {
        Value::Response(d) => Ok(if !d.committed { Some(*d.data) } else { None }),
        _ => Err(Error::Unchecked(CheckErrors::ExpectedResponseValue(v))),
    }
}

/// Turns an extraction into a result: the payload, or `on_missing` when there is none.
pub open spec fn extracted_or(e: InterpreterResult<Option<Value>>, on_missing: Error) -> InterpreterResult<Value> {
    match e {
        Ok(Some(v)) => Ok(v),
        Ok(None) => Err(on_missing),
        Err(err) => Err(err),
    }
}

/// The error for a call with the wrong number of arguments.
pub open spec fn arg_count_error(expected: usize, found: nat) -> Error {
    Error::Unchecked(CheckErrors::IncorrectArgumentCount(expected, found as usize))
}

/// What `try!` returns: the payload of `(some x)` or `(ok x)`; an early return of
/// `none` or of the error payload otherwise.
pub open spec fn try_ret_spec(v: Value) -> InterpreterResult<Value> {
    match v {
        Value::Optional(d) => match d.data {
            Some(b) => Ok(*b),
            None => Err(Error::ShortReturn(ShortReturnType::ExpectedValue(none_spec()))),
        },
        Value::Response(d) => if d.committed {
            Ok(*d.data)
        } else {
            Err(Error::ShortReturn(ShortReturnType::ExpectedValue(*d.data)))
        },
        _ => Err(Error::Unchecked(CheckErrors::ExpectedOptionalOrResponseValue(v))),
    }
}

/// Whether a value is `(some x)`; an error for a value that is not optional.
pub open spec fn is_some_spec(v: Value) -> InterpreterResult<bool> {
    match v {
        Value::Optional(d) => Ok(d.data is Some),
        _ => Err(Error::Unchecked(CheckErrors::ExpectedOptionalValue(v))),
    }
}

/// Whether a value is `(ok x)`; an error for a value that is not a response.
pub open spec fn is_okay_spec(v: Value) -> InterpreterResult<bool> {
    match v {
        Value::Response(d) => Ok(d.committed),
        _ => Err(Error::Unchecked(CheckErrors::ExpectedResponseValue(v))),
    }
}

/// Applies `f` to a boolean result, passing errors through.
pub open spec fn bool_result(r: InterpreterResult<bool>, negate: bool) -> InterpreterResult<Value> {
    match r {
        Ok(b) => Ok(Value::Bool(if negate { !b } else { b })),
        Err(e) => Err(e),
    }
}

/// What `default-to` returns: the payload of `(some x)`, the default for `none`.
pub open spec fn default_to_spec(default: Value, input: Value) -> InterpreterResult<Value> {
    match input {
        Value::Optional(d) => match d.data {
            Some(b) => Ok(*b),
            None => Ok(default),
        },
        _ => Err(Error::Unchecked(CheckErrors::ExpectedOptionalValue(input))),
    }
}

fn inner_unwrap(to_unwrap: Value) -> (r: InterpreterResult<Option<Value>>)
    ensures
        r == inner_unwrap_spec(to_unwrap),
{
    match to_unwrap {
        Value::Optional(data) => match data.data {
            Some(data) => Ok(Some(*data)),
            None => Ok(None),
        },
        Value::Response(data) => {
            if data.committed {
                Ok(Some(*data.data))
            } else {
                Ok(None)
            }
        },
        _ => Err(Error::Unchecked(CheckErrors::ExpectedOptionalOrResponseValue(to_unwrap))),
    }
}

fn inner_unwrap_err(to_unwrap: Value) -> (r: InterpreterResult<Option<Value>>)
    ensures
        r == inner_unwrap_err_spec(to_unwrap),
{
    match to_unwrap {
        Value::Response(data) => {
            if !data.committed {
                Ok(Some(*data.data))
            } else {
                Ok(None)
            }
        },
        _ => Err(Error::Unchecked(CheckErrors::ExpectedResponseValue(to_unwrap))),
    }
}

fn or_fail(e: InterpreterResult<Option<Value>>, on_missing: Error) -> (r: InterpreterResult<Value>)
    ensures
        r == extracted_or(e, on_missing),
{
    match e {
        Ok(Some(v)) => Ok(v),
        Ok(None) => Err(on_missing),
        Err(err) => Err(err),
    }
}

/// `(unwrap-panic x)`: the payload of `(some v)` or `(ok v)`.
pub fn native_unwrap(args: Vec<Value>) -> (r: InterpreterResult<Value>)
    ensures
        args@.len() != 1 ==> r == Err::<Value, Error>(arg_count_error(1, args@.len())),
        args@.len() == 1 ==> r == extracted_or(
            inner_unwrap_spec(args@[0]),
            Error::Runtime(RuntimeErrorType::UnwrapFailure),
        ),
{
    let mut args = args;
    match check_argument_count(1, &args) {
        Err(e) => return Err(e),
        Ok(()) => {},
    }
    let input = args.pop().unwrap();
    or_fail(inner_unwrap(input), Error::Runtime(RuntimeErrorType::UnwrapFailure))
}

/// `(unwrap! x thrown)`: the payload of `(some v)` or `(ok v)`, else an early return of `thrown`.
pub fn native_unwrap_or_ret(args: Vec<Value>) -> (r: InterpreterResult<Value>)
    ensures
        args@.len() != 2 ==> r == Err::<Value, Error>(arg_count_error(2, args@.len())),
        args@.len() == 2 ==> r == extracted_or(
            inner_unwrap_spec(args@[0]),
            Error::ShortReturn(ShortReturnType::ExpectedValue(args@[1])),
        ),
{
    let mut args = args;
    match check_argument_count(2, &args) {
        Err(e) => return Err(e),
        Ok(()) => {},
    }
    let thrown = args.pop().unwrap();
    let input = args.pop().unwrap();
    or_fail(inner_unwrap(input), Error::ShortReturn(ShortReturnType::ExpectedValue(thrown)))
}

/// `(unwrap-err-panic x)`: the payload of `(err v)`.
pub fn native_unwrap_err(args: Vec<Value>) -> (r: InterpreterResult<Value>)
    ensures
        args@.len() != 1 ==> r == Err::<Value, Error>(arg_count_error(1, args@.len())),
        args@.len() == 1 ==> r == extracted_or(
            inner_unwrap_err_spec(args@[0]),
            Error::Runtime(RuntimeErrorType::UnwrapFailure),
        ),
{
    let mut args = args;
    match check_argument_count(1, &args) {
        Err(e) => return Err(e),
        Ok(()) => {},
    }
    let input = args.pop().unwrap();
    or_fail(inner_unwrap_err(input), Error::Runtime(RuntimeErrorType::UnwrapFailure))
}

/// `(unwrap-err! x thrown)`: the payload of `(err v)`, else an early return of `thrown`.
pub fn native_unwrap_err_or_ret(args: Vec<Value>) -> (r: InterpreterResult<Value>)
    ensures
        args@.len() != 2 ==> r == Err::<Value, Error>(arg_count_error(2, args@.len())),
        args@.len() == 2 ==> r == extracted_or(
            inner_unwrap_err_spec(args@[0]),
            Error::ShortReturn(ShortReturnType::ExpectedValue(args@[1])),
        ),
{
    let mut args = args;
    match check_argument_count(2, &args) {
        Err(e) => return Err(e),
        Ok(()) => {},
    }
    let thrown = args.pop().unwrap();
    let input = args.pop().unwrap();
    or_fail(inner_unwrap_err(input), Error::ShortReturn(ShortReturnType::ExpectedValue(thrown)))
}

/// `(try! x)`: the payload of `(some v)` or `(ok v)`, else an early return of
/// `none` or of the error payload.
pub fn native_try_ret(args: Vec<Value>) -> (r: InterpreterResult<Value>)
    ensures
        args@.len() != 1 ==> r == Err::<Value, Error>(arg_count_error(1, args@.len())),
        args@.len() == 1 ==> r == try_ret_spec(args@[0]),
{
    let mut args = args;
    match check_argument_count(1, &args) {
        Err(e) => return Err(e),
        Ok(()) => {},
    }
    let input = args.pop().unwrap();
    match input {
        Value::Optional(data) => match data.data {
            Some(data) => Ok(*data),
            None => Err(Error::ShortReturn(ShortReturnType::ExpectedValue(Value::none()))),
        },
        Value::Response(data) => {
            if data.committed {
                Ok(*data.data)
            } else {
                Err(Error::ShortReturn(ShortReturnType::ExpectedValue(*data.data)))
            }
        },
        _ => Err(Error::Unchecked(CheckErrors::ExpectedOptionalOrResponseValue(input))),
    }
}

/// `(some x)`.
pub fn native_some(args: Vec<Value>) -> (r: InterpreterResult<Value>)
    ensures
        args@.len() != 1 ==> r == Err::<Value, Error>(arg_count_error(1, args@.len())),
        args@.len() == 1 ==> r == Ok::<Value, Error>(some_spec(args@[0])),
{
    let mut args = args;
    match check_argument_count(1, &args) {
        Err(e) => return Err(e),
        Ok(()) => {},
    }
    Ok(Value::some(args.pop().unwrap()))
}

fn is_some(args: Vec<Value>) -> (r: InterpreterResult<bool>)
    ensures
        args@.len() != 1 ==> r == Err::<bool, Error>(arg_count_error(1, args@.len())),
        args@.len() == 1 ==> r == is_some_spec(args@[0]),
{
    let mut args = args;
    match check_argument_count(1, &args) {
        Err(e) => return Err(e),
        Ok(()) => {},
    }
    let input = args.pop().unwrap();
    match input {
        Value::Optional(ref data) => Ok(data.data.is_some()),
        _ => Err(Error::Unchecked(CheckErrors::ExpectedOptionalValue(input))),
    }
}

fn is_okay(args: Vec<Value>) -> (r: InterpreterResult<bool>)
    ensures
        args@.len() != 1 ==> r == Err::<bool, Error>(arg_count_error(1, args@.len())),
        args@.len() == 1 ==> r == is_okay_spec(args@[0]),
{
    let mut args = args;
    match check_argument_count(1, &args) {
        Err(e) => return Err(e),
        Ok(()) => {},
    }
    let input = args.pop().unwrap();
    match input {
        Value::Response(data) => Ok(data.committed),
        _ => Err(Error::Unchecked(CheckErrors::ExpectedResponseValue(input))),
    }
}

fn to_bool_value(r: InterpreterResult<bool>, negate: bool) -> (out: InterpreterResult<Value>)
    ensures
        out == bool_result(r, negate),
{
    match r {
        Ok(b) => Ok(Value::Bool(if negate { !b } else { b })),
        Err(e) => Err(e),
    }
}

/// `(is-some x)`.
pub fn native_is_some(args: Vec<Value>) -> (r: InterpreterResult<Value>)
    ensures
        args@.len() != 1 ==> r == Err::<Value, Error>(arg_count_error(1, args@.len())),
        args@.len() == 1 ==> r == bool_result(is_some_spec(args@[0]), false),
{
    to_bool_value(is_some(args), false)
}

/// `(is-none x)`.
pub fn native_is_none(args: Vec<Value>) -> (r: InterpreterResult<Value>)
    ensures
        args@.len() != 1 ==> r == Err::<Value, Error>(arg_count_error(1, args@.len())),
        args@.len() == 1 ==> r == bool_result(is_some_spec(args@[0]), true),
{
    to_bool_value(is_some(args), true)
}

/// `(is-ok x)`.
pub fn native_is_okay(args: Vec<Value>) -> (r: InterpreterResult<Value>)
    ensures
        args@.len() != 1 ==> r == Err::<Value, Error>(arg_count_error(1, args@.len())),
        args@.len() == 1 ==> r == bool_result(is_okay_spec(args@[0]), false),
{
    to_bool_value(is_okay(args), false)
}

/// `(is-err x)`.
pub fn native_is_err(args: Vec<Value>) -> (r: InterpreterResult<Value>)
    ensures
        args@.len() != 1 ==> r == Err::<Value, Error>(arg_count_error(1, args@.len())),
        args@.len() == 1 ==> r == bool_result(is_okay_spec(args@[0]), true),
{
    to_bool_value(is_okay(args), true)
}

/// `(ok x)`.
pub fn native_okay(args: Vec<Value>) -> (r: InterpreterResult<Value>)
    ensures
        args@.len() != 1 ==> r == Err::<Value, Error>(arg_count_error(1, args@.len())),
        args@.len() == 1 ==> r == Ok::<Value, Error>(okay_spec(args@[0])),
{
    let mut args = args;
    match check_argument_count(1, &args) {
        Err(e) => return Err(e),
        Ok(()) => {},
    }
    let input = args.pop().unwrap();
    Ok(Value::okay(input))
}

/// `(err x)`.
pub fn native_error(args: Vec<Value>) -> (r: InterpreterResult<Value>)
    ensures
        args@.len() != 1 ==> r == Err::<Value, Error>(arg_count_error(1, args@.len())),
        args@.len() == 1 ==> r == Ok::<Value, Error>(error_spec(args@[0])),
{
    let mut args = args;
    match check_argument_count(1, &args) {
        Err(e) => return Err(e),
        Ok(()) => {},
    }
    let input = args.pop().unwrap();
    Ok(Value::error(input))
}

/// `(default-to default x)`: the payload of `(some v)`, else `default`.
pub fn native_default_to(args: Vec<Value>) -> (r: InterpreterResult<Value>)
    ensures
        args@.len() != 2 ==> r == Err::<Value, Error>(arg_count_error(2, args@.len())),
        args@.len() == 2 ==> r == default_to_spec(args@[0], args@[1]),
{
    let mut args = args;
    match check_argument_count(2, &args) {
        Err(e) => return Err(e),
        Ok(()) => {},
    }
    let input = args.pop().unwrap();
    let default = args.pop().unwrap();
    match input {
        Value::Optional(data) => match data.data {
            Some(data) => Ok(*data),
            None => Ok(default),
        },
        _ => Err(Error::Unchecked(CheckErrors::ExpectedOptionalValue(input))),
    }
}

/// A name bound to a value while a `match` branch is evaluated.
#[derive(Debug, PartialEq, Eq)]
pub struct Binding {
    pub name: String,
    pub value: Value,
}

/// The branch of a `match` form to evaluate: the argument at index `branch`,
/// with `binding` in scope when there is one.
#[derive(Debug, PartialEq, Eq)]
pub struct MatchBranch {
    pub branch: usize,
    pub binding: Option<Binding>,
}

/// Whether an argument of a `match` form is a bare name.
pub open spec fn is_name(e: SymbolicExpression) -> bool {
    e is Atom
}

/// The branch a `match` form takes on an optional input, whose form has the
/// arguments `args` (the input expression first).
pub open spec fn match_opt_spec(d: Option<Box<Value>>, args: Seq<SymbolicExpression>) -> InterpreterResult<MatchBranch> {
    if args.len() != 4 {
        Err(Error::Unchecked(CheckErrors::BadMatchOptionSyntax(
            Box::new(CheckErrors::IncorrectArgumentCount(4, args.len() as usize)),
        )))
    } else if !is_name(args[1]) {
        Err(Error::Unchecked(CheckErrors::BadMatchOptionSyntax(Box::new(CheckErrors::ExpectedName))))
    } else {
        match d {
            Some(b) => Ok(MatchBranch { branch: 2, binding: Some(Binding { name: args[1]->Atom_0, value: *b }) }),
            None => Ok(MatchBranch { branch: 3, binding: None }),
        }
    }
}

/// The branch a `match` form takes on a response input.
pub open spec fn match_resp_spec(committed: bool, data: Value, args: Seq<SymbolicExpression>) -> InterpreterResult<MatchBranch> {
    if args.len() != 5 {
        Err(Error::Unchecked(CheckErrors::BadMatchResponseSyntax(
            Box::new(CheckErrors::IncorrectArgumentCount(5, args.len() as usize)),
        )))
    } else if !is_name(args[1]) || !is_name(args[3]) {
        Err(Error::Unchecked(CheckErrors::BadMatchResponseSyntax(Box::new(CheckErrors::ExpectedName))))
    } else if committed {
        Ok(MatchBranch { branch: 2, binding: Some(Binding { name: args[1]->Atom_0, value: data }) })
    } else {
        Ok(MatchBranch { branch: 4, binding: Some(Binding { name: args[3]->Atom_0, value: data }) })
    }
}

/// The branch a `match` form with arguments `args` takes, once its first
/// argument has evaluated to `input`.
pub open spec fn match_spec(args: Seq<SymbolicExpression>, input: Value) -> InterpreterResult<MatchBranch> {
    if args.len() < 1 {
        Err(Error::Unchecked(CheckErrors::RequiresAtLeastArguments(1, args.len() as usize)))
    } else {
        match input {
            Value::Response(d) => match_resp_spec(d.committed, *d.data, args),
            Value::Optional(d) => match_opt_spec(d.data, args),
            _ => Err(Error::Unchecked(CheckErrors::BadMatchInput(type_of_spec(input)))),
        }
    }
}

fn special_match_opt(data: Option<Box<Value>>, args: &Vec<SymbolicExpression>) -> (r: InterpreterResult<MatchBranch>)
    ensures
        r == match_opt_spec(data, args@),
{
    if args.len() != 4 {
        return Err(Error::Unchecked(CheckErrors::BadMatchOptionSyntax(
            Box::new(CheckErrors::IncorrectArgumentCount(4, args.len())),
        )));
    }
    let bind_name = match args[1].match_atom() {
        Some(name) => name.clone(),
        None => {
            return Err(Error::Unchecked(CheckErrors::BadMatchOptionSyntax(Box::new(CheckErrors::ExpectedName))));
        },
    };
    match data {
        Some(data) => Ok(MatchBranch { branch: 2, binding: Some(Binding { name: bind_name, value: *data }) }),
        None => Ok(MatchBranch { branch: 3, binding: None }),
    }
}

fn special_match_resp(committed: bool, data: Value, args: &Vec<SymbolicExpression>) -> (r: InterpreterResult<MatchBranch>)
    ensures
        r == match_resp_spec(committed, data, args@),
{
    if args.len() != 5 {
        return Err(Error::Unchecked(CheckErrors::BadMatchResponseSyntax(
            Box::new(CheckErrors::IncorrectArgumentCount(5, args.len())),
        )));
    }
    let ok_bind_name = match args[1].match_atom() {
        Some(name) => name.clone(),
        None => {
            return Err(Error::Unchecked(CheckErrors::BadMatchResponseSyntax(Box::new(CheckErrors::ExpectedName))));
        },
    };
    let err_bind_name = match args[3].match_atom() {
        Some(name) => name.clone(),
        None => {
            return Err(Error::Unchecked(CheckErrors::BadMatchResponseSyntax(Box::new(CheckErrors::ExpectedName))));
        },
    };
    if committed {
        Ok(MatchBranch { branch: 2, binding: Some(Binding { name: ok_bind_name, value: data }) })
    } else {
        Ok(MatchBranch { branch: 4, binding: Some(Binding { name: err_bind_name, value: data }) })
    }
}

/// `(match input ...)`: given the form's arguments and the value its first
/// argument evaluated to, picks the branch to evaluate and the name to bind.
/// The caller evaluates `args[branch]` with the binding in scope.
pub fn special_match(args: &Vec<SymbolicExpression>, input: Value) -> (r: InterpreterResult<MatchBranch>)
    ensures
        r == match_spec(args@, input),
{
    match check_arguments_at_least(1, args) {
        Err(e) => return Err(e),
        Ok(()) => {},
    }
    match input {
        Value::Response(data) => special_match_resp(data.committed, *data.data, args),
        Value::Optional(data) => special_match_opt(data.data, args),
        _ => Err(Error::Unchecked(CheckErrors::BadMatchInput(TypeSignature::type_of(&input)))),
    }
}

} // verus!
