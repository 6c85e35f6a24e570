use stacks_testnet::errors::{CheckErrors, Error, RuntimeErrorType, ShortReturnType};
use stacks_testnet::options::{
    native_default_to, native_error, native_is_err, native_is_none, native_is_okay, native_is_some,
    native_okay, native_some, native_try_ret, native_unwrap, native_unwrap_err,
    native_unwrap_err_or_ret, native_unwrap_or_ret, special_match, Binding, MatchBranch,
};
use stacks_testnet::types::{SymbolicExpression, TypeSignature, Value};

fn ival(i: i128) -> Value {
    Value::Int(i)
}

fn atom(s: &str) -> SymbolicExpression {
    SymbolicExpression::Atom(s.to_string())
}

fn lit(v: Value) -> SymbolicExpression {
    SymbolicExpression::AtomValue(v)
}

#[test]
fn unwrap_some_and_ok() {
    assert_eq!(native_unwrap(vec![Value::some(ival(1))]), Ok(ival(1)));
    assert_eq!(native_unwrap(vec![Value::okay(ival(2))]), Ok(ival(2)));
}

#[test]
fn unwrap_none_and_err_fail() {
    assert_eq!(native_unwrap(vec![Value::none()]), Err(Error::Runtime(RuntimeErrorType::UnwrapFailure)));
    assert_eq!(native_unwrap(vec![Value::error(ival(3))]), Err(Error::Runtime(RuntimeErrorType::UnwrapFailure)));
}

#[test]
fn unwrap_wrong_kind_and_count() {
    assert_eq!(
        native_unwrap(vec![Value::Bool(true)]),
        Err(Error::Unchecked(CheckErrors::ExpectedOptionalOrResponseValue(Value::Bool(true))))
    );
    assert_eq!(native_unwrap(vec![]), Err(Error::Unchecked(CheckErrors::IncorrectArgumentCount(1, 0))));
    assert_eq!(
        native_unwrap(vec![ival(1), ival(2)]),
        Err(Error::Unchecked(CheckErrors::IncorrectArgumentCount(1, 2)))
    );
}

#[test]
fn unwrap_or_ret_returns_thrown() {
    assert_eq!(native_unwrap_or_ret(vec![Value::some(ival(5)), ival(9)]), Ok(ival(5)));
    assert_eq!(
        native_unwrap_or_ret(vec![Value::none(), ival(9)]),
        Err(Error::ShortReturn(ShortReturnType::ExpectedValue(ival(9))))
    );
    assert_eq!(
        native_unwrap_or_ret(vec![Value::error(ival(1)), ival(9)]),
        Err(Error::ShortReturn(ShortReturnType::ExpectedValue(ival(9))))
    );
    assert_eq!(
        native_unwrap_or_ret(vec![Value::none()]),
        Err(Error::Unchecked(CheckErrors::IncorrectArgumentCount(2, 1)))
    );
}

#[test]
fn unwrap_err_takes_error_payload() {
    assert_eq!(native_unwrap_err(vec![Value::error(ival(4))]), Ok(ival(4)));
    assert_eq!(native_unwrap_err(vec![Value::okay(ival(4))]), Err(Error::Runtime(RuntimeErrorType::UnwrapFailure)));
    assert_eq!(
        native_unwrap_err(vec![Value::some(ival(4))]),
        Err(Error::Unchecked(CheckErrors::ExpectedResponseValue(Value::some(ival(4)))))
    );
}

#[test]
fn unwrap_err_or_ret_returns_thrown() {
    assert_eq!(native_unwrap_err_or_ret(vec![Value::error(ival(4)), ival(0)]), Ok(ival(4)));
    assert_eq!(
        native_unwrap_err_or_ret(vec![Value::okay(ival(4)), ival(0)]),
        Err(Error::ShortReturn(ShortReturnType::ExpectedValue(ival(0))))
    );
}

#[test]
fn try_ret_cases() {
    assert_eq!(native_try_ret(vec![Value::some(ival(1))]), Ok(ival(1)));
    assert_eq!(native_try_ret(vec![Value::okay(ival(2))]), Ok(ival(2)));
    assert_eq!(
        native_try_ret(vec![Value::none()]),
        Err(Error::ShortReturn(ShortReturnType::ExpectedValue(Value::none())))
    );
    assert_eq!(
        native_try_ret(vec![Value::error(ival(7))]),
        Err(Error::ShortReturn(ShortReturnType::ExpectedValue(ival(7))))
    );
    assert_eq!(
        native_try_ret(vec![Value::UInt(3)]),
        Err(Error::Unchecked(CheckErrors::ExpectedOptionalOrResponseValue(Value::UInt(3))))
    );
}

#[test]
fn constructors() {
    assert_eq!(native_some(vec![ival(1)]), Ok(Value::some(ival(1))));
    assert_eq!(native_okay(vec![ival(1)]), Ok(Value::okay(ival(1))));
    assert_eq!(native_error(vec![ival(1)]), Ok(Value::error(ival(1))));
    assert_eq!(native_some(vec![]), Err(Error::Unchecked(CheckErrors::IncorrectArgumentCount(1, 0))));
    assert_ne!(Value::okay(ival(1)), Value::error(ival(1)));
}

#[test]
fn predicates() {
    assert_eq!(native_is_some(vec![Value::some(ival(1))]), Ok(Value::Bool(true)));
    assert_eq!(native_is_some(vec![Value::none()]), Ok(Value::Bool(false)));
    assert_eq!(native_is_none(vec![Value::none()]), Ok(Value::Bool(true)));
    assert_eq!(native_is_okay(vec![Value::okay(ival(1))]), Ok(Value::Bool(true)));
    assert_eq!(native_is_err(vec![Value::okay(ival(1))]), Ok(Value::Bool(false)));
    assert_eq!(native_is_err(vec![Value::error(ival(1))]), Ok(Value::Bool(true)));
    assert_eq!(
        native_is_some(vec![Value::okay(ival(1))]),
        Err(Error::Unchecked(CheckErrors::ExpectedOptionalValue(Value::okay(ival(1)))))
    );
    assert_eq!(
        native_is_okay(vec![Value::none()]),
        Err(Error::Unchecked(CheckErrors::ExpectedResponseValue(Value::none())))
    );
}

#[test]
fn default_to_cases() {
    assert_eq!(native_default_to(vec![ival(0), Value::some(ival(8))]), Ok(ival(8)));
    assert_eq!(native_default_to(vec![ival(0), Value::none()]), Ok(ival(0)));
    assert_eq!(
        native_default_to(vec![ival(0), Value::okay(ival(8))]),
        Err(Error::Unchecked(CheckErrors::ExpectedOptionalValue(Value::okay(ival(8)))))
    );
    assert_eq!(
        native_default_to(vec![ival(0)]),
        Err(Error::Unchecked(CheckErrors::IncorrectArgumentCount(2, 1)))
    );
}

#[test]
fn match_optional_branches() {
    let args = vec![lit(Value::none()), atom("x"), lit(ival(1)), lit(ival(2))];
    assert_eq!(
        special_match(&args, Value::some(ival(5))),
        Ok(MatchBranch { branch: 2, binding: Some(Binding { name: "x".to_string(), value: ival(5) }) })
    );
    assert_eq!(special_match(&args, Value::none()), Ok(MatchBranch { branch: 3, binding: None }));
}

#[test]
fn match_response_branches() {
    let args = vec![lit(Value::none()), atom("a"), lit(ival(1)), atom("b"), lit(ival(2))];
    assert_eq!(
        special_match(&args, Value::okay(ival(5))),
        Ok(MatchBranch { branch: 2, binding: Some(Binding { name: "a".to_string(), value: ival(5) }) })
    );
    assert_eq!(
        special_match(&args, Value::error(ival(6))),
        Ok(MatchBranch { branch: 4, binding: Some(Binding { name: "b".to_string(), value: ival(6) }) })
    );
}

#[test]
fn match_errors() {
    assert_eq!(
        special_match(&vec![], Value::none()),
        Err(Error::Unchecked(CheckErrors::RequiresAtLeastArguments(1, 0)))
    );
    let args = vec![lit(ival(1)), atom("x"), lit(ival(1)), lit(ival(2))];
    assert_eq!(
        special_match(&args, Value::Bool(false)),
        Err(Error::Unchecked(CheckErrors::BadMatchInput(TypeSignature::BoolType)))
    );
    assert_eq!(
        special_match(&args, Value::okay(ival(1))),
        Err(Error::Unchecked(CheckErrors::BadMatchResponseSyntax(Box::new(
            CheckErrors::IncorrectArgumentCount(5, 4)
        ))))
    );
    let short = vec![lit(ival(1)), atom("x"), lit(ival(1))];
    assert_eq!(
        special_match(&short, Value::none()),
        Err(Error::Unchecked(CheckErrors::BadMatchOptionSyntax(Box::new(
            CheckErrors::IncorrectArgumentCount(4, 3)
        ))))
    );
    let unnamed = vec![lit(ival(1)), lit(ival(0)), lit(ival(1)), lit(ival(2))];
    assert_eq!(
        special_match(&unnamed, Value::none()),
        Err(Error::Unchecked(CheckErrors::BadMatchOptionSyntax(Box::new(CheckErrors::ExpectedName))))
    );
    let resp_unnamed = vec![lit(ival(1)), atom("a"), lit(ival(1)), lit(ival(3)), lit(ival(2))];
    assert_eq!(
        special_match(&resp_unnamed, Value::okay(ival(1))),
        Err(Error::Unchecked(CheckErrors::BadMatchResponseSyntax(Box::new(CheckErrors::ExpectedName))))
    );
}
