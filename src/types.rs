use vstd::prelude::*;

verus! {

/// The payload of an optional value: `(some x)` or `none`.
#[derive(Debug, PartialEq, Eq)]
pub struct OptionalData {
    pub data: Option<Box<Value>>,
}

/// The payload of a response value: `(ok x)` when committed, `(err x)` otherwise.
#[derive(Debug, PartialEq, Eq)]
pub struct ResponseData {
    pub committed: bool,
    pub data: Box<Value>,
}

/// A value of the contract language, as far as the option and response natives see it.
#[derive(Debug, PartialEq, Eq)]
pub enum Value {
    Int(i128),
    UInt(u128),
    Bool(bool),
    Optional(OptionalData),
    Response(ResponseData),
}

/// An expression of the contract language, as far as `match` reads its arguments.
#[derive(Debug, PartialEq, Eq)]
pub enum SymbolicExpression {
    Atom(String),
    AtomValue(Value),
    List(Vec<SymbolicExpression>),
}

impl SymbolicExpression {
    /// The name, when the expression is a bare atom.
    pub fn match_atom(&self) -> (r: Option<&String>)
        ensures
            match *self {
                SymbolicExpression::Atom(name) => r == Some(&name),
                _ => r is None,
            },
    {
        match self {
            SymbolicExpression::Atom(name) => Some(name),
            _ => None,
        }
    }
}

/// The type of a value, as reported when a value of the wrong kind is matched on.
#[derive(Debug, PartialEq, Eq)]
pub enum TypeSignature {
    IntType,
    UIntType,
    BoolType,
    OptionalType,
    ResponseType,
}

/// The type tag of a value.
pub open spec fn type_of_spec(v: Value) -> TypeSignature {
    match v {
        Value::Int(_) => TypeSignature::IntType,
        Value::UInt(_) => TypeSignature::UIntType,
        Value::Bool(_) => TypeSignature::BoolType,
        Value::Optional(_) => TypeSignature::OptionalType,
        Value::Response(_) => TypeSignature::ResponseType,
    }
}

/// `(some v)` in the model.
pub open spec fn some_spec(v: Value) -> Value {
    Value::Optional(OptionalData { data: Some(Box::new(v)) })
}

/// `none` in the model.
pub open spec fn none_spec() -> Value {
    Value::Optional(OptionalData { data: None })
}

/// `(ok v)` in the model.
pub open spec fn okay_spec(v: Value) -> Value {
    Value::Response(ResponseData { committed: true, data: Box::new(v) })
}

/// `(err v)` in the model.
pub open spec fn error_spec(v: Value) -> Value {
    Value::Response(ResponseData { committed: false, data: Box::new(v) })
}

impl TypeSignature {
    pub fn type_of(v: &Value) -> (r: TypeSignature)
        ensures
            r == type_of_spec(*v),
    {
        match v {
            Value::Int(_) => TypeSignature::IntType,
            Value::UInt(_) => TypeSignature::UIntType,
            Value::Bool(_) => TypeSignature::BoolType,
            Value::Optional(_) => TypeSignature::OptionalType,
            Value::Response(_) => TypeSignature::ResponseType,
        }
    }
}

impl Value {
    pub fn some(v: Value) -> (r: Value)
        ensures
            r == some_spec(v),
    {
        Value::Optional(OptionalData { data: Some(Box::new(v)) })
    }

    pub fn none() -> (r: Value)
        ensures
            r == none_spec(),
    {
        Value::Optional(OptionalData { data: None })
    }

    pub fn okay(v: Value) -> (r: Value)
        ensures
            r == okay_spec(v),
    {
        Value::Response(ResponseData { committed: true, data: Box::new(v) })
    }

    pub fn error(v: Value) -> (r: Value)
        ensures
            r == error_spec(v),
    {
        Value::Response(ResponseData { committed: false, data: Box::new(v) })
    }
}

} // verus!
