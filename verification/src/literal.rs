//! Validators that accept one boolean literal each.
//!
//! [`True`] and [`False`] carry no data. Decoding one checks that the input is
//! the literal it stands for; encoding one always emits that literal.
use crate::document::Value;
use vstd::prelude::*;

verus! {

/// Why a value was not accepted as a given boolean literal.
#[derive(Clone, Copy, Debug, PartialEq, Eq)]
pub enum LiteralError {
    /// The value is not a boolean at all.
    TypeMismatch,
    /// The value is a boolean, but not the expected one.
    ValidationError { expected: bool },
}

/// What reading `value` as the boolean literal `expected` gives.
pub open spec fn literal_spec<V>(expected: bool, value: Value<V>) -> Result<(), LiteralError> {
    match value {
        Value::Bool(found) => if found == expected {
            Ok(())
        } else {
            Err(LiteralError::ValidationError { expected })
        },
        Value::Other(_) => Err(LiteralError::TypeMismatch),
    }
}

/// The text that [`LiteralError::message`] gives for each error.
pub open spec fn message_spec(error: LiteralError) -> Seq<char> {
    match error {
        LiteralError::TypeMismatch => "Expected a boolean value"@,
        LiteralError::ValidationError { expected: true } => "Expected a true value"@,
        LiteralError::ValidationError { expected: false } => "Expected a false value"@,
    }
}

impl LiteralError {
    /// A message that names the literal that was expected.
    pub fn message(&self) -> (text: String)
        ensures
            text@ == message_spec(*self),
    {
        match self {
            LiteralError::TypeMismatch => "Expected a boolean value".to_owned(),
            LiteralError::ValidationError { expected: true } => "Expected a true value".to_owned(),
            LiteralError::ValidationError { expected: false } => "Expected a false value".to_owned(),
        }
    }
}

/// Reads `value` as the boolean literal `expected`.
fn expect_literal<V>(expected: bool, value: &Value<V>) -> (outcome: Result<(), LiteralError>)
    ensures
        outcome == literal_spec(expected, *value),
{
    match value {
        Value::Bool(found) => {
            if *found == expected {
                Ok(())
            } else {
                Err(LiteralError::ValidationError { expected })
            }
        },
        Value::Other(_) => Err(LiteralError::TypeMismatch),
    }
}

/// The literal `true`, and nothing else.
#[derive(Clone, Copy, Debug, PartialEq, Eq)]
pub struct True;

/// The literal `false`, and nothing else.
#[derive(Clone, Copy, Debug, PartialEq, Eq)]
pub struct False;

impl True {
    /// Accepts `value` exactly when it is the boolean `true`.
    pub fn decode<V>(value: &Value<V>) -> (outcome: Result<True, LiteralError>)
        ensures
            outcome == match literal_spec(true, *value) {
                Ok(_) => Ok::<True, LiteralError>(True),
                Err(error) => Err(error),
            },
    {
        match expect_literal(true, value) {
            Ok(()) => Ok(True),
            Err(error) => Err(error),
        }
    }

    /// Always the boolean `true`.
    pub fn encode(&self) -> (literal: bool)
        ensures
            literal,
    {
        true
    }
}

impl False {
    /// Accepts `value` exactly when it is the boolean `false`.
    pub fn decode<V>(value: &Value<V>) -> (outcome: Result<False, LiteralError>)
        ensures
            outcome == match literal_spec(false, *value) {
                Ok(_) => Ok::<False, LiteralError>(False),
                Err(error) => Err(error),
            },
    {
        match expect_literal(false, value) {
            Ok(()) => Ok(False),
            Err(error) => Err(error),
        }
    }

    /// Always the boolean `false`.
    pub fn encode(&self) -> (literal: bool)
        ensures
            !literal,
    {
        false
    }
}

} // verus!
