//! Booleans: immediates, boxed and unboxed without touching the heap.

use vstd::prelude::*;

use crate::convert::{Convert, TryConvert, UnboxRubyError};
use crate::exception::Error;
use crate::interp::Artichoke;
use crate::types::Rust;
use crate::value::Value;

verus! {

impl Convert<bool, Value> for Artichoke {
    open spec fn converts(&self, from: bool, to: Value) -> bool {
        to == Value::Bool(from)
    }

    fn convert(&self, from: bool) -> (to: Value) {
        Value::Bool(from)
    }
}

impl Convert<Option<bool>, Value> for Artichoke {
    open spec fn converts(&self, from: Option<bool>, to: Value) -> bool {
        to == match from {
            Some(boolean) => Value::Bool(boolean),
            None => Value::Nil,
        }
    }

    fn convert(&self, from: Option<bool>) -> (to: Value) {
        match from {
            Some(boolean) => Value::Bool(boolean),
            None => Value::Nil,
        }
    }
}

impl TryConvert<Value, bool> for Artichoke {
    type Error = Error;

    open spec fn try_converts(&self, from: Value, to: Result<bool, Error>) -> bool {
        match from {
            Value::Bool(boolean) => to == Ok::<bool, Error>(boolean),
            _ => to == Err::<bool, Error>(
                Error::Unbox(UnboxRubyError { from: from.spec_ruby_type(), into: Rust::Bool }),
            ),
        }
    }

    fn try_convert(&self, from: Value) -> (to: Result<bool, Error>) {
        match from {
            Value::Bool(boolean) => Ok(boolean),
            _ => Err(Error::Unbox(UnboxRubyError::new(&from, Rust::Bool))),
        }
    }
}

impl TryConvert<Value, Option<bool>> for Artichoke {
    type Error = Error;

    open spec fn try_converts(&self, from: Value, to: Result<Option<bool>, Error>) -> bool {
        match from {
            Value::Nil => to == Ok::<Option<bool>, Error>(None),
            Value::Bool(boolean) => to == Ok::<Option<bool>, Error>(Some(boolean)),
            _ => to == Err::<Option<bool>, Error>(
                Error::Unbox(UnboxRubyError { from: from.spec_ruby_type(), into: Rust::Bool }),
            ),
        }
    }

    fn try_convert(&self, from: Value) -> (to: Result<Option<bool>, Error>) {
        match from {
            Value::Nil => Ok(None),
            Value::Bool(boolean) => Ok(Some(boolean)),
            _ => Err(Error::Unbox(UnboxRubyError::new(&from, Rust::Bool))),
        }
    }
}

/// A boolean that is boxed and unboxed again is the boolean it was.
pub proof fn round_trip_bool(interp: Artichoke, x: bool, boxed: Value, back: Result<bool, Error>)
    requires
        Convert::<bool, Value>::converts(&interp, x, boxed),
        TryConvert::<Value, bool>::try_converts(&interp, boxed, back),
    ensures
        back == Ok::<bool, Error>(x),
{
}

/// The same for a boolean that may be absent, where `nil` stands for none.
pub proof fn round_trip_nilable_bool(
    interp: Artichoke,
    x: Option<bool>,
    boxed: Value,
    back: Result<Option<bool>, Error>,
)
    requires
        Convert::<Option<bool>, Value>::converts(&interp, x, boxed),
        TryConvert::<Value, Option<bool>>::try_converts(&interp, boxed, back),
    ensures
        back == Ok::<Option<bool>, Error>(x),
{
}

} // verus!
