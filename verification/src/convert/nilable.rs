//! Values that may be absent: `nil` stands for none.

use vstd::prelude::*;

use crate::convert::Convert;
use crate::interp::Artichoke;
use crate::value::Value;

verus! {

impl Convert<Option<Value>, Value> for Artichoke {
    open spec fn converts(&self, from: Option<Value>, to: Value) -> bool {
        to == match from {
            Some(value) => value,
            None => Value::Nil,
        }
    }

    fn convert(&self, from: Option<Value>) -> (to: Value) {
        match from {
            Some(value) => value,
            None => Value::Nil,
        }
    }
}

impl Convert<Value, Option<Value>> for Artichoke {
    open spec fn converts(&self, from: Value, to: Option<Value>) -> bool {
        to == match from {
            Value::Nil => None,
            value => Some(value),
        }
    }

    fn convert(&self, from: Value) -> (to: Option<Value>) {
        match from {
            Value::Nil => None,
            value => Some(value),
        }
    }
}

/// A value that may be absent comes back as it was, unless it was `nil`
/// itself, which comes back as none.
pub proof fn round_trip_nilable(
    interp: Artichoke,
    x: Option<Value>,
    boxed: Value,
    back: Option<Value>,
)
    requires
        x != Some(Value::Nil),
        Convert::<Option<Value>, Value>::converts(&interp, x, boxed),
        Convert::<Value, Option<Value>>::converts(&interp, boxed, back),
    ensures
        back == x,
{
}

} // verus!
