//! Integers: immediates, boxed and unboxed without touching the heap.

use vstd::prelude::*;

use crate::convert::{BoxIntoRubyError, Convert, TryConvert, UnboxRubyError};
use crate::exception::Error;
use crate::interp::Artichoke;
use crate::types::{Ruby, Rust};
use crate::value::Value;

verus! {

impl Convert<i64, Value> for Artichoke {
    open spec fn converts(&self, from: i64, to: Value) -> bool {
        to == Value::Fixnum(from)
    }

    fn convert(&self, from: i64) -> (to: Value) {
        Value::Fixnum(from)
    }
}

impl Convert<Option<i64>, Value> for Artichoke {
    open spec fn converts(&self, from: Option<i64>, to: Value) -> bool {
        to == match from {
            Some(integer) => Value::Fixnum(integer),
            None => Value::Nil,
        }
    }

    fn convert(&self, from: Option<i64>) -> (to: Value) {
        match from {
            Some(integer) => Value::Fixnum(integer),
            None => Value::Nil,
        }
    }
}

impl TryConvert<Value, i64> for Artichoke {
    type Error = Error;

    open spec fn try_converts(&self, from: Value, to: Result<i64, Error>) -> bool {
        match from {
            Value::Fixnum(integer) => to == Ok::<i64, Error>(integer),
            _ => to == Err::<i64, Error>(
                Error::Unbox(UnboxRubyError { from: from.spec_ruby_type(), into: Rust::SignedInt }),
            ),
        }
    }

    fn try_convert(&self, from: Value) -> (to: Result<i64, Error>) {
        match from {
            Value::Fixnum(integer) => Ok(integer),
            _ => Err(Error::Unbox(UnboxRubyError::new(&from, Rust::SignedInt))),
        }
    }
}

impl TryConvert<Value, Option<i64>> for Artichoke {
    type Error = Error;

    open spec fn try_converts(&self, from: Value, to: Result<Option<i64>, Error>) -> bool {
        match from {
            Value::Nil => to == Ok::<Option<i64>, Error>(None),
            Value::Fixnum(integer) => to == Ok::<Option<i64>, Error>(Some(integer)),
            _ => to == Err::<Option<i64>, Error>(
                Error::Unbox(UnboxRubyError { from: from.spec_ruby_type(), into: Rust::SignedInt }),
            ),
        }
    }

    fn try_convert(&self, from: Value) -> (to: Result<Option<i64>, Error>) {
        match from {
            Value::Nil => Ok(None),
            Value::Fixnum(integer) => Ok(Some(integer)),
            _ => Err(Error::Unbox(UnboxRubyError::new(&from, Rust::SignedInt))),
        }
    }
}

impl Convert<i32, Value> for Artichoke {
    open spec fn converts(&self, from: i32, to: Value) -> bool {
        to == Value::Fixnum(from as i64)
    }

    fn convert(&self, from: i32) -> (to: Value) {
        Value::Fixnum(from as i64)
    }
}

impl Convert<u32, Value> for Artichoke {
    open spec fn converts(&self, from: u32, to: Value) -> bool {
        to == Value::Fixnum(from as i64)
    }

    fn convert(&self, from: u32) -> (to: Value) {
        Value::Fixnum(from as i64)
    }
}

impl TryConvert<u64, Value> for Artichoke {
    type Error = Error;

    /// An integer of the engine is signed: a native integer above its range
    /// cannot be boxed.
    open spec fn try_converts(&self, from: u64, to: Result<Value, Error>) -> bool {
        if from <= i64::MAX {
            to == Ok::<Value, Error>(Value::Fixnum(from as i64))
        } else {
            to == Err::<Value, Error>(
                Error::BoxInto(BoxIntoRubyError { from: Rust::UnsignedInt, into: Ruby::Fixnum }),
            )
        }
    }

    fn try_convert(&self, from: u64) -> (to: Result<Value, Error>) {
        if from <= i64::MAX as u64 {
            Ok(Value::Fixnum(from as i64))
        } else {
            Err(Error::BoxInto(BoxIntoRubyError::new(Rust::UnsignedInt, Ruby::Fixnum)))
        }
    }
}

impl TryConvert<Value, i32> for Artichoke {
    type Error = Error;

    /// The integer is narrowed only where it fits; it is never wrapped or cut.
    open spec fn try_converts(&self, from: Value, to: Result<i32, Error>) -> bool {
        match from {
            Value::Fixnum(integer) if i32::MIN <= integer <= i32::MAX => to == Ok::<i32, Error>(
                integer as i32,
            ),
            _ => to == Err::<i32, Error>(
                Error::Unbox(UnboxRubyError { from: from.spec_ruby_type(), into: Rust::SignedInt }),
            ),
        }
    }

    fn try_convert(&self, from: Value) -> (to: Result<i32, Error>) {
        if let Value::Fixnum(integer) = from {
            if i32::MIN as i64 <= integer && integer <= i32::MAX as i64 {
                return Ok(integer as i32);
            }
        }
        Err(Error::Unbox(UnboxRubyError::new(&from, Rust::SignedInt)))
    }
}

impl TryConvert<Value, u32> for Artichoke {
    type Error = Error;

    /// The integer is narrowed only where it fits; it is never wrapped or cut.
    open spec fn try_converts(&self, from: Value, to: Result<u32, Error>) -> bool {
        match from {
            Value::Fixnum(integer) if 0 <= integer <= u32::MAX => to == Ok::<u32, Error>(
                integer as u32,
            ),
            _ => to == Err::<u32, Error>(
                Error::Unbox(
                    UnboxRubyError { from: from.spec_ruby_type(), into: Rust::UnsignedInt },
                ),
            ),
        }
    }

    fn try_convert(&self, from: Value) -> (to: Result<u32, Error>) {
        if let Value::Fixnum(integer) = from {
            if 0 <= integer && integer <= u32::MAX as i64 {
                return Ok(integer as u32);
            }
        }
        Err(Error::Unbox(UnboxRubyError::new(&from, Rust::UnsignedInt)))
    }
}

impl TryConvert<Value, u64> for Artichoke {
    type Error = Error;

    /// A negative integer has no unsigned form.
    open spec fn try_converts(&self, from: Value, to: Result<u64, Error>) -> bool {
        match from {
            Value::Fixnum(integer) if 0 <= integer => to == Ok::<u64, Error>(integer as u64),
            _ => to == Err::<u64, Error>(
                Error::Unbox(
                    UnboxRubyError { from: from.spec_ruby_type(), into: Rust::UnsignedInt },
                ),
            ),
        }
    }

    fn try_convert(&self, from: Value) -> (to: Result<u64, Error>) {
        if let Value::Fixnum(integer) = from {
            if 0 <= integer {
                return Ok(integer as u64);
            }
        }
        Err(Error::Unbox(UnboxRubyError::new(&from, Rust::UnsignedInt)))
    }
}

/// An integer that is boxed and unboxed again is the integer it was.
pub proof fn round_trip_fixnum(interp: Artichoke, x: i64, boxed: Value, back: Result<i64, Error>)
    requires
        Convert::<i64, Value>::converts(&interp, x, boxed),
        TryConvert::<Value, i64>::try_converts(&interp, boxed, back),
    ensures
        back == Ok::<i64, Error>(x),
{
}

/// The same for an integer that may be absent, where `nil` stands for none.
pub proof fn round_trip_nilable_fixnum(
    interp: Artichoke,
    x: Option<i64>,
    boxed: Value,
    back: Result<Option<i64>, Error>,
)
    requires
        Convert::<Option<i64>, Value>::converts(&interp, x, boxed),
        TryConvert::<Value, Option<i64>>::try_converts(&interp, boxed, back),
    ensures
        back == Ok::<Option<i64>, Error>(x),
{
}

/// The same for the narrower signed integers.
pub proof fn round_trip_i32(interp: Artichoke, x: i32, boxed: Value, back: Result<i32, Error>)
    requires
        Convert::<i32, Value>::converts(&interp, x, boxed),
        TryConvert::<Value, i32>::try_converts(&interp, boxed, back),
    ensures
        back == Ok::<i32, Error>(x),
{
}

/// The same for the narrower unsigned integers.
pub proof fn round_trip_u32(interp: Artichoke, x: u32, boxed: Value, back: Result<u32, Error>)
    requires
        Convert::<u32, Value>::converts(&interp, x, boxed),
        TryConvert::<Value, u32>::try_converts(&interp, boxed, back),
    ensures
        back == Ok::<u32, Error>(x),
{
}

/// An unsigned integer that can be boxed comes back as it was; one that
/// cannot is refused when it is boxed.
pub proof fn round_trip_u64(
    interp: Artichoke,
    x: u64,
    boxed: Result<Value, Error>,
    back: Result<u64, Error>,
)
    requires
        TryConvert::<u64, Value>::try_converts(&interp, x, boxed),
        boxed matches Ok(value) ==> TryConvert::<Value, u64>::try_converts(&interp, value, back),
    ensures
        x <= i64::MAX ==> boxed is Ok && back == Ok::<u64, Error>(x),
        x > i64::MAX ==> boxed is Err,
{
}

} // verus!
