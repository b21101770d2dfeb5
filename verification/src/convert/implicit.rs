//! Implicit conversion: the coercion protocol of the scripting language.
//!
//! A value that already has the tag wanted is taken as it is. Any other value
//! is sent the coercion method, which is the engine's work: the functions here
//! say when that is needed, and decide on what came back. What came back is
//! checked again: a coercion method that returns a value of another tag is a
//! type error.

use vstd::prelude::*;
use vstd::string::*;
use vstd::utf8::encode_utf8;

use crate::exception::{Error, Exception};
use crate::types::Ruby;
use crate::value::Value;

verus! {

/// The coercion methods of the protocol.
#[derive(Debug, Clone, Copy, Hash, PartialEq, Eq, Structural)]
pub enum Coercion {
    ToInt,
    ToStr,
    ToA,
    ToAry,
}

impl Coercion {
    /// The tag that the coercion must end in.
    pub open spec fn spec_target(self) -> Ruby {
        match self {
            Coercion::ToInt => Ruby::Fixnum,
            Coercion::ToStr => Ruby::String,
            Coercion::ToA => Ruby::Array,
            Coercion::ToAry => Ruby::Array,
        }
    }

    /// The tag that the coercion must end in.
    pub fn target(self) -> (tag: Ruby)
        ensures
            tag == self.spec_target(),
    {
        match self {
            Coercion::ToInt => Ruby::Fixnum,
            Coercion::ToStr => Ruby::String,
            Coercion::ToA => Ruby::Array,
            Coercion::ToAry => Ruby::Array,
        }
    }

    /// The name of the method that is sent to the value.
    pub open spec fn spec_method(self) -> Seq<char> {
        match self {
            Coercion::ToInt => "to_int"@,
            Coercion::ToStr => "to_str"@,
            Coercion::ToA => "to_a"@,
            Coercion::ToAry => "to_ary"@,
        }
    }

    /// The name of the method that is sent to the value.
    pub fn method(self) -> (name: &'static str)
        ensures
            name@ == self.spec_method(),
    {
        match self {
            Coercion::ToInt => "to_int",
            Coercion::ToStr => "to_str",
            Coercion::ToA => "to_a",
            Coercion::ToAry => "to_ary",
        }
    }

    /// The class that messages name as the goal of the coercion.
    pub open spec fn spec_class(self) -> Seq<char> {
        match self {
            Coercion::ToInt => "Integer"@,
            Coercion::ToStr => "String"@,
            Coercion::ToA => "Array"@,
            Coercion::ToAry => "Array"@,
        }
    }

    /// The class that messages name as the goal of the coercion.
    pub fn class(self) -> (name: &'static str)
        ensures
            name@ == self.spec_class(),
    {
        match self {
            Coercion::ToInt => "Integer",
            Coercion::ToStr => "String",
            Coercion::ToA => "Array",
            Coercion::ToAry => "Array",
        }
    }
}

/// What the engine answered when a coercion method was sent to a value.
#[derive(Debug, Clone, Hash)]
pub enum Reply {
    /// The value does not respond to the method.
    NoMethod,
    /// The method returned this value.
    Returned(Value),
    /// The method raised this exception.
    Raised(Exception),
}

/// How messages name the class of a value: `nil`, `true` and `false` by
/// themselves, any other value by the class name of its tag.
pub open spec fn spec_described(value: Value) -> Seq<char> {
    match value {
        Value::Nil => "nil"@,
        Value::Bool(true) => "true"@,
        Value::Bool(false) => "false"@,
        _ => value.spec_ruby_type().spec_class_name(),
    }
}

/// How messages name the class of a value.
pub fn described(value: &Value) -> (name: &'static str)
    ensures
        name@ == spec_described(*value),
{
    match value {
        Value::Nil => "nil",
        Value::Bool(true) => "true",
        Value::Bool(false) => "false",
        _ => value.ruby_type().class_name(),
    }
}

/// Whether `value` has to be sent the method of `how`: it has not the tag
/// wanted yet.
pub open spec fn spec_needs_dispatch(value: Value, how: Coercion) -> bool {
    value.spec_ruby_type() != how.spec_target()
}

/// Whether `value` has to be sent the method of `how`. Where it has not, the
/// engine is not asked, and the value is its own coercion.
pub fn needs_dispatch(value: &Value, how: Coercion) -> (needed: bool)
    ensures
        needed == spec_needs_dispatch(*value, how),
{
    value.ruby_type() != how.target()
}

/// The value that the coercion of `value` ends in, if it succeeds: `value`
/// itself where it has the tag wanted, else what the method returned, where
/// that has the tag wanted.
pub open spec fn coerced(value: Value, how: Coercion, reply: Reply) -> Option<Value> {
    if !spec_needs_dispatch(value, how) {
        Some(value)
    } else {
        match reply {
            Reply::Returned(returned) => if returned.spec_ruby_type() == how.spec_target() {
                Some(returned)
            } else {
                None
            },
            _ => None,
        }
    }
}

/// The message of the type error for a value that does not respond to the
/// coercion method.
pub open spec fn no_method_message(value: Value, how: Coercion) -> Seq<char> {
    "can't convert "@ + spec_described(value) + " into "@ + how.spec_class()
}

/// The message of the type error for a coercion method that returned a value
/// of another tag than the one wanted.
pub open spec fn mismatch_message(value: Value, how: Coercion, returned: Value) -> Seq<char> {
    "can't convert "@ + spec_described(value) + " to "@ + how.spec_class() + " ("@ + spec_described(
        value,
    ) + "#"@ + how.spec_method() + " gives "@ + spec_described(returned) + ")"@
}

/// Whether `outcome` is what the coercion of `value` by `how` comes to, given
/// the engine's answer `reply`: the value that `coerced` names, or else the
/// exception that the method raised, a type error with the message for a
/// value that does not respond, or a type error with the message for a
/// return of another tag.
pub open spec fn decides(
    value: Value,
    how: Coercion,
    reply: Reply,
    outcome: Result<Value, Error>,
) -> bool {
    match coerced(value, how, reply) {
        Some(to) => outcome == Ok::<Value, Error>(to),
        None => match reply {
            Reply::NoMethod => outcome matches Err(Error::Type(message)) && message@
                == encode_utf8(no_method_message(value, how)),
            Reply::Returned(returned) => outcome matches Err(Error::Type(message)) && message@
                == encode_utf8(mismatch_message(value, how, returned)),
            Reply::Raised(exception) => outcome == Err::<Value, Error>(Error::Raised(exception)),
        },
    }
}

/// Decides the coercion of `value` by `how`, given what the engine answered
/// to the method. For a value that has the tag wanted the answer is not
/// looked at.
///
/// The coercion succeeds with the value that `coerced` names. It fails with
/// the exception that the method raised; with a type error that names the
/// value and the goal, where the value does not respond; and with a type
/// error that also names what was returned, where that has another tag.
pub fn coerce(value: Value, how: Coercion, reply: Reply) -> (outcome: Result<Value, Error>)
    ensures
        decides(value, how, reply, outcome),
        outcome matches Ok(to) ==> to.spec_ruby_type() == how.spec_target(),
{
    if !needs_dispatch(&value, how) {
        return Ok(value);
    }
    match reply {
        Reply::NoMethod => {
            let mut message = String::from_str("can't convert ");
            message.append(described(&value));
            message.append(" into ");
            message.append(how.class());
            Err(Error::Type(message.as_str().as_bytes_vec()))
        },
        Reply::Returned(returned) => {
            if !needs_dispatch(&returned, how) {
                Ok(returned)
            } else {
                let mut message = String::from_str("can't convert ");
                message.append(described(&value));
                message.append(" to ");
                message.append(how.class());
                message.append(" (");
                message.append(described(&value));
                message.append("#");
                message.append(how.method());
                message.append(" gives ");
                message.append(described(&returned));
                message.append(")");
                Err(Error::Type(message.as_str().as_bytes_vec()))
            }
        },
        Reply::Raised(exception) => Err(Error::Raised(exception)),
    }
}

/// Decides the coercion of `value` to an integer by `to_int`.
pub fn to_int(value: Value, reply: Reply) -> (outcome: Result<Value, Error>)
    ensures
        decides(value, Coercion::ToInt, reply, outcome),
{
    coerce(value, Coercion::ToInt, reply)
}

/// Decides the coercion of `value` to a string by `to_str`.
pub fn to_str(value: Value, reply: Reply) -> (outcome: Result<Value, Error>)
    ensures
        decides(value, Coercion::ToStr, reply, outcome),
{
    coerce(value, Coercion::ToStr, reply)
}

/// Decides the coercion of `value` to an array by `to_a`.
pub fn to_a(value: Value, reply: Reply) -> (outcome: Result<Value, Error>)
    ensures
        decides(value, Coercion::ToA, reply, outcome),
{
    coerce(value, Coercion::ToA, reply)
}

/// Decides the coercion of `value` to an array by `to_ary`.
pub fn to_ary(value: Value, reply: Reply) -> (outcome: Result<Value, Error>)
    ensures
        decides(value, Coercion::ToAry, reply, outcome),
{
    coerce(value, Coercion::ToAry, reply)
}

} // verus!
