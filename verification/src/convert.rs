//! The conversion protocol between native values and boxed ones, and the two
//! errors it fails with.
//!
//! A conversion is infallible or fallible, and pure or allowed to change the
//! interpreter (to allocate a heap object, say). Whoever converts infallibly
//! also converts fallibly, and then never fails.

use vstd::prelude::*;
use vstd::string::*;

pub mod array;
pub mod boolean;
pub mod bytes;
pub mod fixnum;
pub mod implicit;
pub mod nilable;

use vstd::utf8::encode_utf8;

use crate::exception::Error;
use crate::interp::Artichoke;
use crate::types::{Ruby, Rust};
use crate::value::Value;

verus! {

/// A boxed value could not be taken out as the native shape asked for.
#[derive(Debug, Clone, Copy, Hash, PartialEq, Eq, PartialOrd, Ord, Structural)]
pub struct UnboxRubyError {
    /// The runtime tag that the value was seen to have.
    pub from: Ruby,
    /// The native shape that was asked for.
    pub into: Rust,
}

impl UnboxRubyError {
    /// The error for `value`, which was to be taken out as `into`.
    pub fn new(value: &Value, into: Rust) -> (error: Self)
        ensures
            error == (UnboxRubyError { from: value.spec_ruby_type(), into }),
    {
        Self { from: value.ruby_type(), into }
    }

    /// The message of the exception that this error becomes in script code;
    /// it names no tag.
    pub open spec fn spec_message(&self) -> Seq<u8> {
        encode_utf8("Failed to convert from Ruby value to Rust type"@)
    }

    /// The message of the exception that this error becomes in script code.
    pub fn message(&self) -> (message: &'static [u8])
        ensures
            message@ == self.spec_message(),
    {
        "Failed to convert from Ruby value to Rust type".as_bytes()
    }

    /// The class of the exception that this error becomes in script code.
    pub fn name(&self) -> (name: &'static str)
        ensures
            name@ == "TypeError"@,
    {
        "TypeError"
    }

    /// The error has no backtrace of the engine: it arose in host code.
    pub fn vm_backtrace(&self, interp: &mut Artichoke) -> (backtrace: Option<Vec<Vec<u8>>>)
        ensures
            backtrace is None,
            *final(interp) == *old(interp),
    {
        None
    }

    /// The error as host-side text, which names both tags.
    pub fn to_string(&self) -> (text: String)
        ensures
            text@ == "failed to convert from Ruby "@ + self.from.spec_class_name() + " to Rust "@
                + self.into.spec_shape_name(),
    {
        let mut text = String::from_str("failed to convert from Ruby ");
        text.append(self.from.class_name());
        text.append(" to Rust ");
        text.append(self.into.shape_name());
        text
    }
}

/// A native value could not be put into a boxed value of the tag asked for.
#[derive(Debug, Clone, Copy, Hash, PartialEq, Eq, PartialOrd, Ord, Structural)]
pub struct BoxIntoRubyError {
    /// The native shape of the value that was to be boxed.
    pub from: Rust,
    /// The runtime tag that was asked for.
    pub into: Ruby,
}

impl BoxIntoRubyError {
    /// The error for a value of shape `from` that was to become an `into`.
    pub fn new(from: Rust, into: Ruby) -> (error: Self)
        ensures
            error == (BoxIntoRubyError { from, into }),
    {
        Self { from, into }
    }

    /// The message of the exception that this error becomes in script code;
    /// it names no tag.
    pub open spec fn spec_message(&self) -> Seq<u8> {
        encode_utf8("Failed to convert from Rust type to Ruby value"@)
    }

    /// The message of the exception that this error becomes in script code.
    pub fn message(&self) -> (message: &'static [u8])
        ensures
            message@ == self.spec_message(),
    {
        "Failed to convert from Rust type to Ruby value".as_bytes()
    }

    /// The class of the exception that this error becomes in script code.
    pub fn name(&self) -> (name: &'static str)
        ensures
            name@ == "TypeError"@,
    {
        "TypeError"
    }

    /// The error has no backtrace of the engine: it arose in host code.
    pub fn vm_backtrace(&self, interp: &mut Artichoke) -> (backtrace: Option<Vec<Vec<u8>>>)
        ensures
            backtrace is None,
            *final(interp) == *old(interp),
    {
        None
    }

    /// The error as host-side text, which names both tags.
    pub fn to_string(&self) -> (text: String)
        ensures
            text@ == "failed to convert from Rust "@ + self.from.spec_shape_name() + " to Ruby "@
                + self.into.spec_class_name(),
    {
        let mut text = String::from_str("failed to convert from Rust ");
        text.append(self.from.shape_name());
        text.append(" to Ruby ");
        text.append(self.into.class_name());
        text
    }
}

/// Infallible conversion that leaves the interpreter as it is.
pub trait Convert<T, U> {
    /// Whether `to` is what `from` converts to.
    spec fn converts(&self, from: T, to: U) -> bool;

    fn convert(&self, from: T) -> (to: U)
        ensures
            self.converts(from, to),
    ;
}

/// Fallible conversion that leaves the interpreter as it is.
pub trait TryConvert<T, U> {
    type Error;

    /// Whether `to` is the outcome of converting `from`.
    spec fn try_converts(&self, from: T, to: Result<U, Self::Error>) -> bool;

    fn try_convert(&self, from: T) -> (to: Result<U, Self::Error>)
        ensures
            self.try_converts(from, to),
    ;
}

/// Infallible conversion that may change the interpreter.
pub trait ConvertMut<T, U>: Sized {
    /// Whether converting `from` in the state `self` may leave the state
    /// `after` and give `to`.
    spec fn converts_mut(&self, from: T, after: Self, to: U) -> bool;

    fn convert_mut(&mut self, from: T) -> (to: U)
        ensures
            old(self).converts_mut(from, *final(self), to),
    ;
}

/// Fallible conversion that may change the interpreter.
pub trait TryConvertMut<T, U>: Sized {
    type Error;

    /// Whether converting `from` in the state `self` may leave the state
    /// `after` with the outcome `to`.
    spec fn try_converts_mut(&self, from: T, after: Self, to: Result<U, Self::Error>) -> bool;

    fn try_convert_mut(&mut self, from: T) -> (to: Result<U, Self::Error>)
        ensures
            old(self).try_converts_mut(from, *final(self), to),
    ;
}

/// Whoever converts infallibly converts fallibly too: the fallible form hands
/// on what the infallible one gives, and never fails.
impl<T, U> TryConvert<T, U> for Artichoke where Artichoke: Convert<T, U> {
    type Error = Error;

    open spec fn try_converts(&self, from: T, to: Result<U, Error>) -> bool {
        to matches Ok(value) && self.converts(from, value)
    }

    fn try_convert(&self, from: T) -> (to: Result<U, Error>) {
        Ok(self.convert(from))
    }
}

/// The same for conversions that may change the interpreter.
impl<T, U> TryConvertMut<T, U> for Artichoke where Artichoke: ConvertMut<T, U> {
    type Error = Error;

    open spec fn try_converts_mut(&self, from: T, after: Self, to: Result<U, Error>) -> bool {
        to matches Ok(value) && self.converts_mut(from, after, value)
    }

    fn try_convert_mut(&mut self, from: T) -> (to: Result<U, Error>) {
        Ok(self.convert_mut(from))
    }
}

} // verus!
