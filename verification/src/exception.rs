//! Structured host errors: the exception classes the bridge raises itself, the
//! exceptions it catches at the barrier, and the error type that carries
//! either through the host's call chain.

use std::borrow::Cow;

use vstd::prelude::*;
use vstd::string::*;
use vstd::utf8::encode_utf8;

use crate::convert::{BoxIntoRubyError, UnboxRubyError};

verus! {

/// The `UncaughtThrowError` exception class: raised when `throw` finds no
/// matching `catch`.
///
/// An exception object carries its class name and a message of bytes.
#[derive(Debug, Hash)]
pub struct UncaughtThrowError {
    message: Cow<'static, [u8]>,
}

impl View for UncaughtThrowError {
    type V = Seq<u8>;

    /// The message bytes.
    closed spec fn view(&self) -> Seq<u8> {
        self.message@
    }
}

impl UncaughtThrowError {
    /// A new exception with the default message, which is the class name.
    pub fn new() -> (exception: Self)
        ensures
            exception@ == encode_utf8("UncaughtThrowError"@),
    {
        // An exception made without a message has the name of its class for
        // one.
        Self { message: Cow::Borrowed("UncaughtThrowError".as_bytes()) }
    }

    /// The message this exception was made with.
    pub fn message(&self) -> (message: &[u8])
        ensures
            message@ == self@,
    {
        match &self.message {
            Cow::Borrowed(message) => message,
            Cow::Owned(message) => message.as_slice(),
        }
    }

    /// The exception's class name.
    pub fn name(&self) -> (name: &'static str)
        ensures
            name@ == "UncaughtThrowError"@,
    {
        "UncaughtThrowError"
    }

    /// The exception as one line of text: the class name, then the message in
    /// round brackets. The caller hands in the message as it reads once its
    /// bytes are escaped for display.
    pub fn display(&self, escaped_message: &str) -> (line: String)
        ensures
            line@ == "UncaughtThrowError"@ + " ("@ + escaped_message@ + ")"@,
    {
        let mut line = String::from_str(self.name());
        line.append(" (");
        line.append(escaped_message);
        line.append(")");
        line
    }
}

impl Clone for UncaughtThrowError {
    /// An exception with the same message.
    fn clone(&self) -> (exception: Self)
        ensures
            exception@ == self@,
    {
        match &self.message {
            Cow::Borrowed(message) => Self { message: Cow::Borrowed(message) },
            Cow::Owned(message) => Self { message: Cow::Owned(message.clone()) },
        }
    }
}

impl PartialEq for UncaughtThrowError {
    /// Two exceptions are equal when their messages are.
    fn eq(&self, other: &Self) -> (equal: bool) {
        crate::text::bytes_eq(self.message(), other.message())
    }
}

impl vstd::std_specs::cmp::PartialEqSpecImpl for UncaughtThrowError {
    open spec fn obeys_eq_spec() -> bool {
        true
    }

    open spec fn eq_spec(&self, other: &Self) -> bool {
        self@ == other@
    }
}

impl Eq for UncaughtThrowError {

}

impl Default for UncaughtThrowError {
    /// The exception with an empty message.
    fn default() -> (exception: Self)
        ensures
            exception@ == Seq::<u8>::empty(),
    {
        Self { message: Cow::Owned(Vec::new()) }
    }
}

impl From<String> for UncaughtThrowError {
    /// An exception whose message is the UTF-8 bytes of `message`.
    fn from(message: String) -> (exception: Self)
        ensures
            exception@ == encode_utf8(message@),
    {
        Self { message: Cow::Owned(message.as_str().as_bytes_vec()) }
    }
}

// Two values with equal bytes need not be the same value, so the conversions
// into this type promise nothing by way of `from_spec`: each says in `from`
// itself which bytes the result holds.
impl vstd::std_specs::convert::FromSpecImpl<String> for UncaughtThrowError {
    open spec fn obeys_from_spec() -> bool {
        false
    }

    open spec fn from_spec(message: String) -> Self {
        arbitrary()
    }
}

impl From<&'static str> for UncaughtThrowError {
    /// An exception whose message is the UTF-8 bytes of `message`.
    fn from(message: &'static str) -> (exception: Self)
        ensures
            exception@ == encode_utf8(message@),
    {
        Self { message: Cow::Borrowed(message.as_bytes()) }
    }
}

impl vstd::std_specs::convert::FromSpecImpl<&'static str> for UncaughtThrowError {
    open spec fn obeys_from_spec() -> bool {
        false
    }

    open spec fn from_spec(message: &'static str) -> Self {
        arbitrary()
    }
}

impl From<Cow<'static, str>> for UncaughtThrowError {
    /// An exception whose message is the UTF-8 bytes of `message`.
    fn from(message: Cow<'static, str>) -> (exception: Self)
        ensures
            exception@ == encode_utf8(message@),
    {
        let message = match message {
            Cow::Borrowed(s) => Cow::Borrowed(s.as_bytes()),
            Cow::Owned(s) => Cow::Owned(s.as_str().as_bytes_vec()),
        };
        Self { message }
    }
}

impl vstd::std_specs::convert::FromSpecImpl<Cow<'static, str>> for UncaughtThrowError {
    open spec fn obeys_from_spec() -> bool {
        false
    }

    open spec fn from_spec(message: Cow<'static, str>) -> Self {
        arbitrary()
    }
}

impl From<Vec<u8>> for UncaughtThrowError {
    /// An exception whose message is `message`.
    fn from(message: Vec<u8>) -> (exception: Self)
        ensures
            exception@ == message@,
    {
        Self { message: Cow::Owned(message) }
    }
}

impl vstd::std_specs::convert::FromSpecImpl<Vec<u8>> for UncaughtThrowError {
    open spec fn obeys_from_spec() -> bool {
        false
    }

    open spec fn from_spec(message: Vec<u8>) -> Self {
        arbitrary()
    }
}

impl From<&'static [u8]> for UncaughtThrowError {
    /// An exception whose message is `message`.
    fn from(message: &'static [u8]) -> (exception: Self)
        ensures
            exception@ == message@,
    {
        Self { message: Cow::Borrowed(message) }
    }
}

impl vstd::std_specs::convert::FromSpecImpl<&'static [u8]> for UncaughtThrowError {
    open spec fn obeys_from_spec() -> bool {
        false
    }

    open spec fn from_spec(message: &'static [u8]) -> Self {
        arbitrary()
    }
}

impl From<Cow<'static, [u8]>> for UncaughtThrowError {
    /// An exception whose message is `message`.
    fn from(message: Cow<'static, [u8]>) -> (exception: Self)
        ensures
            exception@ == message@,
    {
        Self { message }
    }
}

impl vstd::std_specs::convert::FromSpecImpl<Cow<'static, [u8]>> for UncaughtThrowError {
    open spec fn obeys_from_spec() -> bool {
        false
    }

    open spec fn from_spec(message: Cow<'static, [u8]>) -> Self {
        arbitrary()
    }
}

/// An exception that the engine raised and the barrier caught, as the host
/// sees it: the name of its class and its message.
#[derive(Debug, Clone, Hash)]
pub struct Exception {
    pub class: String,
    pub message: Vec<u8>,
}

/// The host-level error of the bridge.
///
/// Conversion and argument errors travel through the host's call chain as
/// plain values of this type; only at the barrier does an exception of the
/// engine become one.
#[derive(Debug, Clone, Hash)]
pub enum Error {
    /// An `ArgumentError` with its message.
    Argument(Vec<u8>),
    /// A `fatal` error with its message: the engine is in a state the host did
    /// not expect, as distinct from a script that raised.
    Fatal(Vec<u8>),
    /// A `NotImplementedError` with its message.
    NotImplemented(Vec<u8>),
    /// A `TypeError` with its message.
    Type(Vec<u8>),
    /// An `UncaughtThrowError`.
    UncaughtThrow(UncaughtThrowError),
    /// A boxed value could not be taken out as the native shape asked for.
    Unbox(UnboxRubyError),
    /// A native value could not be put into a boxed value of the tag asked
    /// for.
    BoxInto(BoxIntoRubyError),
    /// An exception of the engine, caught at the barrier.
    Raised(Exception),
}

impl Error {
    /// The class name under which the error shows in script code.
    pub open spec fn spec_name(&self) -> Seq<char> {
        match self {
            Error::Argument(_) => "ArgumentError"@,
            Error::Fatal(_) => "fatal"@,
            Error::NotImplemented(_) => "NotImplementedError"@,
            Error::Type(_) => "TypeError"@,
            Error::UncaughtThrow(_) => "UncaughtThrowError"@,
            Error::Unbox(_) => "TypeError"@,
            Error::BoxInto(_) => "TypeError"@,
            Error::Raised(exception) => exception.class@,
        }
    }

    /// The message under which the error shows in script code. The two
    /// conversion errors have one fixed message each, whatever the tags.
    pub open spec fn spec_message(&self) -> Seq<u8> {
        match self {
            Error::Argument(message) => message@,
            Error::Fatal(message) => message@,
            Error::NotImplemented(message) => message@,
            Error::Type(message) => message@,
            Error::UncaughtThrow(exception) => exception@,
            Error::Unbox(error) => error.spec_message(),
            Error::BoxInto(error) => error.spec_message(),
            Error::Raised(exception) => exception.message@,
        }
    }

    /// An `ArgumentError` whose message is the UTF-8 bytes of `message`.
    pub fn argument(message: &str) -> (error: Self)
        ensures
            error matches Error::Argument(m) && m@ == encode_utf8(message@),
    {
        Error::Argument(message.as_bytes_vec())
    }

    /// A `TypeError` whose message is the UTF-8 bytes of `message`.
    pub fn type_error(message: &str) -> (error: Self)
        ensures
            error matches Error::Type(m) && m@ == encode_utf8(message@),
    {
        Error::Type(message.as_bytes_vec())
    }

    /// A `fatal` error whose message is the UTF-8 bytes of `message`.
    pub fn fatal(message: &str) -> (error: Self)
        ensures
            error matches Error::Fatal(m) && m@ == encode_utf8(message@),
    {
        Error::Fatal(message.as_bytes_vec())
    }

    /// A `NotImplementedError` with the default message, which is the class
    /// name.
    pub fn not_implemented() -> (error: Self)
        ensures
            error matches Error::NotImplemented(m) && m@ == encode_utf8("NotImplementedError"@),
    {
        Error::NotImplemented("NotImplementedError".as_bytes_vec())
    }

    /// The class name under which the error shows in script code.
    pub fn name(&self) -> (name: &str)
        ensures
            name@ == self.spec_name(),
    {
        match self {
            Error::Argument(_) => "ArgumentError",
            Error::Fatal(_) => "fatal",
            Error::NotImplemented(_) => "NotImplementedError",
            Error::Type(_) => "TypeError",
            Error::UncaughtThrow(exception) => exception.name(),
            Error::Unbox(error) => error.name(),
            Error::BoxInto(error) => error.name(),
            Error::Raised(exception) => exception.class.as_str(),
        }
    }

    /// The message under which the error shows in script code.
    pub fn message(&self) -> (message: &[u8])
        ensures
            message@ == self.spec_message(),
    {
        match self {
            Error::Argument(message) => message.as_slice(),
            Error::Fatal(message) => message.as_slice(),
            Error::NotImplemented(message) => message.as_slice(),
            Error::Type(message) => message.as_slice(),
            Error::UncaughtThrow(exception) => exception.message(),
            Error::Unbox(error) => error.message(),
            Error::BoxInto(error) => error.message(),
            Error::Raised(exception) => exception.message.as_slice(),
        }
    }
}

impl From<UncaughtThrowError> for Error {
    fn from(exception: UncaughtThrowError) -> (error: Self)
        ensures
            error == Error::UncaughtThrow(exception),
    {
        Error::UncaughtThrow(exception)
    }
}

impl vstd::std_specs::convert::FromSpecImpl<UncaughtThrowError> for Error {
    open spec fn obeys_from_spec() -> bool {
        true
    }

    open spec fn from_spec(exception: UncaughtThrowError) -> Self {
        Error::UncaughtThrow(exception)
    }
}

impl From<UnboxRubyError> for Error {
    fn from(error: UnboxRubyError) -> (wrapped: Self)
        ensures
            wrapped == Error::Unbox(error),
    {
        Error::Unbox(error)
    }
}

impl vstd::std_specs::convert::FromSpecImpl<UnboxRubyError> for Error {
    open spec fn obeys_from_spec() -> bool {
        true
    }

    open spec fn from_spec(error: UnboxRubyError) -> Self {
        Error::Unbox(error)
    }
}

impl From<BoxIntoRubyError> for Error {
    fn from(error: BoxIntoRubyError) -> (wrapped: Self)
        ensures
            wrapped == Error::BoxInto(error),
    {
        Error::BoxInto(error)
    }
}

impl vstd::std_specs::convert::FromSpecImpl<BoxIntoRubyError> for Error {
    open spec fn obeys_from_spec() -> bool {
        true
    }

    open spec fn from_spec(error: BoxIntoRubyError) -> Self {
        Error::BoxInto(error)
    }
}

} // verus!
