//! The protected execution barrier, as far as the host decides it.
//!
//! The engine signals an exception by jumping out of its call stack, past
//! whatever destructors the host has pending. So a call into the engine is
//! made in three steps. The host packs what the call needs into an envelope
//! that can be copied bit by bit and owns nothing. The engine runs the call
//! under its own protection and comes back with a value or with an exception.
//! The host then decides what the caller gets. The first and the last step
//! are here.

use vstd::prelude::*;
use vstd::string::*;
use vstd::utf8::encode_utf8;

use crate::exception::{Error, Exception};
use crate::interp::Artichoke;
use crate::value::Value;

verus! {

/// The envelope of one protected evaluation: the code, and the parse context
/// in effect when the evaluation starts.
///
/// It only borrows, and it is `Copy`: nothing is lost when the engine jumps
/// over it.
#[derive(Debug, Clone, Copy)]
pub struct Protect<'a> {
    filename: &'a [u8],
    lineno: usize,
    code: &'a [u8],
}

/// What an envelope holds.
pub ghost struct ProtectView {
    /// The source name that the evaluated code sees as its own.
    pub filename: Seq<u8>,
    /// The line at which the code starts.
    pub lineno: nat,
    /// The code.
    pub code: Seq<u8>,
}

impl View for Protect<'_> {
    type V = ProtectView;

    closed spec fn view(&self) -> ProtectView {
        ProtectView { filename: self.filename@, lineno: self.lineno as nat, code: self.code@ }
    }
}

impl<'a> Protect<'a> {
    /// The envelope for evaluating `code` on `interp` now: the source name is
    /// that of the current context frame, or the root name where none is
    /// pushed, and the line is the parser's current line.
    pub fn new(interp: &'a Artichoke, code: &'a [u8]) -> (protect: Self)
        ensures
            protect@ == (ProtectView {
                filename: interp.parser@.filename(),
                lineno: interp.parser@.lineno,
                code: code@,
            }),
    {
        Self { filename: interp.parser.filename(), lineno: interp.parser.fetch_lineno(), code }
    }

    /// The source name that the evaluated code sees as its own.
    pub fn filename(&self) -> (filename: &'a [u8])
        ensures
            filename@ == self@.filename,
    {
        self.filename
    }

    /// The line at which the code starts.
    pub fn lineno(&self) -> (lineno: usize)
        ensures
            lineno == self@.lineno,
    {
        self.lineno
    }

    /// The code to evaluate.
    pub fn code(&self) -> (code: &'a [u8])
        ensures
            code@ == self@.code,
    {
        self.code
    }
}

/// What a protected call into the engine came back with.
#[derive(Debug, Clone, Hash)]
pub enum Outcome {
    /// The call returned this value.
    Returned(Value),
    /// The call was cut short by this exception.
    Raised(Exception),
}

/// The exception that is pending once a protected call is back: the one it
/// raised, or else the one that was in the slot before.
pub open spec fn pending(slot: Option<Exception>, outcome: Outcome) -> Option<Exception> {
    match outcome {
        Outcome::Raised(exception) => Some(exception),
        Outcome::Returned(_) => slot,
    }
}

/// Whether `result` is what an evaluation comes to that found `slot` in the
/// exception slot and came back with `outcome`: the pending exception as an
/// error; else a fatal error where the value returned is the engine's
/// internal marker; else the value.
pub open spec fn evaluates(
    slot: Option<Exception>,
    outcome: Outcome,
    result: Result<Value, Error>,
) -> bool {
    match pending(slot, outcome) {
        Some(exception) => result == Err::<Value, Error>(Error::Raised(exception)),
        None => outcome matches Outcome::Returned(value) && if value.spec_is_unreachable() {
            result matches Err(Error::Fatal(message)) && message@ == encode_utf8(
                "Unreachable Ruby value"@,
            )
        } else {
            result == Ok::<Value, Error>(value)
        },
    }
}

impl Artichoke {
    /// Takes the pending exception out of the slot, if there is one.
    pub fn last_error(&mut self) -> (exception: Option<Exception>)
        ensures
            exception == old(self).exception,
            final(self).exception is None,
            final(self).open == old(self).open,
            final(self).parser == old(self).parser,
            final(self).heap == old(self).heap,
    {
        self.exception.take()
    }

    /// Completes an evaluation, given what the protected call came back with.
    ///
    /// An exception that the call raised goes into the exception slot. If the
    /// slot then holds an exception, it is taken out and returned as the
    /// error. Otherwise the value returned is looked at: the engine's internal
    /// marker is refused with a fatal error, and any other value is the
    /// result. Whichever it is, the slot is empty afterwards, and the parser
    /// and the heap are as they were.
    pub fn eval(&mut self, outcome: Outcome) -> (result: Result<Value, Error>)
        ensures
            evaluates(old(self).exception, outcome, result),
            final(self).exception is None,
            final(self).open == old(self).open,
            final(self).parser == old(self).parser,
            final(self).heap == old(self).heap,
    {
        let value = match outcome {
            Outcome::Raised(exception) => {
                self.exception = Some(exception);
                Value::Nil
            },
            Outcome::Returned(value) => value,
        };
        match self.last_error() {
            Some(exception) => Err(Error::Raised(exception)),
            None => {
                if value.is_unreachable() {
                    // A value of the engine's own bookkeeping: touching it
                    // through the engine's interface may crash.
                    Err(Error::fatal("Unreachable Ruby value"))
                } else {
                    Ok(value)
                }
            },
        }
    }
}

/// An evaluation never hands out the engine's internal marker.
pub proof fn unreachable_is_refused(
    slot: Option<Exception>,
    outcome: Outcome,
    result: Result<Value, Error>,
)
    requires
        evaluates(slot, outcome, result),
    ensures
        result matches Ok(value) ==> !value.spec_is_unreachable(),
        outcome matches Outcome::Returned(value) && value.spec_is_unreachable() ==> result is Err,
{
}

/// After any evaluation, failed or not, the next one that returns a usable
/// value succeeds with that value: the slot was left empty.
pub proof fn failure_is_recoverable(
    slot: Option<Exception>,
    first: Outcome,
    failed: Result<Value, Error>,
    value: Value,
    result: Result<Value, Error>,
)
    requires
        evaluates(slot, first, failed),
        !value.spec_is_unreachable(),
        evaluates(None, Outcome::Returned(value), result),
    ensures
        result == Ok::<Value, Error>(value),
{
}

} // verus!
