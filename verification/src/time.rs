//! The positional arguments of a time constructor: year, month, day, hour,
//! minute, second and microseconds, each an integer or something that
//! coerces to one.

use vstd::prelude::*;
use vstd::string::*;
use vstd::utf8::encode_utf8;

use crate::convert::implicit::{coerce, coerced, decides, Coercion, Reply};
use crate::convert::UnboxRubyError;
use crate::exception::Error;
use crate::interp::Artichoke;
use crate::text::{decimal, decimal_string};
use crate::types::Rust;
use crate::value::Value;

verus! {

/// The components of a point in time, as they were given: nothing is checked
/// until a component is asked for.
#[derive(Debug, Clone, Copy)]
pub struct TimeArgs {
    year: i64,
    month: i64,
    day: i64,
    hour: i64,
    minute: i64,
    second: i64,
    micros: i64,
}

/// What a set of time arguments holds.
pub ghost struct TimeArgsView {
    pub year: int,
    pub month: int,
    pub day: int,
    pub hour: int,
    pub minute: int,
    pub second: int,
    pub micros: int,
}

impl View for TimeArgs {
    type V = TimeArgsView;

    closed spec fn view(&self) -> TimeArgsView {
        TimeArgsView {
            year: self.year as int,
            month: self.month as int,
            day: self.day as int,
            hour: self.hour as int,
            minute: self.minute as int,
            second: self.second as int,
            micros: self.micros as int,
        }
    }
}

/// The components that stand where none is given: the first instant of the
/// year 0.
pub open spec fn default_args() -> TimeArgsView {
    TimeArgsView { year: 0, month: 1, day: 1, hour: 0, minute: 0, second: 0, micros: 0 }
}

/// The components `so_far` with the argument at position `index` set to
/// `arg`. The positions are, from 0: year, month, day, hour, minute, second,
/// microseconds. A later position sets nothing.
pub open spec fn with_component(so_far: TimeArgsView, index: int, arg: int) -> TimeArgsView {
    if index == 0 {
        TimeArgsView { year: arg, ..so_far }
    } else if index == 1 {
        TimeArgsView { month: arg, ..so_far }
    } else if index == 2 {
        TimeArgsView { day: arg, ..so_far }
    } else if index == 3 {
        TimeArgsView { hour: arg, ..so_far }
    } else if index == 4 {
        TimeArgsView { minute: arg, ..so_far }
    } else if index == 5 {
        TimeArgsView { second: arg, ..so_far }
    } else if index == 6 {
        TimeArgsView { micros: arg, ..so_far }
    } else {
        so_far
    }
}

impl Default for TimeArgs {
    fn default() -> (args: TimeArgs)
        ensures
            args@ == default_args(),
    {
        TimeArgs { year: 0, month: 1, day: 1, hour: 0, minute: 0, second: 0, micros: 0 }
    }
}

impl TimeArgs {
    /// The year, which must fit in 32 bits.
    pub fn year(&self) -> (year: Result<i32, Error>)
        ensures
            i32::MIN <= self@.year <= i32::MAX ==> (year matches Ok(y) && y == self@.year),
            !(i32::MIN <= self@.year <= i32::MAX) ==> (year matches Err(Error::Argument(message))
                && message@ == encode_utf8("year out of range"@)),
    {
        match i32::try_from(self.year) {
            Ok(year) => Ok(year),
            Err(_) => Err(Error::argument("year out of range")),
        }
    }

    /// The month, which must be from 1 to 12.
    pub fn month(&self) -> (month: Result<u8, Error>)
        ensures
            1 <= self@.month <= 12 ==> (month matches Ok(m) && m == self@.month),
            !(1 <= self@.month <= 12) ==> (month matches Err(Error::Argument(message)) && message@
                == encode_utf8("mon out of range"@)),
    {
        if 1 <= self.month && self.month <= 12 {
            Ok(self.month as u8)
        } else {
            Err(Error::argument("mon out of range"))
        }
    }

    /// The day of the month, which must be from 1 to 31.
    pub fn day(&self) -> (day: Result<u8, Error>)
        ensures
            1 <= self@.day <= 31 ==> (day matches Ok(d) && d == self@.day),
            !(1 <= self@.day <= 31) ==> (day matches Err(Error::Argument(message)) && message@
                == encode_utf8("mday out of range"@)),
    {
        if 1 <= self.day && self.day <= 31 {
            Ok(self.day as u8)
        } else {
            Err(Error::argument("mday out of range"))
        }
    }

    /// The hour, which must be from 0 to 23.
    pub fn hour(&self) -> (hour: Result<u8, Error>)
        ensures
            0 <= self@.hour <= 23 ==> (hour matches Ok(h) && h == self@.hour),
            !(0 <= self@.hour <= 23) ==> (hour matches Err(Error::Argument(message)) && message@
                == encode_utf8("hour out of range"@)),
    {
        if 0 <= self.hour && self.hour <= 23 {
            Ok(self.hour as u8)
        } else {
            Err(Error::argument("hour out of range"))
        }
    }

    /// The minute, which must be from 0 to 59.
    pub fn minute(&self) -> (minute: Result<u8, Error>)
        ensures
            0 <= self@.minute <= 59 ==> (minute matches Ok(m) && m == self@.minute),
            !(0 <= self@.minute <= 59) ==> (minute matches Err(Error::Argument(message))
                && message@ == encode_utf8("min out of range"@)),
    {
        if 0 <= self.minute && self.minute <= 59 {
            Ok(self.minute as u8)
        } else {
            Err(Error::argument("min out of range"))
        }
    }

    /// The second, which must be from 0 to 60: a leap second is let through.
    pub fn second(&self) -> (second: Result<u8, Error>)
        ensures
            0 <= self@.second <= 60 ==> (second matches Ok(s) && s == self@.second),
            !(0 <= self@.second <= 60) ==> (second matches Err(Error::Argument(message))
                && message@ == encode_utf8("sec out of range"@)),
    {
        if 0 <= self.second && self.second <= 60 {
            Ok(self.second as u8)
        } else {
            Err(Error::argument("sec out of range"))
        }
    }

    /// The part of the second in nanoseconds. The argument is in
    /// microseconds and must be from 0 to 999 999; it does not wrap around.
    pub fn nanoseconds(&self) -> (nanoseconds: Result<u32, Error>)
        ensures
            0 <= self@.micros <= 999_999 ==> (nanoseconds matches Ok(n) && n == self@.micros * 1000),
            !(0 <= self@.micros <= 999_999) ==> (nanoseconds matches Err(Error::Argument(message))
                && message@ == encode_utf8("subsecx out of range"@)),
    {
        if 0 <= self.micros && self.micros <= 999_999 {
            Ok((self.micros * 1000) as u32)
        } else {
            Err(Error::argument("subsecx out of range"))
        }
    }

    fn set(&mut self, index: usize, arg: i64)
        ensures
            final(self)@ == with_component(old(self)@, index as int, arg as int),
    {
        if index == 0 {
            self.year = arg;
        } else if index == 1 {
            self.month = arg;
        } else if index == 2 {
            self.day = arg;
        } else if index == 3 {
            self.hour = arg;
        } else if index == 4 {
            self.minute = arg;
        } else if index == 5 {
            self.second = arg;
        } else if index == 6 {
            self.micros = arg;
        }
    }
}

/// A reading of time arguments that waits for the engine: the argument at
/// `index` is no integer and has to be sent `to_int`.
#[derive(Debug, Clone, Copy)]
pub struct Pending {
    so_far: TimeArgs,
    index: usize,
    receiver: Value,
}

/// What a waiting reading holds.
pub ghost struct PendingView {
    /// The components read before the reading stopped.
    pub so_far: TimeArgsView,
    /// The position of the argument that has to be coerced.
    pub index: nat,
    /// That argument.
    pub receiver: Value,
}

impl View for Pending {
    type V = PendingView;

    closed spec fn view(&self) -> PendingView {
        PendingView { so_far: self.so_far@, index: self.index as nat, receiver: self.receiver }
    }
}

impl Pending {
    /// The value that has to be sent `to_int`.
    pub fn receiver(&self) -> (receiver: Value)
        ensures
            receiver == self@.receiver,
    {
        self.receiver
    }

    /// The position of that value among the arguments.
    pub fn index(&self) -> (index: usize)
        ensures
            index == self@.index,
    {
        self.index
    }
}

/// How far a reading of time arguments has come.
#[derive(Debug, Clone, Copy)]
pub enum Step {
    /// Every argument is read.
    Finished(TimeArgs),
    /// An argument has to be coerced by the engine first.
    Dispatch(Pending),
}

/// What a step holds.
pub ghost enum StepView {
    Finished(TimeArgsView),
    Dispatch(PendingView),
}

impl View for Step {
    type V = StepView;

    open spec fn view(&self) -> StepView {
        match self {
            Step::Finished(args) => StepView::Finished(args@),
            Step::Dispatch(pending) => StepView::Dispatch(pending@),
        }
    }
}

/// Reads the arguments from position `index` on, in their order, with the
/// components `so_far` read before. An integer sets its component. The
/// argument at position 7, the eighth, is passed over whatever it is. The
/// first other argument that is no integer stops the reading.
pub open spec fn read_from(so_far: TimeArgsView, index: nat, args: Seq<Value>) -> StepView
    decreases args.len() - index,
{
    if index >= args.len() {
        StepView::Finished(so_far)
    } else if index == 7 {
        read_from(so_far, index + 1, args)
    } else {
        match args[index as int] {
            Value::Fixnum(arg) => read_from(
                with_component(so_far, index as int, arg as int),
                index + 1,
                args,
            ),
            receiver => StepView::Dispatch(PendingView { so_far, index, receiver }),
        }
    }
}

/// Whether a time constructor takes `count` positional arguments: from one
/// to eight.
pub open spec fn accepted_count(count: nat) -> bool {
    1 <= count <= 8
}

/// The message for a count of arguments that is not taken.
pub open spec fn wrong_count_message(count: nat) -> Seq<char> {
    "wrong number of arguments (given "@ + decimal(count) + ", expected 1..8)"@
}

fn read(so_far: TimeArgs, index: usize, args: &[Value]) -> (step: Step)
    ensures
        step@ == read_from(so_far@, index as nat, args@),
{
    let mut result = so_far;
    let mut i = index;
    while i < args.len()
        invariant
            read_from(result@, i as nat, args@) == read_from(so_far@, index as nat, args@),
        decreases args.len() - i,
    {
        // The eighth argument is never used, so it is not converted either.
        if i != 7 {
            match args[i] {
                Value::Fixnum(arg) => {
                    result.set(i, arg);
                },
                receiver => {
                    return Step::Dispatch(Pending { so_far: result, index: i, receiver });
                },
            }
        }
        i += 1;
    }
    Step::Finished(result)
}

/// Reads the positional arguments of a time constructor: year, month, day,
/// hour, minute, second, microseconds, and an eighth that is not looked at.
/// Components that are not given keep their defaults.
///
/// From one to eight arguments are read one after the other. Where one of the
/// first seven is no integer, the reading stops there and says which value
/// the engine has to send `to_int`; `resume` goes on with the answer. No
/// arguments, nine, or more than ten are refused with an argument error that
/// names the count. The form with ten arguments is not provided.
pub fn as_time_args(interp: &mut Artichoke, args: &[Value]) -> (step: Result<Step, Error>)
    requires
        args.len() != 10,
    ensures
        *final(interp) == *old(interp),
        accepted_count(args@.len()) ==> (step matches Ok(s) && s@ == read_from(
            default_args(),
            0,
            args@,
        )),
        !accepted_count(args@.len()) ==> (step matches Err(Error::Argument(message)) && message@
            == encode_utf8(wrong_count_message(args@.len()))),
{
    let count = args.len();
    if count == 0 || count >= 9 {
        let mut message = String::from_str("wrong number of arguments (given ");
        let given = decimal_string(count);
        message.append(given.as_str());
        message.append(", expected 1..8)");
        Err(Error::Argument(message.as_str().as_bytes_vec()))
    } else {
        Ok(read(TimeArgs::default(), 0, args))
    }
}

/// Goes on with a reading that waited for the engine, given what the engine
/// answered when it sent `to_int` to the waiting value.
///
/// Where the coercion ends in an integer, that integer sets the component and
/// the arguments after it are read. Where it fails, the reading fails with
/// the error of the coercion.
pub fn resume(pending: Pending, args: &[Value], reply: Reply) -> (step: Result<Step, Error>)
    ensures
        match coerced(pending@.receiver, Coercion::ToInt, reply) {
            Some(Value::Fixnum(arg)) => step matches Ok(s) && s@ == read_from(
                with_component(pending@.so_far, pending@.index as int, arg as int),
                pending@.index + 1,
                args@,
            ),
            _ => step is Err && decides(
                pending@.receiver,
                Coercion::ToInt,
                reply,
                Err::<Value, Error>(step->Err_0),
            ),
        },
{
    match coerce(pending.receiver, Coercion::ToInt, reply) {
        Ok(Value::Fixnum(arg)) => {
            let mut so_far = pending.so_far;
            so_far.set(pending.index, arg);
            if pending.index < args.len() {
                Ok(read(so_far, pending.index + 1, args))
            } else {
                Ok(Step::Finished(so_far))
            }
        },
        // A coercion that succeeds ends in an integer: nothing else has the
        // tag wanted.
        Ok(other) => Err(Error::Unbox(UnboxRubyError::new(&other, Rust::SignedInt))),
        Err(error) => Err(error),
    }
}

} // verus!
