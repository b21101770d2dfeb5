//! The value-exchange and execution-control layer between a host program and
//! an embedded, garbage-collected interpreter.
//!
//! The library keeps the host's side of the bargain: the tag tables, the value
//! handles and their boxing, the checked conversions between native values and
//! boxed ones, the handling of what a protected call into the engine came back
//! with, and the stack of parse contexts around nested evaluations. The engine
//! itself stays outside: wherever it has to run, a function here says what to
//! ask of it, and another takes its answer as an argument.

pub mod types;
pub mod value;
pub mod exception;
pub mod convert;
pub mod parser;
pub mod interp;
pub mod boxing;
pub mod text;
pub mod time;
pub mod eval;
pub mod encoding;
pub mod string;
