//! The interpreter as the host keeps it.

use vstd::prelude::*;

use crate::boxing::Heap;
use crate::exception::Exception;
use crate::parser::State;

verus! {

/// One interpreter: the host's side of one engine instance.
///
/// It has a single owner and runs on a single thread of control: every call
/// that changes it takes it by exclusive reference.
#[derive(Debug)]
pub struct Artichoke {
    /// Whether the engine behind the interpreter is still open.
    pub open: bool,
    /// The parser's line counter and context frames.
    pub parser: State,
    /// The native payloads of the heap objects made through this interpreter.
    pub heap: Heap,
    /// The engine's slot for a raised exception that nobody has picked up yet.
    pub exception: Option<Exception>,
}

impl Artichoke {
    /// Whether the two interpreters agree in all but the parser's state.
    pub open spec fn same_but_parser(self, other: Self) -> bool {
        &&& self.open == other.open
        &&& self.heap == other.heap
        &&& self.exception == other.exception
    }

    /// Whether the two interpreters agree in all but the heap.
    pub open spec fn same_but_heap(self, other: Self) -> bool {
        &&& self.open == other.open
        &&& self.parser == other.parser
        &&& self.exception == other.exception
    }

    /// An interpreter with an open engine: the parser at line 1 with no frame,
    /// an empty heap and no exception pending.
    pub fn new() -> (interp: Self)
        ensures
            interp.open,
            interp.parser@ == (crate::parser::StateView { frames: Seq::empty(), lineno: 1 }),
            interp.heap@ == Seq::<Option<crate::boxing::PayloadView>>::empty(),
            interp.exception is None,
    {
        Self { open: true, parser: State::new(), heap: Heap::new(), exception: None }
    }

    /// Closes the engine. The context stack of a closed interpreter no longer
    /// changes.
    pub fn close(&mut self)
        ensures
            !final(self).open,
            final(self).parser == old(self).parser,
            final(self).heap == old(self).heap,
            final(self).exception == old(self).exception,
    {
        self.open = false;
    }
}

} // verus!
