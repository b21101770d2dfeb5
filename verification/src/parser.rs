//! The parser's bookkeeping: the line counter and the stack of context frames
//! around nested evaluations.

use vstd::prelude::*;
use vstd::string::*;
use vstd::utf8::encode_utf8;

use crate::interp::Artichoke;

verus! {

/// The largest line number that the engine's parser can hold.
pub const LINENO_MAX: usize = 65535;

/// The source name in effect while no frame is pushed: code that was
/// evaluated directly.
pub open spec fn root_filename() -> Seq<u8> {
    encode_utf8("(eval)"@)
}

/// One frame of nested evaluation: the name of the source and the line at
/// which it starts. A frame does not change once made.
#[derive(Debug, Clone, Hash)]
pub struct Context {
    filename: Vec<u8>,
    lineno: usize,
}

/// What a frame holds.
pub ghost struct ContextView {
    pub filename: Seq<u8>,
    pub lineno: nat,
}

impl View for Context {
    type V = ContextView;

    closed spec fn view(&self) -> ContextView {
        ContextView { filename: self.filename@, lineno: self.lineno as nat }
    }
}

/// Whether a source name can be handed to the engine: it holds no NUL byte.
pub open spec fn valid_filename(filename: Seq<u8>) -> bool {
    forall|i: int| 0 <= i < filename.len() ==> filename[i] != 0
}

impl Context {
    /// A frame for the source `filename`, starting at line 1, or `None` where
    /// the name holds a NUL byte.
    pub fn new(filename: &[u8]) -> (context: Option<Self>)
        ensures
            valid_filename(filename@) <==> context is Some,
            context matches Some(c) ==> c@ == (ContextView { filename: filename@, lineno: 1 }),
    {
        Self::starting_at(filename, 1)
    }

    /// A frame for the source `filename`, starting at line `lineno`, or `None`
    /// where the name holds a NUL byte.
    pub fn starting_at(filename: &[u8], lineno: usize) -> (context: Option<Self>)
        ensures
            valid_filename(filename@) <==> context is Some,
            context matches Some(c) ==> c@ == (ContextView {
                filename: filename@,
                lineno: lineno as nat,
            }),
    {
        let mut i: usize = 0;
        while i < filename.len()
            invariant
                i <= filename.len(),
                forall|j: int| 0 <= j < i ==> filename@[j] != 0,
            decreases filename.len() - i,
        {
            if filename[i] == 0 {
                return None;
            }
            i += 1;
        }
        Some(Self { filename: vstd::slice::slice_to_vec(filename), lineno })
    }

    /// The frame that stands for directly evaluated code.
    pub fn root() -> (context: Self)
        ensures
            context@ == (ContextView { filename: root_filename(), lineno: 1 }),
    {
        Self { filename: "(eval)".as_bytes_vec(), lineno: 1 }
    }

    /// The name of the frame's source.
    pub fn filename(&self) -> (filename: &[u8])
        ensures
            filename@ == self@.filename,
    {
        self.filename.as_slice()
    }

    /// The line at which the frame's source starts.
    pub fn lineno(&self) -> (lineno: usize)
        ensures
            lineno == self@.lineno,
    {
        self.lineno
    }
}

/// The line counter could not be advanced.
#[derive(Debug, Clone, Copy, Hash, PartialEq, Eq, Structural)]
pub enum IncrementLinenoError {
    /// The counter would have passed the maximum, which is given.
    Overflow(usize),
}

impl IncrementLinenoError {
    /// The error as text, which names the maximum.
    pub fn to_string(&self) -> (text: String)
        ensures
            self matches IncrementLinenoError::Overflow(max) && text@
                == "Parser exceeded maximum line count: "@ + crate::text::decimal(max as nat),
    {
        match self {
            IncrementLinenoError::Overflow(max) => {
                let mut text = String::from_str("Parser exceeded maximum line count: ");
                let max = crate::text::decimal_string(*max);
                text.append(max.as_str());
                text
            },
        }
    }
}

/// The parser's state: the current line and the frames pushed so far, the
/// current one last.
#[derive(Debug, Clone)]
pub struct State {
    stack: Vec<Context>,
    lineno: usize,
}

/// What the parser's state holds.
pub ghost struct StateView {
    pub frames: Seq<ContextView>,
    pub lineno: nat,
}

impl StateView {
    /// The source name that reflective lookups get: that of the current frame,
    /// or the root name where no frame is pushed.
    pub open spec fn filename(self) -> Seq<u8> {
        if self.frames.len() == 0 {
            root_filename()
        } else {
            self.frames.last().filename
        }
    }
}

impl View for State {
    type V = StateView;

    closed spec fn view(&self) -> StateView {
        StateView { frames: self.stack@.map_values(|c: Context| c@), lineno: self.lineno as nat }
    }
}

impl State {
    /// A parser at line 1 with no frame pushed.
    pub fn new() -> (state: Self)
        ensures
            state@ == (StateView { frames: Seq::empty(), lineno: 1 }),
    {
        let state = Self { stack: Vec::new(), lineno: 1 };
        assert(state@.frames =~= Seq::empty());
        state
    }

    /// Puts the parser back to line 1 with no frame pushed.
    pub fn reset(&mut self)
        ensures
            final(self)@ == (StateView { frames: Seq::empty(), lineno: 1 }),
    {
        self.stack.clear();
        self.lineno = 1;
        assert(self@.frames =~= Seq::empty());
    }

    /// The current line.
    pub fn fetch_lineno(&self) -> (lineno: usize)
        ensures
            lineno == self@.lineno,
    {
        self.lineno
    }

    /// Advances the current line by `val` and returns the new line. Where the
    /// new line would pass `LINENO_MAX`, the parser stays as it is and the
    /// error carries that maximum.
    pub fn add_fetch_lineno(&mut self, val: usize) -> (lineno: Result<usize, IncrementLinenoError>)
        ensures
            old(self)@.lineno + val <= LINENO_MAX ==> lineno == Ok::<usize, IncrementLinenoError>(
                (old(self)@.lineno + val) as usize,
            ) && final(self)@ == (StateView {
                lineno: old(self)@.lineno + val as nat,
                ..old(self)@
            }),
            old(self)@.lineno + val > LINENO_MAX ==> lineno == Err::<usize, IncrementLinenoError>(
                IncrementLinenoError::Overflow(LINENO_MAX),
            ) && final(self)@ == old(self)@,
    {
        match self.lineno.checked_add(val) {
            Some(new) => {
                if new <= LINENO_MAX {
                    self.lineno = new;
                    Ok(new)
                } else {
                    Err(IncrementLinenoError::Overflow(LINENO_MAX))
                }
            },
            None => Err(IncrementLinenoError::Overflow(LINENO_MAX)),
        }
    }

    /// Makes `context` the current frame.
    pub fn push_context(&mut self, context: Context)
        ensures
            final(self)@ == (StateView {
                frames: old(self)@.frames.push(context@),
                ..old(self)@
            }),
    {
        self.stack.push(context);
        assert(self@.frames =~= old(self)@.frames.push(context@));
    }

    /// Takes the current frame off and returns it; the frame pushed before it
    /// is current again. With no frame pushed, nothing changes.
    pub fn pop_context(&mut self) -> (context: Option<Context>)
        ensures
            old(self)@.frames.len() == 0 ==> context is None && final(self)@ == old(self)@,
            old(self)@.frames.len() > 0 ==> context is Some && context->0@ == old(self)@.frames.last() && final(self)@ == (StateView {
                frames: old(self)@.frames.drop_last(),
                ..old(self)@
            }),
    {
        let context = self.stack.pop();
        assert(self@.frames =~= if old(self)@.frames.len() == 0 {
            old(self)@.frames
        } else {
            old(self)@.frames.drop_last()
        });
        context
    }

    /// The current frame, if one is pushed.
    pub fn peek_context(&self) -> (context: Option<&Context>)
        ensures
            self@.frames.len() == 0 ==> context is None,
            self@.frames.len() > 0 ==> context is Some && context->0@ == self@.frames.last(),
    {
        let len = self.stack.len();
        if len == 0 {
            None
        } else {
            Some(&self.stack[len - 1])
        }
    }

    /// The source name that reflective lookups get: that of the current frame,
    /// or the root name where no frame is pushed.
    pub fn filename(&self) -> (filename: &[u8])
        ensures
            filename@ == self@.filename(),
    {
        match self.peek_context() {
            Some(context) => context.filename(),
            None => "(eval)".as_bytes(),
        }
    }

    /// The number of frames pushed.
    pub fn depth(&self) -> (depth: usize)
        ensures
            depth == self@.frames.len(),
    {
        self.stack.len()
    }
}

impl Artichoke {
    /// Puts the parser back to line 1 with no frame pushed.
    pub fn reset_parser(&mut self)
        ensures
            final(self).parser@ == (StateView { frames: Seq::empty(), lineno: 1 }),
            final(self).same_but_parser(*old(self)),
    {
        self.parser.reset();
    }

    /// The parser's current line.
    pub fn fetch_lineno(&self) -> (lineno: usize)
        ensures
            lineno == self.parser@.lineno,
    {
        self.parser.fetch_lineno()
    }

    /// Advances the parser's current line by `val` and returns the new line.
    /// Where the new line would pass `LINENO_MAX`, the interpreter stays as it
    /// is and the error carries that maximum.
    pub fn add_fetch_lineno(&mut self, val: usize) -> (lineno: Result<usize, IncrementLinenoError>)
        ensures
            final(self).same_but_parser(*old(self)),
            old(self).parser@.lineno + val <= LINENO_MAX ==> lineno == Ok::<
                usize,
                IncrementLinenoError,
            >((old(self).parser@.lineno + val) as usize) && final(self).parser@ == (StateView {
                lineno: old(self).parser@.lineno + val as nat,
                ..old(self).parser@
            }),
            old(self).parser@.lineno + val > LINENO_MAX ==> lineno == Err::<
                usize,
                IncrementLinenoError,
            >(IncrementLinenoError::Overflow(LINENO_MAX)) && final(self).parser@ == old(self).parser@,
    {
        self.parser.add_fetch_lineno(val)
    }

    /// Makes `context` the current frame, before a nested evaluation begins.
    /// An interpreter whose engine is closed keeps no frames: the call then
    /// changes nothing.
    pub fn push_context(&mut self, context: Context)
        ensures
            final(self).same_but_parser(*old(self)),
            old(self).open ==> final(self).parser@ == (StateView {
                frames: old(self).parser@.frames.push(context@),
                ..old(self).parser@
            }),
            !old(self).open ==> final(self).parser@ == old(self).parser@,
    {
        if self.open {
            self.parser.push_context(context);
        }
    }

    /// Takes the current frame off, after a nested evaluation has ended, and
    /// returns it. With no frame pushed, or on an interpreter whose engine is
    /// closed, nothing changes and nothing is returned.
    pub fn pop_context(&mut self) -> (context: Option<Context>)
        ensures
            final(self).same_but_parser(*old(self)),
            old(self).open && old(self).parser@.frames.len() > 0 ==> context is Some
                && context->0@ == old(self).parser@.frames.last() && final(self).parser@ == (
            StateView { frames: old(self).parser@.frames.drop_last(), ..old(self).parser@ }),
            !(old(self).open && old(self).parser@.frames.len() > 0) ==> context is None && final(self).parser@ == old(self).parser@,
    {
        if self.open {
            self.parser.pop_context()
        } else {
            None
        }
    }

    /// The current frame, if one is pushed. Reading it changes nothing.
    pub fn peek_context(&self) -> (context: Option<&Context>)
        ensures
            self.parser@.frames.len() == 0 ==> context is None,
            self.parser@.frames.len() > 0 ==> context is Some && context->0@
                == self.parser@.frames.last(),
    {
        self.parser.peek_context()
    }
}

/// Pushing two frames and popping twice gives the two frames back, the later
/// one first, and leaves the frames and the line as they were before the
/// first push; a parser that had no frame then has none again.
pub proof fn push_pop_restores(before: StateView, a: ContextView, b: ContextView)
    ensures
        ({
            let pushed = StateView { frames: before.frames.push(a).push(b), ..before };
            let once = StateView { frames: pushed.frames.drop_last(), ..pushed };
            let twice = StateView { frames: once.frames.drop_last(), ..once };
            &&& pushed.frames.last() == b
            &&& pushed.filename() == b.filename
            &&& once.frames.last() == a
            &&& once.filename() == a.filename
            &&& twice == before
        }),
{
    let pushed = StateView { frames: before.frames.push(a).push(b), ..before };
    let once = StateView { frames: pushed.frames.drop_last(), ..pushed };
    let twice = StateView { frames: once.frames.drop_last(), ..once };
    assert(once.frames =~= before.frames.push(a));
    assert(twice.frames =~= before.frames);
}

} // verus!
