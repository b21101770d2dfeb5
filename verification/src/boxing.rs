//! The boxing layer: the native payloads that heap objects carry, and the
//! checked access to them.
//!
//! A heap object carries no payload or exactly one. It is attached once, when
//! the object is made, and it is handed out only to a caller who names its
//! shape.

use vstd::prelude::*;

use crate::convert::UnboxRubyError;
use crate::types::{Boxing, Ruby, Rust};
use crate::value::Value;

verus! {

/// The encoding of a string of the engine.
#[derive(Debug, Clone, Copy, Hash, PartialEq, Eq, Structural)]
pub enum Encoding {
    Utf8,
    Ascii,
    Binary,
}

impl Encoding {
    /// The name under which script code knows the encoding.
    pub open spec fn spec_name(self) -> Seq<char> {
        match self {
            Encoding::Utf8 => "UTF-8"@,
            Encoding::Ascii => "US-ASCII"@,
            Encoding::Binary => "ASCII-8BIT"@,
        }
    }

    /// The name under which script code knows the encoding. It is ASCII.
    pub fn name(self) -> (name: &'static str)
        ensures
            name@ == self.spec_name(),
            name.is_ascii(),
    {
        proof {
            reveal_strlit("UTF-8");
            reveal_strlit("US-ASCII");
            reveal_strlit("ASCII-8BIT");
        }
        match self {
            Encoding::Utf8 => "UTF-8",
            Encoding::Ascii => "US-ASCII",
            Encoding::Binary => "ASCII-8BIT",
        }
    }
}

/// A native payload of a heap object.
#[derive(Debug, Clone, Hash)]
pub enum Payload {
    /// The bytes behind a string.
    Bytes(Vec<u8>),
    /// The elements behind an array.
    Vector(Vec<Value>),
    /// The native struct behind an encoding object.
    Encoding(Encoding),
}

/// What a payload holds.
pub ghost enum PayloadView {
    Bytes(Seq<u8>),
    Vector(Seq<Value>),
    Encoding(Encoding),
}

impl PayloadView {
    /// The native shape of the payload.
    pub open spec fn shape(self) -> Rust {
        match self {
            PayloadView::Bytes(_) => Rust::Bytes,
            PayloadView::Vector(_) => Rust::Vec,
            PayloadView::Encoding(_) => Rust::Object,
        }
    }
}

impl View for Payload {
    type V = PayloadView;

    open spec fn view(&self) -> PayloadView {
        match self {
            Payload::Bytes(bytes) => PayloadView::Bytes(bytes@),
            Payload::Vector(elements) => PayloadView::Vector(elements@),
            Payload::Encoding(encoding) => PayloadView::Encoding(*encoding),
        }
    }
}

impl Payload {
    /// The native shape of the payload.
    pub fn shape(&self) -> (shape: Rust)
        ensures
            shape == self@.shape(),
    {
        match self {
            Payload::Bytes(_) => Rust::Bytes,
            Payload::Vector(_) => Rust::Vec,
            Payload::Encoding(_) => Rust::Object,
        }
    }
}

/// What the slot of a heap object holds.
pub open spec fn slot_view(slot: Option<Payload>) -> Option<PayloadView> {
    match slot {
        Some(payload) => Some(payload@),
        None => None,
    }
}

/// The payload that `handle` leads to in a heap with the slots `heap`: the
/// handle must name a heap object by its tag, and its slot must exist and be
/// filled.
pub open spec fn payload_of(heap: Seq<Option<PayloadView>>, handle: Value) -> Option<PayloadView> {
    match handle {
        Value::Heap { tag, slot } => if tag.spec_boxing() == Boxing::HeapAllocated && slot
            < heap.len() {
            heap[slot as int]
        } else {
            None
        },
        _ => None,
    }
}

/// Whether a payload may be attached to `handle`: it names a heap object whose
/// slot exists and is still empty.
pub open spec fn attachable(heap: Seq<Option<PayloadView>>, handle: Value) -> bool {
    handle matches Value::Heap { tag, slot } && tag.spec_boxing() == Boxing::HeapAllocated && slot
        < heap.len() && heap[slot as int] is None
}

/// Whether `handle` may be borrowed as `shape`: it leads to a payload, and the
/// payload has that shape.
pub open spec fn borrowable(heap: Seq<Option<PayloadView>>, handle: Value, shape: Rust) -> bool {
    payload_of(heap, handle) matches Some(payload) && payload.shape() == shape
}

/// What a borrow of `handle` as `shape` comes to: the payload, where the
/// handle may be borrowed so, and else the error that names the runtime tag
/// seen on the handle and the shape asked for.
pub open spec fn borrowed(heap: Seq<Option<PayloadView>>, handle: Value, shape: Rust) -> Result<
    PayloadView,
    UnboxRubyError,
> {
    if borrowable(heap, handle, shape) {
        Ok(payload_of(heap, handle)->0)
    } else {
        Err(UnboxRubyError { from: handle.spec_ruby_type(), into: shape })
    }
}

/// The payload slots of the heap objects of one interpreter, in the order in
/// which the objects were made.
#[derive(Debug, Clone)]
pub struct Heap {
    slots: Vec<Option<Payload>>,
}

impl View for Heap {
    type V = Seq<Option<PayloadView>>;

    closed spec fn view(&self) -> Seq<Option<PayloadView>> {
        self.slots@.map_values(|slot: Option<Payload>| slot_view(slot))
    }
}

impl Heap {
    /// A heap without objects.
    pub fn new() -> (heap: Self)
        ensures
            heap@ == Seq::<Option<PayloadView>>::empty(),
    {
        let heap = Self { slots: Vec::new() };
        assert(heap@ =~= Seq::empty());
        heap
    }

    /// The number of heap objects made so far.
    pub fn len(&self) -> (len: usize)
        ensures
            len == self@.len(),
    {
        self.slots.len()
    }

    /// Makes a heap object with the tag `tag` and no payload, and returns its
    /// handle. A tag that names no heap object, or the engine's internal tag,
    /// makes nothing.
    pub fn allocate(&mut self, tag: Ruby) -> (handle: Option<Value>)
        ensures
            handle is Some <==> tag.spec_boxing() == Boxing::HeapAllocated && tag
                != Ruby::Unreachable,
            handle matches Some(made) ==> made matches Value::Heap { tag: t, slot } && t == tag
                && slot == old(self)@.len(),
            handle is Some ==> final(self)@ == old(self)@.push(None),
            handle is None ==> final(self)@ == old(self)@,
    {
        let handle = Value::heap(tag, self.slots.len());
        if handle.is_some() {
            self.slots.push(None);
            assert(self@ =~= old(self)@.push(None));
        }
        handle
    }

    /// Whether a payload may be attached to `handle`.
    pub fn can_attach(&self, handle: &Value) -> (can: bool)
        ensures
            can == attachable(self@, *handle),
    {
        match handle {
            Value::Heap { tag, slot } => match tag.boxing() {
                Boxing::HeapAllocated => *slot < self.slots.len() && self.slots[*slot].is_none(),
                Boxing::Immediate => false,
            },
            _ => false,
        }
    }

    /// Attaches `payload` to the heap object behind `handle`. This happens
    /// once, when the object is made: attaching to an object that has a
    /// payload, or to anything but a heap object of this heap, breaks the
    /// caller's contract.
    pub fn attach(&mut self, handle: &Value, payload: Payload)
        requires
            attachable(old(self)@, *handle),
        ensures
            final(self)@ == old(self)@.update(handle->slot as int, Some(payload@)),
            payload_of(final(self)@, *handle) == Some(payload@),
    {
        match handle {
            Value::Heap { slot, .. } => {
                self.slots[*slot] = Some(payload);
                assert(self@ =~= old(self)@.update(*slot as int, Some(payload@)));
            },
            _ => {},
        }
    }

    /// A shared reference to the payload behind `handle`, if and only if the
    /// handle names a heap object that carries a payload of the shape
    /// `shape`. Otherwise the error names the runtime tag seen on the handle
    /// and the shape asked for. Nothing is read through an unchecked handle,
    /// and nothing is allocated.
    pub fn try_borrow(&self, handle: &Value, shape: Rust) -> (payload: Result<
        &Payload,
        UnboxRubyError,
    >)
        ensures
            match payload {
                Ok(native) => borrowed(self@, *handle, shape) == Ok::<PayloadView, UnboxRubyError>(
                    native@,
                ),
                Err(error) => borrowed(self@, *handle, shape) == Err::<PayloadView, UnboxRubyError>(
                    error,
                ),
            },
    {
        match handle {
            Value::Heap { tag, slot } => match tag.boxing() {
                Boxing::HeapAllocated => {
                    if *slot < self.slots.len() {
                        match &self.slots[*slot] {
                            Some(payload) => {
                                if payload.shape() == shape {
                                    return Ok(payload);
                                }
                            },
                            None => {},
                        }
                    }
                },
                Boxing::Immediate => {},
            },
            _ => {},
        }
        Err(UnboxRubyError::new(handle, shape))
    }

    /// An exclusive reference to the payload behind `handle`, on the same
    /// terms as `try_borrow`. While it lives the heap cannot be reached
    /// otherwise; what is written through it is what the slot then holds.
    pub fn try_borrow_mut(&mut self, handle: &Value, shape: Rust) -> (payload: Result<
        &mut Payload,
        UnboxRubyError,
    >)
        ensures
            match payload {
                Ok(native) => {
                    &&& borrowed(old(self)@, *handle, shape) == Ok::<PayloadView, UnboxRubyError>(
                        native@,
                    )
                    &&& final(self)@ == old(self)@.update(
                        handle->slot as int,
                        Some(final(native)@),
                    )
                },
                Err(error) => {
                    &&& borrowed(old(self)@, *handle, shape) == Err::<PayloadView, UnboxRubyError>(
                        error,
                    )
                    &&& final(self)@ == old(self)@
                },
            },
    {
        match handle {
            Value::Heap { tag, slot } => match tag.boxing() {
                Boxing::HeapAllocated => {
                    if *slot < self.slots.len() {
                        match &mut self.slots[*slot] {
                            Some(payload) => {
                                if payload.shape() == shape {
                                    return Ok(payload);
                                }
                            },
                            None => {},
                        }
                    }
                },
                Boxing::Immediate => {},
            },
            _ => {},
        }
        Err(UnboxRubyError::new(handle, shape))
    }
}

/// A borrow under a shape other than the payload's own always fails, and the
/// error names the runtime tag of the handle and the shape asked for.
pub proof fn mismatch_is_refused(heap: Seq<Option<PayloadView>>, handle: Value, shape: Rust)
    requires
        payload_of(heap, handle) matches Some(payload) && payload.shape() != shape,
    ensures
        borrowed(heap, handle, shape) == Err::<PayloadView, UnboxRubyError>(
            UnboxRubyError { from: handle.spec_ruby_type(), into: shape },
        ),
        handle matches Value::Heap { tag, .. } && handle.spec_ruby_type() == tag,
{
}

} // verus!
