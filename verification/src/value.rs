//! Value handles: the unit that every other part of the bridge works on.

use vstd::prelude::*;

use crate::types::{Boxing, Ruby};

verus! {

/// A handle to one value of the engine.
///
/// An immediate carries its scalar in the handle. A heap handle carries the
/// runtime tag of its object and the slot under which the interpreter that
/// made it keeps the object's payload; it means nothing to any other
/// interpreter.
#[derive(Clone, Copy, Debug, Hash, PartialEq, Eq, Structural)]
pub enum Value {
    Nil,
    Bool(bool),
    Fixnum(i64),
    /// A float, held as the bits of its IEEE 754 double.
    Float(u64),
    /// An interned symbol, held as its identifier.
    Symbol(u32),
    /// A collected heap object.
    Heap { tag: Ruby, slot: usize },
    /// The engine's internal marker value.
    Unreachable,
}

impl Value {
    /// The runtime type tag that inspecting the handle gives. A heap handle
    /// that claims the tag of an immediate names nothing that the host may
    /// touch: it counts as unreachable.
    pub open spec fn spec_ruby_type(self) -> Ruby {
        match self {
            Value::Nil => Ruby::Nil,
            Value::Bool(_) => Ruby::Bool,
            Value::Fixnum(_) => Ruby::Fixnum,
            Value::Float(_) => Ruby::Float,
            Value::Symbol(_) => Ruby::Symbol,
            Value::Heap { tag, .. } => if tag.spec_boxing() == Boxing::HeapAllocated {
                tag
            } else {
                Ruby::Unreachable
            },
            Value::Unreachable => Ruby::Unreachable,
        }
    }

    /// A heap handle is well formed when its tag names a heap object that may
    /// be handed out.
    pub open spec fn wf(self) -> bool {
        self matches Value::Heap { tag, .. } ==> tag.spec_boxing() == Boxing::HeapAllocated
            && tag != Ruby::Unreachable
    }

    /// Whether the handle stands for the engine's internal marker.
    pub open spec fn spec_is_unreachable(self) -> bool {
        self.spec_ruby_type() == Ruby::Unreachable
    }

    /// A handle to a heap object, or `None` where `tag` does not name one that
    /// may be handed out.
    pub fn heap(tag: Ruby, slot: usize) -> (value: Option<Value>)
        ensures
            value == if tag.spec_boxing() == Boxing::HeapAllocated && tag != Ruby::Unreachable {
                Some(Value::Heap { tag, slot })
            } else {
                None
            },
            value matches Some(v) ==> v.wf(),
    {
        match tag.boxing() {
            Boxing::Immediate => None,
            Boxing::HeapAllocated => match tag {
                Ruby::Unreachable => None,
                _ => Some(Value::Heap { tag, slot }),
            },
        }
    }

    /// The runtime type tag of the value.
    pub fn ruby_type(&self) -> (tag: Ruby)
        ensures
            tag == self.spec_ruby_type(),
    {
        match self {
            Value::Nil => Ruby::Nil,
            Value::Bool(_) => Ruby::Bool,
            Value::Fixnum(_) => Ruby::Fixnum,
            Value::Float(_) => Ruby::Float,
            Value::Symbol(_) => Ruby::Symbol,
            Value::Heap { tag, .. } => match tag.boxing() {
                Boxing::HeapAllocated => *tag,
                Boxing::Immediate => Ruby::Unreachable,
            },
            Value::Unreachable => Ruby::Unreachable,
        }
    }

    /// Classifies the handle from its runtime tag alone; nothing is read or
    /// changed beyond the handle.
    pub fn classify(&self) -> (boxing: Boxing)
        ensures
            boxing == self.spec_ruby_type().spec_boxing(),
    {
        self.ruby_type().boxing()
    }

    /// Whether the value is `nil`.
    pub fn is_nil(&self) -> (nil: bool)
        ensures
            nil == (self.spec_ruby_type() == Ruby::Nil),
    {
        match self.ruby_type() {
            Ruby::Nil => true,
            _ => false,
        }
    }

    /// Whether the value is the engine's internal marker, which is unsafe to
    /// hand on.
    pub fn is_unreachable(&self) -> (unreachable: bool)
        ensures
            unreachable == self.spec_is_unreachable(),
    {
        match self.ruby_type() {
            Ruby::Unreachable => true,
            _ => false,
        }
    }
}

} // verus!
