//! The two closed tag tables of the bridge: the engine-side runtime type tag
//! and the host-side native shape tag, with the boxing class that follows
//! from a runtime tag.

use vstd::prelude::*;

verus! {

/// Runtime type tag: the built-in class of a value as the engine reports it.
#[derive(Clone, Copy, Debug, Hash, PartialEq, Eq, PartialOrd, Ord, Structural)]
pub enum Ruby {
    Array,
    Bool,
    Class,
    CPointer,
    Data,
    Exception,
    Fiber,
    Fixnum,
    Float,
    Hash,
    InlineStruct,
    Module,
    Nil,
    Object,
    Proc,
    Range,
    SingletonClass,
    String,
    Symbol,
    /// Reserved for the engine's own bookkeeping; a value with this tag must
    /// never reach host or script code.
    Unreachable,
    RecursiveSelfOwnership,
}

/// Native shape tag: the host-side shape that a conversion asks for, or that
/// a payload attached to a heap object has.
#[derive(Clone, Copy, Debug, Hash, PartialEq, Eq, PartialOrd, Ord, Structural)]
pub enum Rust {
    Bool,
    Bytes,
    Float,
    Hash,
    Object,
    SignedInt,
    String,
    UnsignedInt,
    Vec,
}

/// How a value handle holds its data.
#[derive(Clone, Copy, Debug, Hash, PartialEq, Eq, Structural)]
pub enum Boxing {
    /// The scalar is packed into the handle itself: no heap object, nothing
    /// for the collector to trace.
    Immediate,
    /// The handle refers to a collected heap object, which may carry one
    /// native payload.
    HeapAllocated,
}

impl Ruby {
    /// The boxing class of a tag: nil, booleans, integers, floats and symbols
    /// are immediates, every other tag names a heap object.
    pub open spec fn spec_boxing(self) -> Boxing {
        match self {
            Ruby::Nil | Ruby::Bool | Ruby::Fixnum | Ruby::Float | Ruby::Symbol => Boxing::Immediate,
            _ => Boxing::HeapAllocated,
        }
    }

    /// Classifies a tag as immediate or heap-allocated.
    pub fn boxing(self) -> (boxing: Boxing)
        ensures
            boxing == self.spec_boxing(),
    {
        match self {
            Ruby::Nil | Ruby::Bool | Ruby::Fixnum | Ruby::Float | Ruby::Symbol => Boxing::Immediate,
            _ => Boxing::HeapAllocated,
        }
    }

    /// The class name used in messages for a value with this tag.
    pub open spec fn spec_class_name(self) -> Seq<char> {
        match self {
            Ruby::Array => "Array"@,
            Ruby::Bool => "Boolean"@,
            Ruby::Class => "Class"@,
            Ruby::CPointer => "C Pointer"@,
            Ruby::Data => "Rust-backed Ruby instance"@,
            Ruby::Exception => "Exception"@,
            Ruby::Fiber => "Fiber"@,
            Ruby::Fixnum => "Fixnum"@,
            Ruby::Float => "Float"@,
            Ruby::Hash => "Hash"@,
            Ruby::InlineStruct => "Inline Struct"@,
            Ruby::Module => "Module"@,
            Ruby::Nil => "NilClass"@,
            Ruby::Object => "Object"@,
            Ruby::Proc => "Proc"@,
            Ruby::Range => "Range"@,
            Ruby::SingletonClass => "Singleton (anonymous) class"@,
            Ruby::String => "String"@,
            Ruby::Symbol => "Symbol"@,
            Ruby::Unreachable => "internal and unreachable"@,
            Ruby::RecursiveSelfOwnership => "recursive self ownership"@,
        }
    }

    /// The class name used in messages for a value with this tag.
    pub fn class_name(self) -> (name: &'static str)
        ensures
            name@ == self.spec_class_name(),
    {
        match self {
            Ruby::Array => "Array",
            Ruby::Bool => "Boolean",
            Ruby::Class => "Class",
            Ruby::CPointer => "C Pointer",
            Ruby::Data => "Rust-backed Ruby instance",
            Ruby::Exception => "Exception",
            Ruby::Fiber => "Fiber",
            Ruby::Fixnum => "Fixnum",
            Ruby::Float => "Float",
            Ruby::Hash => "Hash",
            Ruby::InlineStruct => "Inline Struct",
            Ruby::Module => "Module",
            Ruby::Nil => "NilClass",
            Ruby::Object => "Object",
            Ruby::Proc => "Proc",
            Ruby::Range => "Range",
            Ruby::SingletonClass => "Singleton (anonymous) class",
            Ruby::String => "String",
            Ruby::Symbol => "Symbol",
            Ruby::Unreachable => "internal and unreachable",
            Ruby::RecursiveSelfOwnership => "recursive self ownership",
        }
    }
}

impl Rust {
    /// The name used in messages for a native shape.
    pub open spec fn spec_shape_name(self) -> Seq<char> {
        match self {
            Rust::Bool => "bool"@,
            Rust::Bytes => "&[u8]"@,
            Rust::Float => "f64"@,
            Rust::Hash => "HashMap"@,
            Rust::Object => "struct"@,
            Rust::SignedInt => "i64"@,
            Rust::String => "String"@,
            Rust::UnsignedInt => "u64"@,
            Rust::Vec => "Vec"@,
        }
    }

    /// The name used in messages for a native shape.
    pub fn shape_name(self) -> (name: &'static str)
        ensures
            name@ == self.spec_shape_name(),
    {
        match self {
            Rust::Bool => "bool",
            Rust::Bytes => "&[u8]",
            Rust::Float => "f64",
            Rust::Hash => "HashMap",
            Rust::Object => "struct",
            Rust::SignedInt => "i64",
            Rust::String => "String",
            Rust::UnsignedInt => "u64",
            Rust::Vec => "Vec",
        }
    }
}

} // verus!
