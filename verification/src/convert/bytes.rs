//! Byte strings: heap objects with the tag of a string, whose payload holds
//! the bytes.

use vstd::prelude::*;

use crate::boxing::{payload_of, Payload, PayloadView};
use crate::convert::{ConvertMut, TryConvertMut, UnboxRubyError};
use crate::exception::Error;
use crate::interp::Artichoke;
use crate::types::{Ruby, Rust};
use crate::value::Value;

verus! {

impl ConvertMut<Vec<u8>, Value> for Artichoke {
    /// A new string object is made at the end of the heap, and the bytes are
    /// attached to it.
    open spec fn converts_mut(&self, from: Vec<u8>, after: Self, to: Value) -> bool {
        &&& to matches Value::Heap { tag, slot } && tag == Ruby::String && slot == self.heap@.len()
        &&& after.heap@ == self.heap@.push(Some(PayloadView::Bytes(from@)))
        &&& after.same_but_heap(*self)
    }

    fn convert_mut(&mut self, from: Vec<u8>) -> (to: Value) {
        let handle = self.heap.allocate(Ruby::String);
        match handle {
            Some(to) => {
                self.heap.attach(&to, Payload::Bytes(from));
                assert(self.heap@ =~= old(self).heap@.push(Some(PayloadView::Bytes(from@))));
                to
            },
            None => Value::Nil,
        }
    }
}

impl TryConvertMut<Value, Vec<u8>> for Artichoke {
    type Error = Error;

    /// The bytes are copied out of a handle that may be borrowed as bytes;
    /// any other handle is refused. The interpreter stays as it is.
    open spec fn try_converts_mut(&self, from: Value, after: Self, to: Result<Vec<u8>, Error>) -> bool {
        &&& after == *self
        &&& match payload_of(self.heap@, from) {
            Some(PayloadView::Bytes(bytes)) => to matches Ok(copy) && copy@ == bytes,
            _ => to == Err::<Vec<u8>, Error>(
                Error::Unbox(UnboxRubyError { from: from.spec_ruby_type(), into: Rust::Bytes }),
            ),
        }
    }

    fn try_convert_mut(&mut self, from: Value) -> (to: Result<Vec<u8>, Error>) {
        match self.heap.try_borrow(&from, Rust::Bytes) {
            Ok(Payload::Bytes(bytes)) => Ok(bytes.clone()),
            Ok(_) => Err(Error::Unbox(UnboxRubyError::new(&from, Rust::Bytes))),
            Err(error) => Err(Error::Unbox(error)),
        }
    }
}

/// Bytes that are boxed and unboxed again are the bytes they were.
pub proof fn round_trip_bytes(
    before: Artichoke,
    x: Vec<u8>,
    boxed: Value,
    between: Artichoke,
    back: Result<Vec<u8>, Error>,
    after: Artichoke,
)
    requires
        ConvertMut::<Vec<u8>, Value>::converts_mut(&before, x, between, boxed),
        TryConvertMut::<Value, Vec<u8>>::try_converts_mut(&between, boxed, after, back),
    ensures
        back matches Ok(copy) && copy@ == x@,
{
}

} // verus!
