//! Arrays: heap objects with the tag of an array, whose payload holds the
//! handles of the elements.

use vstd::prelude::*;

use crate::boxing::{payload_of, Payload, PayloadView};
use crate::convert::{ConvertMut, TryConvertMut, UnboxRubyError};
use crate::exception::Error;
use crate::interp::Artichoke;
use crate::types::{Ruby, Rust};
use crate::value::Value;

verus! {

impl ConvertMut<Vec<Value>, Value> for Artichoke {
    /// A new array object is made at the end of the heap, and the handles are
    /// attached to it.
    open spec fn converts_mut(&self, from: Vec<Value>, after: Self, to: Value) -> bool {
        &&& to matches Value::Heap { tag, slot } && tag == Ruby::Array && slot == self.heap@.len()
        &&& after.heap@ == self.heap@.push(Some(PayloadView::Vector(from@)))
        &&& after.same_but_heap(*self)
    }

    fn convert_mut(&mut self, from: Vec<Value>) -> (to: Value) {
        let handle = self.heap.allocate(Ruby::Array);
        match handle {
            Some(to) => {
                self.heap.attach(&to, Payload::Vector(from));
                assert(self.heap@ =~= old(self).heap@.push(Some(PayloadView::Vector(from@))));
                to
            },
            None => Value::Nil,
        }
    }
}

impl TryConvertMut<Value, Vec<Value>> for Artichoke {
    type Error = Error;

    /// The handles are copied out of a handle that may be borrowed as a
    /// vector; any other handle is refused. The interpreter stays as it is.
    open spec fn try_converts_mut(
        &self,
        from: Value,
        after: Self,
        to: Result<Vec<Value>, Error>,
    ) -> bool {
        &&& after == *self
        &&& match payload_of(self.heap@, from) {
            Some(PayloadView::Vector(elements)) => to matches Ok(copy) && copy@ == elements,
            _ => to == Err::<Vec<Value>, Error>(
                Error::Unbox(UnboxRubyError { from: from.spec_ruby_type(), into: Rust::Vec }),
            ),
        }
    }

    fn try_convert_mut(&mut self, from: Value) -> (to: Result<Vec<Value>, Error>) {
        match self.heap.try_borrow(&from, Rust::Vec) {
            Ok(Payload::Vector(elements)) => Ok(elements.clone()),
            Ok(_) => Err(Error::Unbox(UnboxRubyError::new(&from, Rust::Vec))),
            Err(error) => Err(Error::Unbox(error)),
        }
    }
}

/// Handles that are boxed as an array and unboxed again are the handles they
/// were, in their order.
pub proof fn round_trip_array(
    before: Artichoke,
    x: Vec<Value>,
    boxed: Value,
    between: Artichoke,
    back: Result<Vec<Value>, Error>,
    after: Artichoke,
)
    requires
        ConvertMut::<Vec<Value>, Value>::converts_mut(&before, x, between, boxed),
        TryConvertMut::<Value, Vec<Value>>::try_converts_mut(&between, boxed, after, back),
    ensures
        back matches Ok(copy) && copy@ == x@,
{
}

} // verus!
