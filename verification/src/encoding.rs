//! The entry points behind the `Encoding` class of the scripting language.
//! Only `name` is provided; the others answer with a `NotImplementedError`.

use vstd::prelude::*;
use vstd::string::*;
use vstd::utf8::encode_utf8;

use crate::boxing::{payload_of, Encoding, Payload, PayloadView};
use crate::convert::{ConvertMut, UnboxRubyError};
use crate::exception::Error;
use crate::interp::Artichoke;
use crate::types::{Ruby, Rust};
use crate::value::Value;

verus! {

/// Whether `result` is the refusal of an entry point that is not provided.
pub open spec fn not_implemented(result: Result<Value, Error>) -> bool {
    result matches Err(Error::NotImplemented(message)) && message@ == encode_utf8(
        "NotImplementedError"@,
    )
}

/// `Encoding.aliases` is not provided.
pub fn aliases(interp: &mut Artichoke) -> (result: Result<Value, Error>)
    ensures
        not_implemented(result),
        *final(interp) == *old(interp),
{
    Err(Error::not_implemented())
}

/// `Encoding.compatible?` is not provided.
pub fn compatible(interp: &mut Artichoke, lhs: Value, rhs: Value) -> (result: Result<Value, Error>)
    ensures
        not_implemented(result),
        *final(interp) == *old(interp),
{
    Err(Error::not_implemented())
}

/// `Encoding.find` is not provided.
pub fn find(interp: &mut Artichoke, encoding: Value) -> (result: Result<Value, Error>)
    ensures
        not_implemented(result),
        *final(interp) == *old(interp),
{
    Err(Error::not_implemented())
}

/// `Encoding.list` is not provided.
pub fn list(interp: &mut Artichoke) -> (result: Result<Value, Error>)
    ensures
        not_implemented(result),
        *final(interp) == *old(interp),
{
    Err(Error::not_implemented())
}

/// `Encoding.locale_charmap` is not provided.
pub fn locale_charmap(interp: &mut Artichoke) -> (result: Result<Value, Error>)
    ensures
        not_implemented(result),
        *final(interp) == *old(interp),
{
    Err(Error::not_implemented())
}

/// `Encoding.name_list` is not provided.
pub fn name_list(interp: &mut Artichoke) -> (result: Result<Value, Error>)
    ensures
        not_implemented(result),
        *final(interp) == *old(interp),
{
    Err(Error::not_implemented())
}

/// `Encoding#ascii_compatible?` is not provided.
pub fn ascii_compatible(interp: &mut Artichoke, encoding: Value) -> (result: Result<Value, Error>)
    ensures
        not_implemented(result),
        *final(interp) == *old(interp),
{
    Err(Error::not_implemented())
}

/// `Encoding#dummy?` is not provided.
pub fn dummy(interp: &mut Artichoke, encoding: Value) -> (result: Result<Value, Error>)
    ensures
        not_implemented(result),
        *final(interp) == *old(interp),
{
    Err(Error::not_implemented())
}

/// `Encoding#inspect` is not provided.
pub fn inspect(interp: &mut Artichoke, encoding: Value) -> (result: Result<Value, Error>)
    ensures
        not_implemented(result),
        *final(interp) == *old(interp),
{
    Err(Error::not_implemented())
}

/// `Encoding#name`: the name of the encoding behind `encoding`, as a new
/// string object.
///
/// The handle must lead to the payload of an encoding object; any other
/// handle is refused with the error of the borrow, and nothing is made. The
/// new string holds the bytes of the name, which is ASCII, at the end of the
/// heap.
pub fn name(interp: &mut Artichoke, encoding: Value) -> (result: Result<Value, Error>)
    ensures
        match payload_of(old(interp).heap@, encoding) {
            Some(PayloadView::Encoding(native)) => {
                &&& result matches Ok(Value::Heap { tag, slot })
                &&& tag == Ruby::String
                &&& slot == old(interp).heap@.len()
                &&& final(interp).heap@ == old(interp).heap@.push(
                    Some(PayloadView::Bytes(encode_utf8(native.spec_name()))),
                )
                &&& final(interp).same_but_heap(*old(interp))
            },
            _ => {
                &&& result == Err::<Value, Error>(
                    Error::Unbox(
                        UnboxRubyError { from: encoding.spec_ruby_type(), into: Rust::Object },
                    ),
                )
                &&& *final(interp) == *old(interp)
            },
        },
{
    let name = match interp.heap.try_borrow(&encoding, Rust::Object) {
        Ok(Payload::Encoding(native)) => native.name().as_bytes_vec(),
        Ok(_) => {
            return Err(Error::Unbox(UnboxRubyError::new(&encoding, Rust::Object)));
        },
        Err(error) => {
            return Err(Error::Unbox(error));
        },
    };
    let string: Value = interp.convert_mut(name);
    Ok(string)
}

/// `Encoding#names` is not provided.
pub fn names(interp: &mut Artichoke, encoding: Value) -> (result: Result<Value, Error>)
    ensures
        not_implemented(result),
        *final(interp) == *old(interp),
{
    Err(Error::not_implemented())
}

/// `Encoding#replicate` is not provided.
pub fn replicate(interp: &mut Artichoke, encoding: Value, target: Value) -> (result: Result<
    Value,
    Error,
>)
    ensures
        not_implemented(result),
        *final(interp) == *old(interp),
{
    Err(Error::not_implemented())
}

} // verus!
