//! The native representation behind a string in the binary encoding: bytes
//! that are not taken to be text.

use std::borrow::Cow;

use vstd::prelude::*;
use vstd::string::*;
use vstd::utf8::encode_utf8;

verus! {

/// A string of bytes without an encoding.
#[derive(Debug, Clone, Hash)]
pub struct BinaryString {
    inner: Vec<u8>,
}

impl View for BinaryString {
    type V = Seq<u8>;

    /// The bytes of the string.
    closed spec fn view(&self) -> Seq<u8> {
        self.inner@
    }
}

impl BinaryString {
    /// The string that holds the bytes of `buf`.
    pub fn new(buf: Vec<u8>) -> (string: Self)
        ensures
            string@ == buf@,
    {
        Self { inner: buf }
    }

    /// The buffer of the string.
    pub fn into_buf(self) -> (buf: Vec<u8>)
        ensures
            buf@ == self@,
    {
        self.inner
    }

    /// Appends `bytes` to the string.
    pub fn extend(&mut self, bytes: &[u8])
        ensures
            final(self)@ == old(self)@ + bytes@,
    {
        self.inner.extend_from_slice(bytes);
        assert(self@ =~= old(self)@ + bytes@);
    }

    /// The bytes of the string.
    pub fn as_slice(&self) -> (bytes: &[u8])
        ensures
            bytes@ == self@,
    {
        self.inner.as_slice()
    }

    /// The bytes of the string, to be written in place: the string then holds
    /// what was written.
    pub fn as_mut_slice(&mut self) -> (bytes: &mut [u8])
        ensures
            bytes@ == old(self)@,
            final(self)@ == final(bytes)@,
    {
        self.inner.as_mut_slice()
    }
}

impl Default for BinaryString {
    /// The empty string.
    fn default() -> (string: Self)
        ensures
            string@ == Seq::<u8>::empty(),
    {
        Self { inner: Vec::new() }
    }
}

impl From<Vec<u8>> for BinaryString {
    fn from(content: Vec<u8>) -> (string: Self)
        ensures
            string@ == content@,
    {
        Self::new(content)
    }
}

// Two values with equal bytes need not be the same value, so the conversions
// into this type promise nothing by way of `from_spec`: each says in `from`
// itself which bytes the result holds.
impl vstd::std_specs::convert::FromSpecImpl<Vec<u8>> for BinaryString {
    open spec fn obeys_from_spec() -> bool {
        false
    }

    open spec fn from_spec(content: Vec<u8>) -> Self {
        arbitrary()
    }
}

impl<'a> From<&'a [u8]> for BinaryString {
    fn from(content: &'a [u8]) -> (string: Self)
        ensures
            string@ == content@,
    {
        Self::new(vstd::slice::slice_to_vec(content))
    }
}

impl<'a> vstd::std_specs::convert::FromSpecImpl<&'a [u8]> for BinaryString {
    open spec fn obeys_from_spec() -> bool {
        false
    }

    open spec fn from_spec(content: &'a [u8]) -> Self {
        arbitrary()
    }
}

impl<const N: usize> From<[u8; N]> for BinaryString {
    fn from(content: [u8; N]) -> (string: Self)
        ensures
            string@ == content@,
    {
        let mut buf: Vec<u8> = Vec::new();
        let mut i: usize = 0;
        while i < N
            invariant
                i <= N,
                buf@ == content@.subrange(0, i as int),
            decreases N - i,
        {
            buf.push(content[i]);
            i += 1;
            assert(buf@ =~= content@.subrange(0, i as int));
        }
        assert(buf@ =~= content@);
        Self::new(buf)
    }
}

impl<const N: usize> vstd::std_specs::convert::FromSpecImpl<[u8; N]> for BinaryString {
    open spec fn obeys_from_spec() -> bool {
        false
    }

    open spec fn from_spec(content: [u8; N]) -> Self {
        arbitrary()
    }
}

impl From<String> for BinaryString {
    fn from(s: String) -> (string: Self)
        ensures
            string@ == encode_utf8(s@),
    {
        Self::new(s.as_str().as_bytes_vec())
    }
}

impl vstd::std_specs::convert::FromSpecImpl<String> for BinaryString {
    open spec fn obeys_from_spec() -> bool {
        false
    }

    open spec fn from_spec(s: String) -> Self {
        arbitrary()
    }
}

impl From<&str> for BinaryString {
    fn from(s: &str) -> (string: Self)
        ensures
            string@ == encode_utf8(s@),
    {
        Self::new(s.as_bytes_vec())
    }
}

impl vstd::std_specs::convert::FromSpecImpl<&str> for BinaryString {
    open spec fn obeys_from_spec() -> bool {
        false
    }

    open spec fn from_spec(s: &str) -> Self {
        arbitrary()
    }
}

impl From<BinaryString> for Vec<u8> {
    fn from(s: BinaryString) -> (buf: Self)
        ensures
            buf@ == s@,
    {
        s.into_buf()
    }
}

impl vstd::std_specs::convert::FromSpecImpl<BinaryString> for Vec<u8> {
    open spec fn obeys_from_spec() -> bool {
        false
    }

    open spec fn from_spec(s: BinaryString) -> Self {
        arbitrary()
    }
}

impl AsRef<[u8]> for BinaryString {
    fn as_ref(&self) -> (bytes: &[u8])
        ensures
            bytes@ == self@,
    {
        self.as_slice()
    }
}

impl core::ops::Deref for BinaryString {
    type Target = [u8];

    fn deref(&self) -> (bytes: &[u8])
        ensures
            bytes@ == self@,
    {
        self.as_slice()
    }
}

impl<'a> From<&'a mut [u8]> for BinaryString {
    fn from(content: &'a mut [u8]) -> (string: Self)
        ensures
            string@ == old(content)@,
    {
        Self::new(vstd::slice::slice_to_vec(content))
    }
}

impl<'a> vstd::std_specs::convert::FromSpecImpl<&'a mut [u8]> for BinaryString {
    open spec fn obeys_from_spec() -> bool {
        false
    }

    open spec fn from_spec(content: &'a mut [u8]) -> Self {
        arbitrary()
    }
}

impl<'a> From<Cow<'a, [u8]>> for BinaryString {
    fn from(content: Cow<'a, [u8]>) -> (string: Self)
        ensures
            string@ == content@,
    {
        match content {
            Cow::Borrowed(bytes) => Self::new(vstd::slice::slice_to_vec(bytes)),
            Cow::Owned(buf) => Self::new(buf),
        }
    }
}

impl<'a> vstd::std_specs::convert::FromSpecImpl<Cow<'a, [u8]>> for BinaryString {
    open spec fn obeys_from_spec() -> bool {
        false
    }

    open spec fn from_spec(content: Cow<'a, [u8]>) -> Self {
        arbitrary()
    }
}

impl<const N: usize> From<&[u8; N]> for BinaryString {
    fn from(content: &[u8; N]) -> (string: Self)
        ensures
            string@ == content@,
    {
        Self::from(*content)
    }
}

impl<const N: usize> vstd::std_specs::convert::FromSpecImpl<&[u8; N]> for BinaryString {
    open spec fn obeys_from_spec() -> bool {
        false
    }

    open spec fn from_spec(content: &[u8; N]) -> Self {
        arbitrary()
    }
}

impl AsMut<[u8]> for BinaryString {
    fn as_mut(&mut self) -> (bytes: &mut [u8])
        ensures
            bytes@ == old(self)@,
            final(self)@ == final(bytes)@,
    {
        self.as_mut_slice()
    }
}

impl core::ops::DerefMut for BinaryString {
    fn deref_mut(&mut self) -> (bytes: &mut [u8])
        ensures
            bytes@ == old(self)@,
            final(self)@ == final(bytes)@,
    {
        self.as_mut_slice()
    }
}

} // verus!
