//! Texts for the display: byte strings of bounded length.

use vstd::prelude::*;

verus! {

/// The longest text, in bytes.
pub const TEXT_CAPACITY: usize = 64;

/// `heapless::Vec`: a vector that holds its items in place and has room for `N` of them.
#[verifier::external_type_specification]
#[verifier::external_body]
#[verifier::reject_recursive_types(T)]
pub struct ExHeaplessVec<T, const N: usize>(heapless::Vec<T, N>);

/// The items that a `heapless::Vec` of bytes holds, first to last.
pub uninterp spec fn held_bytes(v: heapless::Vec<u8, TEXT_CAPACITY>) -> Seq<u8>;

/// Calls `heapless::Vec::from_slice`, which copies the slice item by item, and fails exactly if
/// the slice is longer than the vector's capacity.
#[verifier::external_body]
fn vec_from_slice(bytes: &[u8]) -> (r: Result<heapless::Vec<u8, TEXT_CAPACITY>, ()>)
    ensures
        r is Ok <==> bytes@.len() <= TEXT_CAPACITY,
        r matches Ok(v) ==> held_bytes(v) == bytes@,
{
    heapless::Vec::from_slice(bytes)
}

/// Calls `len` on a `heapless::Vec`: the number of items that it holds, which is never more than
/// its capacity.
#[verifier::external_body]
fn vec_len(v: &heapless::Vec<u8, TEXT_CAPACITY>) -> (n: usize)
    ensures
        n == held_bytes(*v).len(),
        n <= TEXT_CAPACITY,
{
    v.len()
}

/// Indexes a `heapless::Vec`: the item at `i`, which has to be there.
#[verifier::external_body]
fn vec_index(v: &heapless::Vec<u8, TEXT_CAPACITY>, i: usize) -> (b: u8)
    requires
        i < held_bytes(*v).len(),
    ensures
        b == held_bytes(*v)[i as int],
{
    v[i]
}

/// A text of at most [`TEXT_CAPACITY`] bytes.
#[derive(Debug, PartialEq, Eq)]
pub struct Text {
    bytes: heapless::Vec<u8, TEXT_CAPACITY>,
}

impl View for Text {
    type V = Seq<u8>;

    closed spec fn view(&self) -> Seq<u8> {
        held_bytes(self.bytes)
    }
}

impl Text {
    /// The text made of `bytes`, or nothing if they are too many.
    pub fn from_slice(bytes: &[u8]) -> (r: Option<Text>)
        ensures
            r is Some <==> bytes@.len() <= TEXT_CAPACITY,
            r matches Some(text) ==> text@ == bytes@,
    {
        match vec_from_slice(bytes) {
            Ok(bytes) => Some(Text { bytes }),
            Err(()) => None,
        }
    }

    /// The number of bytes.
    pub fn len(&self) -> (n: usize)
        ensures
            n == self@.len(),
            n <= TEXT_CAPACITY,
    {
        vec_len(&self.bytes)
    }

    /// The byte at `i`.
    pub fn byte(&self, i: usize) -> (b: u8)
        requires
            i < self@.len(),
        ensures
            b == self@[i as int],
    {
        vec_index(&self.bytes, i)
    }
}

} // verus!
