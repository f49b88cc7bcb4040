//! Trusted boundary around the fixed-capacity byte store.
//!
//! The reply buffer is backed by `heapless::Vec<u8, BUF_CAPACITY>`: a
//! stack-allocated vector with a compile-time capacity that never touches the
//! heap. The functions in this module are the only places the crate calls
//! into `heapless`; each states, over the `stored` contents, exactly what the
//! corresponding operation does according to the `heapless` source.

use vstd::prelude::*;

verus! {

/// Fixed capacity of the reply buffer, in bytes.
pub const BUF_CAPACITY: usize = 2048;

#[verifier::external_type_specification]
#[verifier::external_body]
#[verifier::reject_recursive_types(T)]
pub struct ExHeaplessVec<T, const N: usize>(heapless::Vec<T, N>);

/// The bytes a store currently holds, oldest first.
pub uninterp spec fn stored(v: heapless::Vec<u8, BUF_CAPACITY>) -> Seq<u8>;

/// Relies on `heapless::Vec::new`: a freshly constructed store is empty.
#[verifier::external_body]
pub(crate) fn store_new() -> (r: heapless::Vec<u8, BUF_CAPACITY>)
    ensures
        stored(r) == Seq::<u8>::empty(),
{
    heapless::Vec::new()
}

/// Relies on `heapless::Vec::as_slice`: the store holds `stored` bytes.
#[verifier::external_body]
pub(crate) fn store_len(v: &heapless::Vec<u8, BUF_CAPACITY>) -> (r: usize)
    ensures
        r == stored(*v).len(),
{
    v.as_slice().len()
}

/// Relies on `heapless::Vec::push`: appends the byte when the store is below
/// its capacity, and otherwise hands the byte back and changes nothing.
#[verifier::external_body]
pub(crate) fn store_push(v: &mut heapless::Vec<u8, BUF_CAPACITY>, byte: u8) -> (r: bool)
    ensures
        stored(*old(v)).len() < BUF_CAPACITY ==> r && stored(*final(v)) == stored(*old(v)).push(byte),
        stored(*old(v)).len() >= BUF_CAPACITY ==> !r && stored(*final(v)) == stored(*old(v)),
{
    v.push(byte).is_ok()
}

/// Relies on `heapless::Vec::clear`: removes every byte.
#[verifier::external_body]
pub(crate) fn store_clear(v: &mut heapless::Vec<u8, BUF_CAPACITY>)
    ensures
        stored(*final(v)) == Seq::<u8>::empty(),
{
    v.clear()
}

/// Relies on `heapless::Vec::truncate`: keeps the first `len` bytes and drops
/// the rest; a `len` past the end changes nothing.
#[verifier::external_body]
pub(crate) fn store_truncate(v: &mut heapless::Vec<u8, BUF_CAPACITY>, len: usize)
    ensures
        len <= stored(*old(v)).len() ==> stored(*final(v)) == stored(*old(v)).take(len as int),
        len > stored(*old(v)).len() ==> stored(*final(v)) == stored(*old(v)),
{
    v.truncate(len)
}

/// Relies on indexing through `heapless::Vec`'s deref to a slice: reads the
/// byte at `i`.
#[verifier::external_body]
pub(crate) fn store_get(v: &heapless::Vec<u8, BUF_CAPACITY>, i: usize) -> (r: u8)
    requires
        i < stored(*v).len(),
    ensures
        r == stored(*v)[i as int],
{
    v[i]
}

/// Relies on indexing through `heapless::Vec`'s mutable deref to a slice:
/// overwrites the byte at `i`.
#[verifier::external_body]
pub(crate) fn store_set(v: &mut heapless::Vec<u8, BUF_CAPACITY>, i: usize, byte: u8)
    requires
        i < stored(*old(v)).len(),
    ensures
        stored(*final(v)) == stored(*old(v)).update(i as int, byte),
{
    v[i] = byte;
}

/// Relies on `heapless::Vec::as_slice`: copies the stored bytes out into an
/// ordinary vector.
#[verifier::external_body]
pub(crate) fn store_to_vec(v: &heapless::Vec<u8, BUF_CAPACITY>) -> (r: Vec<u8>)
    ensures
        r@ == stored(*v),
{
    v.as_slice().to_vec()
}

} // verus!
