//! Interface to the shared, reference-counted byte buffer primitive
//! (`bytes::Bytes` and `bytes::BytesMut`).
//!
//! The buffer's own allocation and reference-counting strategy is not
//! re-implemented here; its handles are modelled by the byte contents their
//! view denotes and by whether they are backed by static data.

use bytes::Bytes;
use bytes::BytesMut;
use vstd::prelude::*;

verus! {

#[verifier::external_type_specification]
#[verifier::external_body]
pub struct ExBytes(Bytes);

#[verifier::external_type_specification]
#[verifier::external_body]
pub struct ExBytesMut(BytesMut);

/// The byte contents visible through a `Bytes` handle's view.
pub uninterp spec fn bytes_contents(b: Bytes) -> Seq<u8>;

/// True of a handle backed by process-lifetime static data; such a handle is
/// never exclusively owned and is never freed.
pub uninterp spec fn bytes_is_static(b: Bytes) -> bool;

/// The byte contents of a mutable `BytesMut` buffer.
pub uninterp spec fn bytes_mut_contents(m: BytesMut) -> Seq<u8>;

/// Relies on `Bytes::new`: an empty handle over static data, with no
/// allocation.
#[verifier::external_body]
pub(crate) fn bytes_new() -> (r: Bytes)
    ensures
        bytes_contents(r) == Seq::<u8>::empty(),
        bytes_is_static(r),
{
    Bytes::new()
}

/// Relies on `Bytes::from_static`: the handle points directly at the given
/// static slice, with no allocation or copy.
#[verifier::external_body]
pub(crate) fn bytes_from_static(s: &'static [u8]) -> (r: Bytes)
    ensures
        bytes_contents(r) == s@,
        bytes_is_static(r),
{
    Bytes::from_static(s)
}

/// Relies on `Bytes::copy_from_slice`: fresh storage holding a copy of the
/// input.
#[verifier::external_body]
pub(crate) fn bytes_copy_from_slice(data: &[u8]) -> (r: Bytes)
    ensures
        bytes_contents(r) == data@,
{
    Bytes::copy_from_slice(data)
}

/// Relies on `From<Box<[u8]>> for Bytes`: the handle takes over the boxed
/// slice's contents.
#[verifier::external_body]
pub(crate) fn bytes_from_boxed_slice(v: Box<[u8]>) -> (r: Bytes)
    ensures
        bytes_contents(r) == v@,
{
    Bytes::from(v)
}

/// Relies on `From<Vec<u8>> for Bytes`: the handle takes over the vector's
/// contents.
#[verifier::external_body]
pub(crate) fn bytes_from_vec(v: Vec<u8>) -> (r: Bytes)
    ensures
        bytes_contents(r) == v@,
{
    Bytes::from(v)
}

/// Relies on `From<Bytes> for Vec<u8>`: the vector holds the handle's
/// contents (moved out when uniquely owned, copied otherwise).
#[verifier::external_body]
pub(crate) fn bytes_into_vec(b: Bytes) -> (r: Vec<u8>)
    ensures
        r@ == bytes_contents(b),
{
    Vec::from(b)
}

/// Relies on `Bytes` dereferencing to `[u8]`: a borrowed view of the
/// handle's contents.
#[verifier::external_body]
pub(crate) fn bytes_as_slice(b: &Bytes) -> (r: &[u8])
    ensures
        r@ == bytes_contents(*b),
{
    b
}

/// Relies on `Bytes::clone`: a new handle over the same contents, sharing
/// the allocation (only a reference-count increment, no copy).
#[verifier::external_body]
pub(crate) fn bytes_clone(b: &Bytes) -> (r: Bytes)
    ensures
        bytes_contents(r) == bytes_contents(*b),
        bytes_is_static(r) == bytes_is_static(*b),
{
    b.clone()
}

/// Relies on `Bytes::clear`: resets the handle's view to length zero without
/// touching other handles over the same allocation.
#[verifier::external_body]
pub(crate) fn bytes_clear(b: &mut Bytes)
    ensures
        bytes_contents(*final(b)) == Seq::<u8>::empty(),
{
    b.clear()
}

/// Relies on `Bytes::is_unique`: true only if this handle is the sole
/// reference to its allocation; always false for static-backed handles. The
/// result reflects the reference count at the instant of the call, so nothing
/// more is promised of it.
#[verifier::external_body]
pub(crate) fn bytes_is_unique(b: &Bytes) -> (r: bool)
    ensures
        bytes_is_static(*b) ==> r == false,
{
    b.is_unique()
}

/// Relies on `Bytes::slice_ref`: given a slice that lies within this
/// handle's own memory range, returns a handle over the same allocation
/// restricted to exactly those bytes, in O(1) and without copying. When the
/// slice does not lie within the handle's memory, the call panics (fails
/// fast) rather than producing a mismatched view; that address containment
/// cannot be stated over the values alone.
#[verifier::external_body]
pub(crate) fn bytes_slice_ref(b: &Bytes, subset: &[u8]) -> (r: Bytes)
    ensures
        bytes_contents(r) == subset@,
{
    b.slice_ref(subset)
}

/// Relies on `Bytes::try_into_mut`: atomically checks and claims exclusive
/// ownership of the entire backing allocation. On success the mutable buffer
/// holds the same contents without copying; on failure the handle comes back
/// unchanged. Static-backed handles always fail. Success depends on the
/// reference count at the instant of the call, so neither outcome is promised
/// otherwise.
#[verifier::external_body]
pub(crate) fn bytes_try_into_mut(b: Bytes) -> (r: Result<BytesMut, Bytes>)
    ensures
        match r {
            Ok(m) => bytes_mut_contents(m) == bytes_contents(b),
            Err(o) => o == b,
        },
        bytes_is_static(b) ==> r is Err,
{
    Bytes::try_into_mut(b)
}

/// Relies on `From<BytesMut> for Vec<u8>`: the vector holds the buffer's
/// contents.
#[verifier::external_body]
pub(crate) fn bytes_mut_into_vec(m: BytesMut) -> (r: Vec<u8>)
    ensures
        r@ == bytes_mut_contents(m),
{
    Vec::from(m)
}

/// Relies on `From<Bytes> for BytesMut`: a mutable buffer with the handle's
/// contents (moved when uniquely owned, copied otherwise).
#[verifier::external_body]
pub(crate) fn bytes_into_mut(b: Bytes) -> (r: BytesMut)
    ensures
        bytes_mut_contents(r) == bytes_contents(b),
{
    BytesMut::from(b)
}

} // verus!
