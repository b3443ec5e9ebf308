use vstd::prelude::*;
use bytes::BytesMut;

verus! {

#[verifier::external_type_specification]
#[verifier::external_body]
pub struct ExBytesMut(BytesMut);

/// The bytes a `BytesMut` holds, in order.
pub uninterp spec fn bytes_of(b: BytesMut) -> Seq<u8>;

/// The size of each per-connection read and write buffer.
pub const MAX_BUFFER_LIMIT: usize = 262144;

/// Relies on `BytesMut::with_capacity`: the new buffer holds no bytes.
#[verifier::external_body]
pub(crate) fn buffer_with_capacity(capacity: usize) -> (r: BytesMut)
    requires
        capacity <= isize::MAX,
    ensures
        bytes_of(r) == Seq::<u8>::empty(),
{
    BytesMut::with_capacity(capacity)
}

/// Relies on `BytesMut::len`: the number of bytes held.
#[verifier::external_body]
pub(crate) fn buffer_len(b: &BytesMut) -> (r: usize)
    ensures
        r == bytes_of(*b).len(),
{
    b.len()
}

/// Relies on `BytesMut::clear`: afterwards the buffer holds no bytes.
#[verifier::external_body]
pub(crate) fn buffer_clear(b: &mut BytesMut)
    ensures
        bytes_of(*final(b)) == Seq::<u8>::empty(),
{
    b.clear()
}

/// Relies on `BytesMut::split_to`: the first `at` bytes leave the buffer,
/// the rest stay in order. It panics when `at` exceeds the length.
#[verifier::external_body]
pub(crate) fn buffer_discard_front(b: &mut BytesMut, at: usize)
    requires
        at <= bytes_of(*old(b)).len(),
    ensures
        bytes_of(*final(b)) == bytes_of(*old(b)).subrange(at as int, bytes_of(*old(b)).len() as int),
{
    let _ = b.split_to(at);
}

/// Relies on `BytesMut::extend_from_slice`: the bytes of `s` are appended.
/// Growing past `isize::MAX` bytes would panic.
#[verifier::external_body]
pub(crate) fn buffer_extend(b: &mut BytesMut, s: &[u8])
    requires
        bytes_of(*old(b)).len() + s@.len() <= isize::MAX,
    ensures
        bytes_of(*final(b)) == bytes_of(*old(b)) + s@,
{
    b.extend_from_slice(s)
}

/// Relies on `BytesMut`'s `Deref` to `[u8]`: the held bytes as a slice.
#[verifier::external_body]
pub(crate) fn buffer_bytes(b: &BytesMut) -> (r: &[u8])
    ensures
        r@ == bytes_of(*b),
{
    b
}

} // verus!
