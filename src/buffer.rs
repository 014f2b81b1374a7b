//! The decoder's accumulation area: tokio-core's `EasyBuf`, a byte window
//! whose front can be drained without moving the rest.
use tokio_core::io::EasyBuf;
use vstd::prelude::*;

verus! {

#[verifier::external_type_specification]
#[verifier::external_body]
pub struct ExEasyBuf(EasyBuf);

/// The bytes that an `EasyBuf` currently holds, front first.
pub uninterp spec fn easybuf_bytes(b: EasyBuf) -> Seq<u8>;

/// Relies on `EasyBuf::new`: a fresh buffer holds no bytes.
pub assume_specification[ EasyBuf::new ]() -> (r: EasyBuf)
    ensures
        easybuf_bytes(r) == Seq::<u8>::empty(),
;

/// Relies on `EasyBuf::len`: the number of bytes held.
pub assume_specification[ EasyBuf::len ](b: &EasyBuf) -> (r: usize)
    ensures
        r as int == easybuf_bytes(*b).len(),
;

/// Relies on `EasyBuf::as_slice`: the window `[start, end)` of the shared vector.
pub assume_specification[ EasyBuf::as_slice ](b: &EasyBuf) -> (r: &[u8])
    ensures
        r@ == easybuf_bytes(*b),
;

/// Relies on `EasyBuf::drain_to`: the first `at` bytes leave in the result, the
/// rest stays; it panics when `at` exceeds the length.
pub assume_specification[ EasyBuf::drain_to ](b: &mut EasyBuf, at: usize) -> (r: EasyBuf)
    requires
        at <= easybuf_bytes(*old(b)).len(),
    ensures
        easybuf_bytes(r) == easybuf_bytes(*old(b)).subrange(0, at as int),
        easybuf_bytes(*final(b)) == easybuf_bytes(*old(b)).subrange(
            at as int,
            easybuf_bytes(*old(b)).len() as int,
        ),
;

/// Relies on `EasyBuf::get_mut`: the vector it hands out holds the buffer's
/// bytes, and the buffer takes the vector's new length back when it is dropped.
#[verifier::external_body]
pub(crate) fn buffer_append(b: &mut EasyBuf, more: &[u8])
    ensures
        easybuf_bytes(*final(b)) == easybuf_bytes(*old(b)) + more@,
{
    b.get_mut().extend_from_slice(more);
}

} // verus!
