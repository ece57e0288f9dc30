//! The byte buffer that art travels in: `bytes::BytesMut`, as the player
//! client hands it out.

use vstd::prelude::*;

verus! {

/// `bytes::BytesMut`, a growable buffer of bytes. The contracts speak of
/// what it holds through `contents`.
#[verifier::external_type_specification]
#[verifier::external_body]
pub struct ExBytesMut(bytes::BytesMut);

/// The bytes that a buffer holds, first to last.
pub uninterp spec fn contents(buf: bytes::BytesMut) -> Seq<u8>;

/// `BytesMut::len` returns the number of bytes that the buffer holds.
pub assume_specification[ bytes::BytesMut::len ](buf: &bytes::BytesMut) -> (n: usize)
    ensures
        n == contents(*buf).len(),
;

/// `BytesMut::reserve` makes room for `additional` more bytes and leaves the
/// bytes held as they are. It panics if the new capacity overflows `usize`,
/// and no allocation is larger than `isize::MAX` bytes; the bound leaves
/// both out.
pub assume_specification[ bytes::BytesMut::reserve ](buf: &mut bytes::BytesMut, additional: usize)
    requires
        contents(*old(buf)).len() + additional <= isize::MAX,
    ensures
        contents(*final(buf)) == contents(*old(buf)),
;

/// `BytesMut::extend_from_slice`, handed the bytes of a second buffer:
/// afterwards `buf` holds what it held before, followed by the bytes of
/// `more`. Growing the buffer goes through `reserve`, hence the same limit.
#[verifier::external_body]
pub(crate) fn append(buf: &mut bytes::BytesMut, more: &bytes::BytesMut)
    requires
        contents(*old(buf)).len() + contents(*more).len() <= isize::MAX,
    ensures
        contents(*final(buf)) == contents(*old(buf)) + contents(*more),
{
    buf.extend_from_slice(more);
}

} // verus!
