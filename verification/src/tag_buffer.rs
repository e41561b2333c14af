//! The bytes of a tag's value while they arrive, and their text.

use vstd::prelude::*;
use bytes::BytesMut;

verus! {

/// `bytes::BytesMut`, a growable buffer of bytes. What it holds is read
/// through `buffered`.
#[verifier::external_type_specification]
#[verifier::external_body]
pub struct ExBytesMut(BytesMut);

/// The bytes that a buffer holds, in their order.
pub uninterp spec fn buffered(buffer: BytesMut) -> Seq<u8>;

/// The text of a byte sequence read as UTF-8, with the replacement
/// character in place of what is not valid UTF-8.
pub uninterp spec fn utf8_lossy(bytes: Seq<u8>) -> Seq<char>;

/// Trusted: calls `bytes::BytesMut::new`, a buffer without bytes.
#[verifier::external_body]
pub(crate) fn buffer_new() -> (buffer: BytesMut)
    ensures
        buffered(buffer) == Seq::<u8>::empty(),
{
    BytesMut::new()
}

/// Trusted: calls `bytes::BytesMut::len`, the number of bytes held.
#[verifier::external_body]
pub(crate) fn buffer_len(buffer: &BytesMut) -> (len: usize)
    ensures
        len == buffered(*buffer).len(),
{
    buffer.len()
}

/// Trusted: calls `bytes::BytesMut::extend_from_slice`, which copies
/// `bytes` behind what the buffer holds. It reserves room through `Vec`,
/// which gives up above `isize::MAX` bytes: such a call is left out.
#[verifier::external_body]
pub(crate) fn buffer_extend(buffer: &mut BytesMut, bytes: &[u8])
    requires
        buffered(*old(buffer)).len() + bytes@.len() <= isize::MAX,
    ensures
        buffered(*final(buffer)) == buffered(*old(buffer)) + bytes@,
{
    buffer.extend_from_slice(bytes);
}

/// Trusted: borrows the bytes through `BytesMut`'s `AsRef<[u8]>` impl.
#[verifier::external_body]
pub(crate) fn buffer_bytes(buffer: &BytesMut) -> (bytes: &[u8])
    ensures
        bytes@ == buffered(*buffer),
{
    buffer.as_ref()
}

/// Trusted: calls `String::from_utf8_lossy` and takes the text as a
/// `String`. The text depends on the bytes alone; `utf8_lossy` is the name
/// for it.
#[verifier::external_body]
pub(crate) fn lossy_text(bytes: &[u8]) -> (text: String)
    ensures
        text@ == utf8_lossy(bytes@),
{
    String::from_utf8_lossy(bytes).into_owned()
}

} // verus!
