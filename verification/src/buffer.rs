//! The immutable byte buffer of the `bytes` crate, as the library sees it.

use vstd::prelude::*;

verus! {

/// `bytes::Bytes` is carried through the library opaquely.
#[verifier::external_type_specification]
#[verifier::external_body]
pub struct ExBytes(bytes::Bytes);

/// The bytes a `bytes::Bytes` buffer holds, in order.
pub uninterp spec fn bytes_content(b: bytes::Bytes) -> Seq<u8>;

/// `bytes::Bytes::copy_from_slice`: the new buffer holds a copy of `data`.
#[verifier::external_body]
pub(crate) fn bytes_copy_from_slice(data: &[u8]) -> (res: bytes::Bytes)
    ensures
        bytes_content(res) == data@,
{
    bytes::Bytes::copy_from_slice(data)
}

/// `bytes::Bytes::new`: an empty buffer.
#[verifier::external_body]
pub(crate) fn bytes_new() -> (res: bytes::Bytes)
    ensures
        bytes_content(res) == Seq::<u8>::empty(),
{
    bytes::Bytes::new()
}

/// `<bytes::Bytes as From<&'static [u8]>>::from`: a buffer that points at the
/// static slice and so holds exactly its bytes.
#[verifier::external_body]
pub(crate) fn bytes_from_static(data: &'static [u8]) -> (res: bytes::Bytes)
    ensures
        bytes_content(res) == data@,
{
    bytes::Bytes::from(data)
}

} // verus!
