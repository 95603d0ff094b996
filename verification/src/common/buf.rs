//! `bytes::Bytes` as this library sees it: a shared, immutable run of bytes.
//! Nothing here is proved; each contract restates what the `bytes` crate
//! documents.

use vstd::prelude::*;

verus! {

/// `bytes::Bytes`, of which nothing is known but what the functions below
/// say.
#[verifier::external_type_specification]
#[verifier::external_body]
pub struct ExBytes(bytes::Bytes);

/// The bytes that a `Bytes` handle holds, in order.
pub uninterp spec fn contents(b: bytes::Bytes) -> Seq<u8>;

/// `Bytes::len`: the number of bytes held.
#[verifier::external_body]
pub(crate) fn bytes_len(b: &bytes::Bytes) -> (n: usize)
    ensures
        n == contents(*b).len(),
{
    b.len()
}

/// `Bytes::slice`: a handle on the bytes from `begin` up to `end`. The call
/// panics on a range that is reversed or reaches past the end, so both are
/// left out.
#[verifier::external_body]
pub(crate) fn bytes_slice(b: &bytes::Bytes, begin: usize, end: usize) -> (part: bytes::Bytes)
    requires
        begin <= end <= contents(*b).len(),
    ensures
        contents(part) == contents(*b).subrange(begin as int, end as int),
{
    b.slice(begin..end)
}

/// `Bytes::as_ref`: the bytes held, as a slice.
#[verifier::external_body]
pub(crate) fn bytes_as_slice(b: &bytes::Bytes) -> (s: &[u8])
    ensures
        s@ == contents(*b),
{
    b.as_ref()
}

} // verus!
