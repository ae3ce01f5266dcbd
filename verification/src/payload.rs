//! The byte payload that an entry holds: `bytes::Bytes`, seen by the verifier
//! as the sequence of bytes that it contains.

use vstd::prelude::*;
use bytes::Bytes;

verus! {

/// `bytes::Bytes`, a cheaply cloneable slice of memory. Its representation is
/// hidden from the verifier; contracts speak of `payload_bytes` instead.
#[verifier::external_type_specification]
#[verifier::external_body]
pub struct ExBytes(bytes::Bytes);

/// The bytes that a `Bytes` value holds, in order: what `&b[..]` would show.
pub uninterp spec fn payload_bytes(b: Bytes) -> Seq<u8>;

/// `Bytes::copy_from_slice`: a new `Bytes` that holds a copy of `data`.
/// Trusted: the result contains exactly the bytes of the slice.
#[verifier::external_body]
pub(crate) fn payload_from_slice(data: &[u8]) -> (b: Bytes)
    ensures
        payload_bytes(b) == data@,
{
    Bytes::copy_from_slice(data)
}

/// `<Bytes as Clone>::clone`: a second handle to the same memory.
/// Trusted: the clone contains the same bytes as the value it was made from.
#[verifier::external_body]
pub(crate) fn payload_clone(b: &Bytes) -> (c: Bytes)
    ensures
        payload_bytes(c) == payload_bytes(*b),
{
    b.clone()
}

/// The bytes that stand in an entry before anything was fetched: the ASCII
/// text `<unused>`.
pub open spec fn unset_payload() -> Seq<u8> {
    seq![60u8, 117u8, 110u8, 117u8, 115u8, 101u8, 100u8, 62u8]
}

/// Builds the payload that marks an entry as never fetched.
pub fn unset() -> (b: Bytes)
    ensures
        payload_bytes(b) == unset_payload(),
{
    let marker: [u8; 8] = [60, 117, 110, 117, 115, 101, 100, 62];
    let b = payload_from_slice(marker.as_slice());
    proof {
        assert(marker@ =~= unset_payload());
    }
    b
}

} // verus!
