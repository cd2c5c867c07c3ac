//! The byte buffers of the `bytes` crate, seen through the sequence of
//! bytes each holds.

use vstd::prelude::*;
use bytes::{Buf, Bytes, BytesMut};

verus! {

/// An immutable, cheaply cloned byte buffer of the `bytes` crate.
#[verifier::external_type_specification]
#[verifier::external_body]
pub struct ExBytes(Bytes);

/// A growable byte buffer of the `bytes` crate.
#[verifier::external_type_specification]
#[verifier::external_body]
pub struct ExBytesMut(BytesMut);

/// The bytes a `Bytes` holds, in order.
pub uninterp spec fn bytes_view(b: Bytes) -> Seq<u8>;

/// The bytes a `BytesMut` holds, in order.
pub uninterp spec fn bytes_mut_view(b: BytesMut) -> Seq<u8>;

/// `Bytes::clone` shares the same bytes: the clone holds what the original holds.
pub assume_specification[ <Bytes as Clone>::clone ](b: &Bytes) -> (r: Bytes)
    ensures
        bytes_view(r) == bytes_view(*b),
;

/// Calls `Bytes::new`. Trusted: the buffer is empty.
#[verifier::external_body]
pub fn bytes_empty() -> (b: Bytes)
    ensures
        bytes_view(b) == Seq::<u8>::empty(),
{
    Bytes::new()
}

/// Calls `Bytes::len`. Trusted: the number of bytes held, which (as for
/// every slice in memory, by the standard library's rules) is at most
/// `isize::MAX`.
#[verifier::external_body]
pub fn bytes_len(b: &Bytes) -> (n: usize)
    ensures
        n == bytes_view(*b).len(),
        n <= isize::MAX,
{
    b.len()
}

/// Calls `Bytes::is_empty`. Trusted: whether no byte is held.
#[verifier::external_body]
pub fn bytes_is_empty(b: &Bytes) -> (r: bool)
    ensures
        r == (bytes_view(*b).len() == 0),
{
    b.is_empty()
}

/// Calls `Bytes::as_ref`. Trusted: the slice holds the same bytes.
#[verifier::external_body]
pub fn bytes_as_slice(b: &Bytes) -> (s: &[u8])
    ensures
        s@ == bytes_view(*b),
{
    b.as_ref()
}

/// Calls `Bytes::copy_from_slice`. Trusted: the buffer holds a copy of the slice.
#[verifier::external_body]
pub fn bytes_copy_from_slice(s: &[u8]) -> (b: Bytes)
    ensures
        bytes_view(b) == s@,
{
    Bytes::copy_from_slice(s)
}

/// Calls `Bytes::split_to`. Trusted: the first `at` bytes move to the
/// result and the rest stay. The call panics when `at` exceeds the length,
/// which `requires` rules out.
#[verifier::external_body]
pub fn bytes_split_to(b: &mut Bytes, at: usize) -> (head: Bytes)
    requires
        at <= bytes_view(*old(b)).len(),
    ensures
        bytes_view(head) == bytes_view(*old(b)).take(at as int),
        bytes_view(*final(b)) == bytes_view(*old(b)).skip(at as int),
{
    b.split_to(at)
}

/// Calls `BytesMut::len`. Trusted: the number of bytes held.
#[verifier::external_body]
pub fn bytes_mut_len(b: &BytesMut) -> (n: usize)
    ensures
        n == bytes_mut_view(*b).len(),
{
    b.len()
}

/// Calls `BytesMut::as_ref`. Trusted: the slice holds the same bytes.
#[verifier::external_body]
pub fn bytes_mut_as_slice(b: &BytesMut) -> (s: &[u8])
    ensures
        s@ == bytes_mut_view(*b),
{
    b.as_ref()
}

/// Calls `BytesMut::reserve`. Trusted: the bytes held do not change. The
/// call panics when the capacity would pass `isize::MAX`, which `requires`
/// rules out for the bytes held; running out of memory, a machine limit,
/// is left unsaid.
#[verifier::external_body]
pub fn bytes_mut_reserve(b: &mut BytesMut, additional: usize)
    requires
        bytes_mut_view(*old(b)).len() + additional <= isize::MAX,
    ensures
        bytes_mut_view(*final(b)) == bytes_mut_view(*old(b)),
{
    b.reserve(additional)
}

/// Calls `BytesMut::extend_from_slice`. Trusted: the slice's bytes are
/// appended. The call panics when the capacity would pass `isize::MAX`,
/// which `requires` rules out for the bytes held; running out of memory, a
/// machine limit, is left unsaid.
#[verifier::external_body]
pub fn bytes_mut_extend(b: &mut BytesMut, s: &[u8])
    requires
        bytes_mut_view(*old(b)).len() + s@.len() <= isize::MAX,
    ensures
        bytes_mut_view(*final(b)) == bytes_mut_view(*old(b)) + s@,
{
    b.extend_from_slice(s)
}

/// Calls `Buf::advance` on a `BytesMut`. Trusted: the first `n` bytes are
/// dropped. The call panics when `n` exceeds the length, which `requires`
/// rules out.
#[verifier::external_body]
pub fn bytes_mut_advance(b: &mut BytesMut, n: usize)
    requires
        n <= bytes_mut_view(*old(b)).len(),
    ensures
        bytes_mut_view(*final(b)) == bytes_mut_view(*old(b)).skip(n as int),
{
    b.advance(n)
}

/// Calls `BytesMut::split_to`. Trusted: the first `at` bytes move to the
/// result and the rest stay. The call panics when `at` exceeds the length,
/// which `requires` rules out.
#[verifier::external_body]
pub fn bytes_mut_split_to(b: &mut BytesMut, at: usize) -> (head: BytesMut)
    requires
        at <= bytes_mut_view(*old(b)).len(),
    ensures
        bytes_mut_view(head) == bytes_mut_view(*old(b)).take(at as int),
        bytes_mut_view(*final(b)) == bytes_mut_view(*old(b)).skip(at as int),
{
    b.split_to(at)
}

/// Calls `BytesMut::freeze`. Trusted: the frozen buffer holds the same bytes.
#[verifier::external_body]
pub fn bytes_mut_freeze(b: BytesMut) -> (r: Bytes)
    ensures
        bytes_view(r) == bytes_mut_view(b),
{
    b.freeze()
}

} // verus!
