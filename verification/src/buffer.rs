//! Byte buffers of the `bytes` crate, and what is known of them.

use bytes::Buf;
use bytes::BufMut;
use bytes::Bytes;
use bytes::BytesMut;
use vstd::prelude::*;

verus! {

/// A growable byte buffer.
#[verifier::external_type_specification]
#[verifier::external_body]
pub struct ExBytesMut(BytesMut);

/// An immutable byte buffer.
#[verifier::external_type_specification]
#[verifier::external_body]
pub struct ExBytes(Bytes);

/// The bytes that a growable buffer holds, in order.
pub uninterp spec fn held(buffer: BytesMut) -> Seq<u8>;

/// The room that a growable buffer was made with, as far as it still has it: a number of
/// bytes that it can hold without growing.
pub uninterp spec fn made_with(buffer: BytesMut) -> nat;

/// The bytes that an immutable buffer holds, in order.
pub uninterp spec fn frozen(bytes: Bytes) -> Seq<u8>;

/// `BytesMut::new` makes a buffer that holds nothing.
pub assume_specification[ BytesMut::new ]() -> (buffer: BytesMut)
    ensures
        held(buffer) == Seq::<u8>::empty(),
;

/// `BytesMut::with_capacity` makes a buffer that holds nothing and has room for the number
/// of bytes asked for. It panics where no allocation can be that large, which the
/// precondition rules out.
pub assume_specification[ BytesMut::with_capacity ](capacity: usize) -> (buffer: BytesMut)
    requires
        capacity <= isize::MAX,
    ensures
        held(buffer) == Seq::<u8>::empty(),
        made_with(buffer) == capacity,
;

/// `BytesMut::len` counts the bytes held.
pub assume_specification[ BytesMut::len ](buffer: &BytesMut) -> (n: usize)
    ensures
        n == held(*buffer).len(),
;

/// `BytesMut::is_empty` tells whether no byte is held.
pub assume_specification[ BytesMut::is_empty ](buffer: &BytesMut) -> (b: bool)
    ensures
        b == (held(*buffer).len() == 0),
;

/// `BytesMut::capacity` tells how many bytes the buffer can hold without growing: never
/// fewer than it holds, and never fewer than it has room for.
pub assume_specification[ BytesMut::capacity ](buffer: &BytesMut) -> (n: usize)
    ensures
        n >= held(*buffer).len(),
        n >= made_with(*buffer),
;

/// `BytesMut::reserve` makes room and leaves the bytes held as they are. It panics where
/// no allocation can hold the room asked for, which the precondition rules out.
pub assume_specification[ BytesMut::reserve ](buffer: &mut BytesMut, additional: usize)
    requires
        held(*old(buffer)).len() + additional <= isize::MAX,
    ensures
        held(*final(buffer)) == held(*old(buffer)),
;

/// `BytesMut::freeze` hands the bytes held to an immutable buffer.
pub assume_specification[ BytesMut::freeze ](buffer: BytesMut) -> (bytes: Bytes)
    ensures
        frozen(bytes) == held(buffer),
;

/// Calls `BufMut::put_slice` on a `BytesMut`. Trusted: the bytes are appended. The call
/// panics where no allocation can hold the outcome, which the precondition rules out.
#[verifier::external_body]
pub(crate) fn put_slice(buffer: &mut BytesMut, src: &[u8])
    requires
        held(*old(buffer)).len() + src@.len() <= isize::MAX,
    ensures
        held(*final(buffer)) == held(*old(buffer)) + src@,
{
    buffer.put_slice(src)
}

/// Calls `BufMut::put_u8` on a `BytesMut`. Trusted: the byte is appended. The call panics
/// where no allocation can hold the outcome, which the precondition rules out.
#[verifier::external_body]
pub(crate) fn put_u8(buffer: &mut BytesMut, byte: u8)
    requires
        held(*old(buffer)).len() + 1 <= isize::MAX,
    ensures
        held(*final(buffer)) == held(*old(buffer)).push(byte),
{
    buffer.put_u8(byte)
}

/// Calls `Buf::advance` on a `BytesMut`. Trusted: the first `count` bytes are dropped. The
/// call panics where fewer bytes are held, which the precondition rules out.
#[verifier::external_body]
pub(crate) fn advance(buffer: &mut BytesMut, count: usize)
    requires
        count <= held(*old(buffer)).len(),
    ensures
        held(*final(buffer)) == held(*old(buffer)).skip(count as int),
{
    buffer.advance(count)
}

/// Calls `AsRef::<[u8]>::as_ref` on a `BytesMut`. Trusted: the slice is the bytes held.
#[verifier::external_body]
pub(crate) fn as_slice(buffer: &BytesMut) -> (bytes: &[u8])
    ensures
        bytes@ == held(*buffer),
{
    buffer.as_ref()
}

/// Calls `Bytes::from` on a `Vec<u8>`. Trusted: the buffer holds the vector's bytes.
#[verifier::external_body]
pub(crate) fn bytes_from_vec(bytes: Vec<u8>) -> (buffer: Bytes)
    ensures
        frozen(buffer) == bytes@,
{
    Bytes::from(bytes)
}

} // verus!
