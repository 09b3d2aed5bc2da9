//! The staging buffer: a `bytes::BytesMut`, seen by the proofs as the sequence
//! of bytes it currently holds.

use bytes::Buf;
use bytes::BytesMut;
use vstd::prelude::*;

verus! {

/// Capacity bound of a staging buffer, in bytes.
pub const BUFFER_SIZE: usize = 16384;

/// `bytes::BytesMut`. Nothing inside a value of it is visible to the proofs;
/// they speak of it through [`contents`] alone.
#[verifier::external_type_specification]
#[verifier::external_body]
pub struct ExBytesMut(bytes::BytesMut);

/// The bytes that a buffer holds, oldest first: what `&buffer[..]` would show.
pub uninterp spec fn contents(buffer: BytesMut) -> Seq<u8>;

/// `BytesMut::new` gives a buffer of length zero.
pub assume_specification[ BytesMut::new ]() -> (buffer: BytesMut)
    ensures
        contents(buffer) == Seq::<u8>::empty(),
;

/// `BytesMut::len` is the number of bytes held.
pub assume_specification[ BytesMut::len ](buffer: &BytesMut) -> (len: usize)
    ensures
        len == contents(*buffer).len(),
;

/// `BytesMut::is_empty` tells whether no byte is held.
pub assume_specification[ BytesMut::is_empty ](buffer: &BytesMut) -> (empty: bool)
    ensures
        empty == (contents(*buffer).len() == 0),
;

/// `BytesMut::reserve` only makes room: the bytes held stay as they are. It
/// panics when the capacity asked for overflows, which the bound rules out.
pub assume_specification[ BytesMut::reserve ](buffer: &mut BytesMut, additional: usize)
    requires
        contents(*old(buffer)).len() + additional <= isize::MAX,
    ensures
        contents(*final(buffer)) == contents(*old(buffer)),
;

/// `BytesMut::extend_from_slice` appends the given bytes behind those held.
pub assume_specification[ BytesMut::extend_from_slice ](buffer: &mut BytesMut, extend: &[u8])
    requires
        contents(*old(buffer)).len() + extend@.len() <= isize::MAX,
    ensures
        contents(*final(buffer)) == contents(*old(buffer)) + extend@,
;

/// `Buf::advance` on a `BytesMut` drops the first `cnt` bytes; it panics when
/// fewer are held.
pub assume_specification[ <BytesMut as Buf>::advance ](buffer: &mut BytesMut, cnt: usize)
    requires
        cnt <= contents(*old(buffer)).len(),
    ensures
        contents(*final(buffer)) == contents(*old(buffer)).skip(cnt as int),
;

/// `AsRef<[u8]>::as_ref` on a `BytesMut` lends out exactly the bytes held.
pub assume_specification[ <BytesMut as AsRef<[u8]>>::as_ref ](buffer: &BytesMut) -> (bytes: &[u8])
    ensures
        bytes@ == contents(*buffer),
;

/// `<[T]>::copy_from_slice` overwrites the whole destination with the source;
/// it panics unless both have the same length.
pub assume_specification<T>[ <[T]>::copy_from_slice ](dst: &mut [T], src: &[T])
    where
        T: Copy,
    requires
        old(dst)@.len() == src@.len(),
    ensures
        final(dst)@ == src@,
;

} // verus!
