//! Receiving a request body under a size ceiling.
//!
//! A body arrives in chunks. Each chunk is admitted only if the bytes held so
//! far plus the chunk stay within the ceiling, so an oversized body is turned
//! away at the first chunk that would cross it, before that chunk is copied.

use bytes::BytesMut;
use vstd::prelude::*;
use crate::error::ServiceError;

verus! {

/// The most bytes a request body may hold: 256 KiB.
pub const MAX_SIZE: usize = 262_144;

/// `bytes::BytesMut`, a growable byte buffer. Nothing inside it is visible
/// here; it is spoken of through [`bytes_mut_contents`] and
/// [`bytes_mut_is_whole`].
#[verifier::external_type_specification]
#[verifier::external_body]
pub struct ExBytesMut(BytesMut);

/// The bytes a `bytes::BytesMut` holds, first to last.
pub uninterp spec fn bytes_mut_contents(buf: BytesMut) -> Seq<u8>;

/// Whether a `bytes::BytesMut` stands on a vector of its own and begins where
/// that vector begins: nothing was split off it, consumed from its front or
/// shared with another handle.
pub uninterp spec fn bytes_mut_is_whole(buf: BytesMut) -> bool;

/// `BytesMut::new`: the buffer it returns holds no bytes and stands on an
/// empty vector of its own.
pub assume_specification[ BytesMut::new ]() -> (buf: BytesMut)
    ensures
        bytes_mut_contents(buf) == Seq::<u8>::empty(),
        bytes_mut_is_whole(buf),
;

/// `BytesMut::len`: the number of bytes held.
pub assume_specification[ BytesMut::len ](buf: &BytesMut) -> (n: usize)
    ensures
        n == bytes_mut_contents(*buf).len(),
;

/// `BytesMut::extend_from_slice`: the bytes of `extend` are appended to those
/// held, after room for them has been reserved, and a whole buffer stays
/// whole. Reserving panics where the capacity it asks for overflows. For a
/// whole buffer that capacity is the new length, asked of `Vec::reserve`,
/// which panics beyond `isize::MAX` bytes: the precondition rules that out.
pub assume_specification[ BytesMut::extend_from_slice ](buf: &mut BytesMut, extend: &[u8])
    requires
        bytes_mut_is_whole(*old(buf)),
        bytes_mut_contents(*old(buf)).len() + extend@.len() <= isize::MAX,
    ensures
        bytes_mut_contents(*final(buf)) == bytes_mut_contents(*old(buf)) + extend@,
        bytes_mut_is_whole(*final(buf)),
;

/// `<BytesMut as AsRef<[u8]>>::as_ref`: the bytes held, as a slice.
pub assume_specification<'a>[ <BytesMut as AsRef<[u8]>>::as_ref ](buf: &'a BytesMut) -> (bytes: &'a [u8])
    ensures
        bytes@ == bytes_mut_contents(*buf),
;

/// What a buffer holding `body` holds after `chunk` is offered: the two joined
/// when that stays within the ceiling, nothing otherwise.
pub open spec fn admitted(body: Seq<u8>, chunk: Seq<u8>) -> Option<Seq<u8>> {
    if body.len() + chunk.len() <= MAX_SIZE {
        Some(body + chunk)
    } else {
        None
    }
}

/// What a buffer holding `body` holds after `chunks` are offered one after the
/// other: nothing once one of them has been refused.
pub open spec fn received(body: Seq<u8>, chunks: Seq<Seq<u8>>) -> Option<Seq<u8>>
    decreases chunks.len(),
{
    if chunks.len() == 0 {
        Some(body)
    } else {
        match admitted(body, chunks[0]) {
            Some(longer) => received(longer, chunks.drop_first()),
            None => None,
        }
    }
}

/// The part of a request body received so far. It never holds more than
/// [`MAX_SIZE`] bytes, and its bytes are only ever appended to.
pub struct BodyBuffer {
    bytes: BytesMut,
}

impl View for BodyBuffer {
    type V = Seq<u8>;

    closed spec fn view(&self) -> Seq<u8> {
        bytes_mut_contents(self.bytes)
    }
}

impl BodyBuffer {
    #[verifier::type_invariant]
    spec fn within_ceiling(self) -> bool {
        &&& bytes_mut_is_whole(self.bytes)
        &&& bytes_mut_contents(self.bytes).len() <= MAX_SIZE
    }

    /// A buffer that has received nothing.
    pub fn new() -> (body: BodyBuffer)
        ensures
            body@ == Seq::<u8>::empty(),
    {
        BodyBuffer { bytes: BytesMut::new() }
    }

    /// The number of bytes received.
    pub fn len(&self) -> (n: usize)
        ensures
            n == self@.len(),
            n <= MAX_SIZE,
    {
        proof {
            use_type_invariant(self);
        }
        self.bytes.len()
    }

    /// Offers the next chunk. It is appended when the body stays within the
    /// ceiling; otherwise the buffer is left as it was and the body is refused
    /// as too large.
    pub fn push_chunk(&mut self, chunk: &[u8]) -> (outcome: Result<(), ServiceError>)
        ensures
            match outcome {
                Ok(_) => admitted(old(self)@, chunk@) == Some(final(self)@),
                Err(e) => e == ServiceError::PayloadTooLarge
                    && admitted(old(self)@, chunk@).is_none()
                    && final(self)@ == old(self)@,
            },
    {
        proof {
            use_type_invariant(&*self);
        }
        if chunk.len() > MAX_SIZE - self.bytes.len() {
            return Err(ServiceError::PayloadTooLarge);
        }
        // The bytes are taken out while they grow: `self` then meets its
        // invariant at every point, also if growing should unwind.
        let mut bytes = BytesMut::new();
        std::mem::swap(&mut bytes, &mut self.bytes);
        bytes.extend_from_slice(chunk);
        self.bytes = bytes;
        Ok(())
    }

    /// The bytes received, in order of arrival.
    pub fn as_slice(&self) -> (bytes: &[u8])
        ensures
            bytes@ == self@,
    {
        self.bytes.as_ref()
    }
}

} // verus!
