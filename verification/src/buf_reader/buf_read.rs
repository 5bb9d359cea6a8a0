use crate::buf_reader::buf_reader::AsyncBufReader;
use vstd::prelude::*;
use vstd::slice::slice_subrange;

verus! {

/// Reads bytes asynchronously and buffers them.
///
/// This is the part of a buffered reader that needs no waiting: what is buffered, whether
/// the underlying reader has ended, and the consuming of what was looked at. Filling the
/// buffer is the business of whoever drives the reader.
pub trait AsyncBufRead {
    /// The bytes that are buffered, in order.
    spec fn spec_buf(&self) -> Seq<u8>;

    /// Whether the inner reader has reached EOF.
    spec fn spec_eof(&self) -> bool;

    /// Returns true if the inner reader has reached EOF.
    fn eof(&self) -> (b: bool)
        ensures
            b == self.spec_eof(),
    ;

    /// Returns a slice of the internal buffer.
    fn buf(&self) -> (bytes: &[u8])
        ensures
            bytes@ == self.spec_buf(),
    ;

    /// Tells this buffer that `amt` bytes have been consumed from the buffer,
    /// so they should no longer be returned in calls to read.
    ///
    /// The `amt` must be `<=` the number of bytes in the buffer.
    fn consume(&mut self, amt: usize)
        requires
            amt <= old(self).spec_buf().len(),
        ensures
            final(self).spec_buf() == old(self).spec_buf().skip(amt as int),
            final(self).spec_eof() == old(self).spec_eof(),
    ;
}

impl<R> AsyncBufRead for AsyncBufReader<R> {
    open spec fn spec_buf(&self) -> Seq<u8> {
        self.buffered()
    }

    open spec fn spec_eof(&self) -> bool {
        self.ended()
    }

    fn eof(&self) -> (b: bool) {
        AsyncBufReader::eof(self)
    }

    fn buf(&self) -> (bytes: &[u8]) {
        AsyncBufReader::buffer(self)
    }

    fn consume(&mut self, amt: usize) {
        AsyncBufReader::consume(self, amt)
    }
}

impl<'a> AsyncBufRead for &'a [u8] {
    open spec fn spec_buf(&self) -> Seq<u8> {
        self@
    }

    open spec fn spec_eof(&self) -> bool {
        false
    }

    fn eof(&self) -> (b: bool) {
        false
    }

    fn buf(&self) -> (bytes: &[u8]) {
        *self
    }

    fn consume(&mut self, amt: usize) {
        let rest = slice_subrange(*self, amt, self.len());
        *self = rest;
        assert(self@ =~= old(self)@.skip(amt as int));
    }
}

} // verus!
