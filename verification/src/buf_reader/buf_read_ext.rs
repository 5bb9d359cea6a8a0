use crate::buf_reader::buf_read::AsyncBufRead;
use vstd::prelude::*;

verus! {

/// An extension trait which adds utility methods to [`AsyncBufRead`] types.
pub trait AsyncBufReadExt: AsyncBufRead {
    /// Returns true if the inner reader has reached EOF.
    fn ended(&self) -> (b: bool)
        ensures
            b == self.spec_eof(),
    {
        self.eof()
    }

    /// Returns a slice of the internal buffer.
    fn buffer(&self) -> (bytes: &[u8])
        ensures
            bytes@ == self.spec_buf(),
    {
        self.buf()
    }

    /// Tells this buffer that `amt` bytes have been consumed from the
    /// buffer, so they should no longer be returned in calls to read.
    ///
    /// The `amt` must not be more than the number of bytes in the buffer.
    fn consume_peeked(&mut self, amt: usize)
        requires
            amt <= old(self).spec_buf().len(),
        ensures
            final(self).spec_buf() == old(self).spec_buf().skip(amt as int),
            final(self).spec_eof() == old(self).spec_eof(),
    {
        self.consume(amt)
    }
}

impl<R: AsyncBufRead + ?Sized> AsyncBufReadExt for R {

}

} // verus!
