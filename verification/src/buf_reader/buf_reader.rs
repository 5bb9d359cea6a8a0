use crate::buf_reader::passthrough::AsyncBufPassthrough;
use crate::buffer::advance;
use crate::buffer::as_slice;
use crate::buffer::held;
use crate::buffer::made_with;
use crate::buffer::put_slice;
use bytes::BytesMut;
use vstd::prelude::*;

verus! {

/// The chunk size of a reader made without one.
pub const DEFAULT_CHUNK_SIZE: usize = 8 * 1024;

/// The `AsyncBufReader` struct adds buffering to any reader.
///
/// This allows for both efficient reading of small amounts of data and
/// peeking for parsing were you will want to read the data multiple times.
/// The internal buffer of `AsyncBufReader` will expand based on the requested
/// amount of data.
///
/// The reader itself decides and keeps the buffer; reading from the underlying reader is
/// left to the caller, who is told when to read and hands in what was read.
pub struct AsyncBufReader<R> {
    reader: R,
    passthrough: bool,
    buf: BytesMut,
    chunk_size: usize,
    eof: bool,
}

/// What has to be done to serve a request for buffered data.
#[derive(Debug, Clone, Copy, PartialEq, Eq, Structural)]
pub enum FillStep {
    /// The request is served with this many bytes from the front of the buffer.
    Ready(usize),
    /// The underlying reader has to be read, and what it gives handed in.
    Read,
}

/// What has to be done to serve a read.
#[derive(Debug, Clone, Copy, PartialEq, Eq, Structural)]
pub enum ReadStep {
    /// This many bytes from the front of the buffer are given to the caller and consumed.
    Serve(usize),
    /// Nothing is given: the underlying reader has ended.
    Ended,
    /// The read goes to the underlying reader, past the buffer.
    Inner,
    /// The buffer has to be filled first, as for a request of the same size.
    Fill,
}

/// The smaller of two numbers.
pub open spec fn min(a: int, b: int) -> int {
    if a <= b {
        a
    } else {
        b
    }
}

impl<R> AsyncBufReader<R> {
    /// The underlying reader.
    pub closed spec fn reader(&self) -> R {
        self.reader
    }

    /// The bytes that are buffered, in order.
    pub closed spec fn buffered(&self) -> Seq<u8> {
        held(self.buf)
    }

    /// The room that the buffer was made with, as far as it still has it.
    pub closed spec fn room(&self) -> nat {
        made_with(self.buf)
    }

    /// Whether the reader passes reads through to the underlying reader.
    pub closed spec fn is_passthrough(&self) -> bool {
        self.passthrough
    }

    /// The amount of data that is read into the buffer at once, as a hint.
    pub closed spec fn chunk_size(&self) -> usize {
        self.chunk_size
    }

    /// Whether the underlying reader has ended.
    pub closed spec fn ended(&self) -> bool {
        self.eof
    }

    /// Creates a new `AsyncBufReader` with the default chunk size.
    pub fn new(reader: R) -> (r: Self)
        ensures
            r.reader() == reader,
            r.buffered() == Seq::<u8>::empty(),
            r.room() == DEFAULT_CHUNK_SIZE,
            !r.is_passthrough(),
            r.chunk_size() == DEFAULT_CHUNK_SIZE,
            !r.ended(),
    {
        Self::with_chunk_size(DEFAULT_CHUNK_SIZE, reader)
    }

    /// Creates a new `AsyncBufReader` with the given chunk size.
    ///
    /// The chunk size is a hint for the amount of data that will be read into the buffer at once.
    pub fn with_chunk_size(chunk_size: usize, reader: R) -> (r: Self)
        requires
            chunk_size <= isize::MAX,
        ensures
            r.reader() == reader,
            r.buffered() == Seq::<u8>::empty(),
            r.room() == chunk_size,
            !r.is_passthrough(),
            r.chunk_size() == chunk_size,
            !r.ended(),
    {
        AsyncBufReader {
            reader,
            buf: BytesMut::with_capacity(chunk_size),
            passthrough: false,
            chunk_size,
            eof: false,
        }
    }

    /// Creates a new `AsyncBufReader` with the given chunk size, where a buffer of that size
    /// can be had; the reader is handed back where none can.
    pub fn try_with_chunk_size(chunk_size: usize, reader: R) -> (r: Result<Self, R>)
        ensures
            match r {
                Ok(made) => chunk_size <= isize::MAX && made.reader() == reader
                    && made.buffered() == Seq::<u8>::empty() && made.room() == chunk_size
                    && !made.is_passthrough()
                    && made.chunk_size() == chunk_size && !made.ended(),
                Err(back) => chunk_size > isize::MAX && back == reader,
            },
    {
        if chunk_size <= isize::MAX as usize {
            Ok(Self::with_chunk_size(chunk_size, reader))
        } else {
            Err(reader)
        }
    }

    /// Returns the current capacity of the internal buffer.
    pub fn capacity(&self) -> (n: usize)
        ensures
            n >= self.buffered().len(),
            n >= self.room(),
    {
        self.buf.capacity()
    }

    /// Returns the current length of the internal buffer.
    pub fn len(&self) -> (n: usize)
        ensures
            n == self.buffered().len(),
    {
        self.buf.len()
    }

    /// Returns true if the internal buffer is empty.
    pub fn is_empty(&self) -> (b: bool)
        ensures
            b == (self.buffered().len() == 0),
    {
        self.buf.is_empty()
    }

    /// Gets a reference to the underlying reader.
    ///
    /// It is inadvisable to directly read from the underlying reader.
    pub fn get_ref(&self) -> (reader: &R)
        ensures
            *reader == self.reader(),
    {
        &self.reader
    }

    /// Gets a mutable reference to the underlying reader. The buffer and the reader's mode
    /// stay as they are.
    ///
    /// It is inadvisable to directly read from the underlying reader.
    pub fn get_mut(&mut self) -> (reader: &mut R)
        ensures
            *reader == old(self).reader(),
            final(self).reader() == *final(reader),
            final(self).buffered() == old(self).buffered(),
            final(self).is_passthrough() == old(self).is_passthrough(),
            final(self).chunk_size() == old(self).chunk_size(),
            final(self).ended() == old(self).ended(),
    {
        &mut self.reader
    }

    /// Returns a reference to the internally buffered data.
    pub fn buffer(&self) -> (bytes: &[u8])
        ensures
            bytes@ == self.buffered(),
    {
        as_slice(&self.buf)
    }

    /// Tells the amount of data that is read into the buffer at once, as a hint.
    pub fn chunk(&self) -> (n: usize)
        ensures
            n == self.chunk_size(),
    {
        self.chunk_size
    }

    /// Tells whether the reader passes reads through to the underlying reader.
    pub fn passes_through(&self) -> (b: bool)
        ensures
            b == self.is_passthrough(),
    {
        self.passthrough
    }

    /// Returns true if the inner reader has reached EOF.
    pub fn eof(&self) -> (b: bool)
        ensures
            b == self.ended(),
    {
        self.eof
    }

    /// Returns a slice of the internal buffer.
    pub fn buf(&self) -> (bytes: &[u8])
        ensures
            bytes@ == self.buffered(),
    {
        self.buffer()
    }

    /// Invalidates all data in the internal buffer.
    pub fn discard_buffer(&mut self)
        ensures
            final(self).buffered() == Seq::<u8>::empty(),
            final(self).reader() == old(self).reader(),
            final(self).is_passthrough() == old(self).is_passthrough(),
            final(self).chunk_size() == old(self).chunk_size(),
            final(self).ended() == old(self).ended(),
    {
        self.buf = BytesMut::new();
    }

    /// Tells this buffer that `amt` bytes have been consumed from the buffer,
    /// so they should no longer be returned in calls to read.
    pub fn consume(&mut self, amt: usize)
        requires
            amt <= old(self).buffered().len(),
        ensures
            final(self).buffered() == old(self).buffered().skip(amt as int),
            final(self).reader() == old(self).reader(),
            final(self).is_passthrough() == old(self).is_passthrough(),
            final(self).chunk_size() == old(self).chunk_size(),
            final(self).ended() == old(self).ended(),
    {
        advance(&mut self.buf, amt);
    }

    /// What serving a request for `amt` buffered bytes takes.
    ///
    /// In passthrough mode, and once the underlying reader has ended, the request is served
    /// with what is buffered, up to `amt` bytes. Otherwise it is served at once where `amt`
    /// bytes are buffered, and the underlying reader has to be read where they are not.
    pub open spec fn fill_step(&self, amt: usize) -> FillStep {
        if self.is_passthrough() || self.ended() {
            FillStep::Ready(min(amt as int, self.buffered().len() as int) as usize)
        } else if self.buffered().len() >= amt {
            FillStep::Ready(amt)
        } else {
            FillStep::Read
        }
    }

    /// Decides how a request for `amt` buffered bytes is served. Where the underlying reader
    /// has to be read, room is made for what it may give; the bytes buffered stay as they are.
    pub fn plan_fill(&mut self, amt: usize) -> (step: FillStep)
        requires
            amt <= isize::MAX,
            old(self).buffered().len() + old(self).chunk_size() <= isize::MAX,
        ensures
            step == old(self).fill_step(amt),
            final(self).buffered() == old(self).buffered(),
            final(self).reader() == old(self).reader(),
            final(self).is_passthrough() == old(self).is_passthrough(),
            final(self).chunk_size() == old(self).chunk_size(),
            final(self).ended() == old(self).ended(),
    {
        let len = self.buf.len();
        if self.passthrough || self.eof {
            let rem = if amt <= len {
                amt
            } else {
                len
            };
            return FillStep::Ready(rem);
        }
        if len >= amt {
            return FillStep::Ready(amt);
        }
        if self.buf.capacity() < amt {
            let missing = amt - len;
            let additional = if self.chunk_size >= missing {
                self.chunk_size
            } else {
                missing
            };
            self.buf.reserve(additional);
        }
        FillStep::Read
    }

    /// Decides how a request for `amt` buffered bytes is served, where the buffer can grow as
    /// the request may need it to; decides nothing, and changes nothing, where it cannot.
    pub fn try_plan_fill(&mut self, amt: usize) -> (step: Option<FillStep>)
        ensures
            step is Some <==> amt <= isize::MAX && old(self).buffered().len() + old(
                self,
            ).chunk_size() <= isize::MAX,
            step matches Some(s) ==> s == old(self).fill_step(amt),
            final(self).buffered() == old(self).buffered(),
            final(self).reader() == old(self).reader(),
            final(self).is_passthrough() == old(self).is_passthrough(),
            final(self).chunk_size() == old(self).chunk_size(),
            final(self).ended() == old(self).ended(),
    {
        let limit = isize::MAX as usize;
        if amt <= limit && self.chunk_size <= limit && self.buf.len() <= limit - self.chunk_size {
            Some(self.plan_fill(amt))
        } else {
            None
        }
    }

    /// Takes in what a read of the underlying reader gave, as [`AsyncBufReader::filled`]
    /// does, where the buffer can take it; takes in nothing, and changes nothing, where it
    /// cannot.
    pub fn try_filled(&mut self, data: &[u8], amt: usize) -> (rem: Option<usize>)
        ensures
            rem is Some <==> old(self).buffered().len() + data@.len() <= isize::MAX,
            rem matches Some(n) ==> final(self).buffered() == old(self).buffered() + data@
                && final(self).ended() == (old(self).ended() || data@.len() == 0) && n == min(
                amt as int,
                final(self).buffered().len() as int,
            ),
            rem is None ==> final(self).buffered() == old(self).buffered() && final(self).ended()
                == old(self).ended(),
            final(self).reader() == old(self).reader(),
            final(self).is_passthrough() == old(self).is_passthrough(),
            final(self).chunk_size() == old(self).chunk_size(),
    {
        let limit = isize::MAX as usize;
        let len = self.buf.len();
        if len <= limit && data.len() <= limit - len {
            Some(self.filled(data, amt))
        } else {
            None
        }
    }

    /// Takes in what a read of the underlying reader gave, after [`FillStep::Read`]: the bytes
    /// are buffered behind those already there, and a read that gave nothing marks the end of
    /// the underlying reader. The request for `amt` bytes is then served with what is
    /// buffered, up to `amt` bytes: their number is returned.
    pub fn filled(&mut self, data: &[u8], amt: usize) -> (rem: usize)
        requires
            old(self).buffered().len() + data@.len() <= isize::MAX,
        ensures
            final(self).buffered() == old(self).buffered() + data@,
            final(self).ended() == (old(self).ended() || data@.len() == 0),
            rem == min(amt as int, final(self).buffered().len() as int),
            final(self).reader() == old(self).reader(),
            final(self).is_passthrough() == old(self).is_passthrough(),
            final(self).chunk_size() == old(self).chunk_size(),
    {
        if data.len() == 0 {
            self.eof = true;
        }
        put_slice(&mut self.buf, data);
        let len = self.buf.len();
        if amt <= len {
            amt
        } else {
            len
        }
    }

    /// What serving a read takes, for a caller with room for `remaining` bytes.
    ///
    /// In passthrough mode, and for a read of at least the chunk size, the buffer is emptied
    /// first and the underlying reader is read directly once it is empty, unless that reader
    /// has ended. Any other read goes through the buffer.
    pub open spec fn read_step(&self, remaining: usize) -> ReadStep {
        if self.is_passthrough() || remaining >= self.chunk_size() {
            if self.buffered().len() > 0 {
                ReadStep::Serve(min(remaining as int, self.buffered().len() as int) as usize)
            } else if self.ended() {
                ReadStep::Ended
            } else {
                ReadStep::Inner
            }
        } else {
            ReadStep::Fill
        }
    }

    /// Decides how a read is served.
    pub fn plan_read(&self, remaining: usize) -> (step: ReadStep)
        ensures
            step == self.read_step(remaining),
    {
        if self.passthrough || remaining >= self.chunk_size {
            let len = self.buf.len();
            if len > 0 {
                let amt = if remaining <= len {
                    remaining
                } else {
                    len
                };
                return ReadStep::Serve(amt);
            }
            if self.eof {
                return ReadStep::Ended;
            }
            return ReadStep::Inner;
        }
        ReadStep::Fill
    }

    /// Consumes the bytes that a read was served with. In passthrough mode the buffer is
    /// given up once it is empty.
    pub fn served(&mut self, amt: usize)
        requires
            amt <= old(self).buffered().len(),
        ensures
            final(self).buffered() == old(self).buffered().skip(amt as int),
            final(self).reader() == old(self).reader(),
            final(self).is_passthrough() == old(self).is_passthrough(),
            final(self).chunk_size() == old(self).chunk_size(),
            final(self).ended() == old(self).ended(),
    {
        self.consume(amt);
        if self.buf.is_empty() && self.passthrough {
            self.discard_buffer();
        }
    }

    /// Hands the underlying reader back, with what is still buffered.
    pub fn into_parts(self) -> (parts: (R, Vec<u8>))
        ensures
            parts.0 == self.reader(),
            parts.1@ == self.buffered(),
    {
        let rest = vstd::slice::slice_to_vec(as_slice(&self.buf));
        (self.reader, rest)
    }
}

/// Whatever a reader decides, it never hands out more than it has buffered, nor more than
/// was asked for; and a read with room for something is never served with nothing.
pub proof fn steps_stay_within_the_buffer<R>(reader: AsyncBufReader<R>, amt: usize)
    ensures
        reader.fill_step(amt) matches FillStep::Ready(n) ==> n <= amt && n
            <= reader.buffered().len(),
        reader.read_step(amt) matches ReadStep::Serve(n) ==> n <= amt && n
            <= reader.buffered().len() && (amt > 0 ==> n > 0),
        reader.read_step(amt) is Inner ==> reader.buffered().len() == 0 && !reader.ended(),
        reader.read_step(amt) is Ended ==> reader.buffered().len() == 0 && reader.ended(),
{
}

impl<R> AsyncBufPassthrough for AsyncBufReader<R> {
    fn passthrough(&mut self, enabled: bool)
        ensures
            final(self).is_passthrough() == enabled,
            final(self).buffered() == old(self).buffered(),
            final(self).reader() == old(self).reader(),
            final(self).chunk_size() == old(self).chunk_size(),
            final(self).ended() == old(self).ended(),
    {
        self.passthrough = enabled;
    }
}

} // verus!
