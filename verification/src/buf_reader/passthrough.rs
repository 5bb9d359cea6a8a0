use vstd::prelude::*;

verus! {

/// A trait to set passthrough on nested buffered readers.
///
/// This allows for disabling the buffer even if the reader is
/// nested within other buffered readers.
pub trait AsyncBufPassthrough {
    /// Set the buffered reader to start or stop acting as a passthrough for the
    /// underlying reader.
    ///
    /// When the buffer is in passthrough mode, it will not buffer any additional data.
    /// It will first exhaust the current buffer and then use the underlying reader to
    /// read more data afterward.
    fn passthrough(&mut self, enabled: bool);
}

} // verus!
