use vstd::prelude::*;

verus! {

/// Marks a stream of items as one that cannot fail: every item it yields counts as a success.
pub struct InfallibleStream<S> {
    stream: S,
}

impl<S> InfallibleStream<S> {
    /// The stream that is marked.
    pub closed spec fn inner(&self) -> S {
        self.stream
    }

    pub fn new(stream: S) -> (marked: Self)
        ensures
            marked.inner() == stream,
    {
        InfallibleStream { stream }
    }

    /// Hands the stream back.
    pub fn into_inner(self) -> (stream: S)
        ensures
            stream == self.inner(),
    {
        self.stream
    }
}

/// What a stream that cannot fail yields for an item of the stream that it marks: the item
/// as a success, or the end where that stream has ended.
pub fn as_success<T, E>(polled: Option<T>) -> (item: Option<Result<T, E>>)
    ensures
        item == match polled {
            Some(value) => Some(Ok::<T, E>(value)),
            None => None,
        },
{
    match polled {
        Some(value) => Some(Ok(value)),
        None => None,
    }
}

} // verus!
