//! The tail of a stream handed out once, as a source of its own.
use vstd::prelude::*;
use crate::body::spec_collected;
use crate::error::StreamError;
use crate::mat::StreamNotUsed;
use crate::source::Source;

verus! {

/// Tail source wrapper returned by `Flow::prefix_and_tail`; the source can be taken once.
pub struct TailSource<Out> {
    inner: Option<Source<Out, StreamNotUsed>>,
}

impl<Out> TailSource<Out> {
    /// The source still held, if it has not been taken.
    pub closed spec fn held(self) -> Option<Source<Out, StreamNotUsed>> {
        self.inner
    }

    /// Wraps `source`.
    pub fn new(source: Source<Out, StreamNotUsed>) -> (r: Self)
        ensures r.held() == Some(source),
    {
        TailSource { inner: Some(source) }
    }

    /// Converts this wrapper into the underlying source; fails with `Failed` when it was
    /// already taken.
    pub fn into_source(self) -> (r: Result<Source<Out, StreamNotUsed>, StreamError>)
        ensures
            self.held() matches Some(s) ==> r == Ok::<Source<Out, StreamNotUsed>, StreamError>(s),
            self.held() is None ==> r == Err::<Source<Out, StreamNotUsed>, StreamError>(StreamError::Failed),
    {
        match self.inner {
            Some(source) => Ok(source),
            None => Err(StreamError::Failed),
        }
    }

    /// Collects all remaining tail elements.
    pub fn collect_values(self) -> (r: Result<Vec<Out>, StreamError>)
        ensures
            self.held() matches Some(s) ==> spec_collected(s.body.elements@, s.body.end, r),
            self.held() is None ==> r == Err::<Vec<Out>, StreamError>(StreamError::Failed),
    {
        match self.into_source() {
            Ok(source) => source.collect_values(),
            Err(e) => Err(e),
        }
    }
}

} // verus!
