//! Gathering the outcome of a bulk request: the records the cache answered
//! and those each chunk request returned, where the first failed chunk
//! decides the error.

use vstd::prelude::*;

use crate::error::EndpointError;

verus! {

/// The records gathered so far and the first chunk error, if any.
pub struct BulkResult<T> {
    values: Vec<T>,
    error: Option<EndpointError>,
}

impl<T> BulkResult<T> {
    /// The records gathered so far.
    pub closed spec fn values(&self) -> Seq<T> {
        self.values@
    }

    /// The first error a chunk reported.
    pub closed spec fn error(&self) -> Option<EndpointError> {
        self.error
    }

    /// Starts from the records the cache answered.
    pub fn new(cached: Vec<T>) -> (r: Self)
        ensures
            r.values() == cached@,
            r.error() is None,
    {
        BulkResult { values: cached, error: None }
    }

    /// Adds the outcome of one chunk request, in the order the chunks
    /// completed: its records are kept, and its error is kept only if no
    /// chunk failed before.
    pub fn add_chunk(&mut self, chunk: Result<Vec<T>, EndpointError>)
        ensures
            match chunk {
                Ok(vs) => final(self).values() == old(self).values() + vs@ && final(self).error()
                    == old(self).error(),
                Err(e) => final(self).values() == old(self).values() && final(self).error() == (
                if old(self).error() is None {
                    Some(e)
                } else {
                    old(self).error()
                }),
            },
    {
        match chunk {
            Ok(vs) => {
                let mut vs = vs;
                self.values.append(&mut vs);
            },
            Err(e) => {
                if self.error.is_none() {
                    self.error = Some(e);
                }
            },
        }
    }

    /// The first chunk error if any chunk failed, else every record
    /// gathered.
    pub fn into_result(self) -> (r: Result<Vec<T>, EndpointError>)
        ensures
            self.error() matches Some(e) ==> r == Err::<Vec<T>, EndpointError>(e),
            self.error() is None ==> (r matches Ok(vs) && vs@ == self.values()),
    {
        match self.error {
            Some(e) => Err(e),
            None => Ok(self.values),
        }
    }
}

} // verus!
