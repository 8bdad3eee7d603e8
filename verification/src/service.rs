//! The middleware service: wraps an inner service whose requests it
//! measures.
use vstd::prelude::*;

verus! {

/// A service that measures the requests that it passes to `inner`.
#[derive(Debug, Clone)]
pub struct MetricsService<S> {
    inner: S,
}

impl<S> View for MetricsService<S> {
    type V = S;

    closed spec fn view(&self) -> S {
        self.inner
    }
}

impl<S> MetricsService<S> {
    /// Wraps `inner`.
    pub fn new(inner: S) -> (res: MetricsService<S>)
        ensures
            res@ == inner,
    {
        MetricsService { inner }
    }

    /// Gives back the wrapped service.
    pub fn into_inner(self) -> (res: S)
        ensures
            res == self@,
    {
        self.inner
    }
}

} // verus!
