//! The layer that adds the metrics middleware around a service.
use vstd::prelude::*;

use crate::service::MetricsService;

verus! {

/// Wraps services in a `MetricsService`.
#[derive(Debug, Clone, Copy)]
pub struct MetricsLayer;

impl MetricsLayer {
    /// Wraps `inner` in the metrics middleware.
    pub fn layer<S>(&self, inner: S) -> (res: MetricsService<S>)
        ensures
            res@ == inner,
    {
        MetricsService::new(inner)
    }
}

} // verus!
