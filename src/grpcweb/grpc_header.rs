use vstd::prelude::*;

verus! {

/// A service layer that rewrites inbound requests for the backend before
/// handing them to `inner`.
pub struct GrpcHeader<S> {
    pub inner: S,
}

impl<S> GrpcHeader<S> {
    /// Wraps `inner`.
    pub fn new(inner: S) -> (r: Self)
        ensures
            r.inner == inner,
    {
        GrpcHeader { inner }
    }
}

} // verus!
