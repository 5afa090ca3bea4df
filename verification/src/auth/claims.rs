//! The layer that reads the claims of each request.

use vstd::prelude::*;

verus! {

/// Builds [`GetClaims`] around a service.
#[derive(Clone, Copy)]
pub struct GetClaimsLayer;

/// A service that first reads the claims of the request.
pub struct GetClaims<S> {
    service: S,
}

impl GetClaimsLayer {
    pub fn layer<S>(&self, service: S) -> (g: GetClaims<S>)
        ensures
            g.service() == service,
    {
        GetClaims { service }
    }
}

impl<S> GetClaims<S> {
    pub closed spec fn service(&self) -> S {
        self.service
    }

    /// The wrapped service.
    pub fn inner(&mut self) -> (s: &mut S)
        ensures
            *s == old(self).service(),
            final(self).service() == *final(s),
    {
        &mut self.service
    }
}

} // verus!
