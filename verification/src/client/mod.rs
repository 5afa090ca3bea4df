//! The client of the service, for other programs of the system.

pub mod api;
pub mod error;
pub mod utils;

use vstd::prelude::*;
use std::sync::Arc;

verus! {

#[derive(Debug, PartialEq, Eq)]
pub struct IamInner {
    base_url: String,
}

#[derive(Debug, PartialEq, Eq)]
/// A handle on the service at a base address; clones share it.
pub struct Iam {
    inner: Arc<IamInner>,
}

impl Iam {
    pub closed spec fn base_url(&self) -> Seq<char> {
        self.inner.base_url@
    }

    pub fn new(base_url: &str) -> (iam: Self)
        ensures
            iam.base_url() == base_url@,
    {
        Self { inner: Arc::new(IamInner { base_url: base_url.to_string() }) }
    }

    /// The address of `path` on the service: the base address followed by the path.
    pub fn get_url(&self, path: &str) -> (url: String)
        ensures
            url@ == self.base_url() + path@,
    {
        self.inner.base_url.clone().concat(path)
    }
}

} // verus!
