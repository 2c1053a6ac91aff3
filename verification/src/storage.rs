//! The store in which group state and key material live between calls.

use crate::engine::fresh_provider;
use std::sync::Arc;
use vstd::prelude::*;

verus! {

/// A handle on the in-memory store for groups and key material.
///
/// The store belongs to the crypto provider that the engine works with, so the
/// handle carries both. Copies of a handle share one store: what a client
/// writes, every session derived from it reads.
pub struct MLSStorage {
    pub(crate) provider: Arc<openmls_rust_crypto::OpenMlsRustCrypto>,
}

impl MLSStorage {
    /// A handle on a new, empty store.
    pub fn new() -> (storage: Self) {
        Self { provider: Arc::new(fresh_provider()) }
    }

    /// Another handle on the same store.
    pub fn share(&self) -> (storage: Self)
        ensures
            storage == *self,
    {
        Self { provider: share_handle(&self.provider) }
    }
}

/// `Arc::clone`: a second handle on the value that `handle` points to.
#[verifier::external_body]
pub(crate) fn share_handle<T>(handle: &Arc<T>) -> (shared: Arc<T>)
    ensures
        shared == *handle,
{
    Arc::clone(handle)
}

} // verus!
