//! A shareable error: an error value behind a reference counter, so every
//! waiter on one shared fallible operation can observe the same failure.
//!
//! When several tasks want the result of a single download — one fetch per
//! resource, the others wait — the fetched value can be shared with a
//! reference counter, and the error must be shareable the same way. That
//! coordination layer itself is outside this crate's scope; this is the error
//! it needs.

use std::sync::Arc;
use vstd::prelude::*;

verus! {

/// Relies on the type `anyhow::Error`, the error the download driver reports;
/// declared so values of it can be carried through, opaquely.
#[verifier::external_type_specification]
#[verifier::external_body]
pub struct ExAnyhowError(anyhow::Error);

/// An `anyhow::Error` behind an `Arc`. Cloning shares the one error instead
/// of duplicating it, which `anyhow::Error` itself does not support.
#[derive(Clone)]
pub struct ArcAnyhowError(Arc<anyhow::Error>);

impl ArcAnyhowError {
    /// The error all clones share.
    pub closed spec fn error_spec(self) -> anyhow::Error {
        *self.0
    }

    /// Wrap `error` so it can be shared.
    pub fn new(error: anyhow::Error) -> (r: Self)
        ensures
            r.error_spec() == error,
    {
        ArcAnyhowError(Arc::new(error))
    }

    /// Borrow the shared error, e.g. to report it.
    pub fn get(&self) -> (r: &anyhow::Error)
        ensures
            *r == self.error_spec(),
    {
        &*self.0
    }
}

} // verus!
