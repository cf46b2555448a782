//! The notifications that the store exchanges with its host.
use vstd::prelude::*;

use crate::fetch::ErrorKind;

verus! {

/// A resource was requested to be fetched.
#[derive(Clone, Debug)]
pub struct Request {
    pub resource: String,
}

/// A resource was fetched.
#[derive(Clone, Debug)]
pub struct Fetched(pub String);

/// Fetching a resource failed.
#[derive(Clone, Debug)]
pub struct Error<E> {
    pub resource: String,
    pub kind: ErrorKind<E>,
}

/// A resource was marked as dirty.
#[derive(Clone, Debug)]
pub struct MarkDirty(pub String);

} // verus!
