//! A client-side cache of remotely fetched resources, keyed by URL, with a
//! per-resource freshness state machine, a cache-policy decision table and
//! de-duplication of in-flight fetches.
//!
//! All state changes go through [`ResourceStore::update`], which takes one
//! message and returns the [`Effect`] that the host performs: a fetch to start
//! or a notification to send. Fetch results come back as messages built by
//! [`fetch::negotiate`] and [`fetch::decoded_message`].
use vstd::prelude::*;

pub mod declared;
pub mod event;
pub mod fetch;
pub mod lifecycle;
pub mod policy;
pub mod store;

pub use declared::{Acquired, DontFetch, FieldKind, ResourceField, Resources};
pub use fetch::{ContentType, ErrorKind};
pub use policy::{CachePolicy, Freshness, NotAvailable, SlotState};
pub use policy::CachePolicy::{MayBeStale, MustBeFresh, SilentRefetch};
pub use store::{CachedResource, Effect, ResourceMsg, ResourceStore};

verus! {

} // verus!
