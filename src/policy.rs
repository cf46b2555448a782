//! The cache-policy decision table: from the state of a cache slot and the
//! caller's policy to "serve", "refuse" and "dispatch a fetch".
use vstd::prelude::*;

verus! {

/// How strictly a caller requires up-to-date data.
#[derive(Debug, Clone, Copy, PartialEq, Eq, Structural)]
pub enum CachePolicy {
    /// The dirty resource will be re-fetched before it can be acquired
    MustBeFresh,
    /// The dirty resource will _not_ trigger a re-fetch
    MayBeStale,
    /// The dirty resource can be acquired, but will also trigger a re-fetch in the background
    SilentRefetch,
}

/// Why a typed read failed.
#[derive(Debug, Clone, Copy, PartialEq, Eq, Structural)]
pub enum NotAvailable {
    /// The resource is dirty and will be fetched again
    Stale,
    /// The resource has not been fetched yet
    NotFetched,
}

/// How current the data of a fetched resource is.
#[derive(Debug, Clone, Copy, PartialEq, Eq, Structural)]
pub enum Freshness {
    /// The last fetch succeeded and nothing invalidated it since.
    Fresh,
    /// Invalidated, and no refetch is in flight.
    Dirty,
    /// Invalidated, and a refetch has already been dispatched.
    BeingRefetched,
}

/// The state of one cache slot, as far as the decision table reads it.
#[derive(Debug, Clone, Copy, PartialEq, Eq, Structural)]
pub enum SlotState {
    /// No entry exists for the key.
    Absent,
    /// A fetch was requested and has not resolved yet.
    Pending,
    /// Data is present.
    Fetched(Freshness),
}

/// The name under which a policy is written in a resource declaration.
pub open spec fn spec_policy_named(name: Seq<char>) -> Option<CachePolicy> {
    if name == "MustBeFresh"@ {
        Some(CachePolicy::MustBeFresh)
    } else if name == "MayBeStale"@ {
        Some(CachePolicy::MayBeStale)
    } else if name == "SilentRefetch"@ {
        Some(CachePolicy::SilentRefetch)
    } else {
        None
    }
}

/// Whether two string slices hold the same characters.
pub(crate) fn str_eq(a: &str, b: &str) -> (r: bool)
    ensures
        r == (a@ == b@),
{
    let a_owned = a.to_owned();
    let b_owned = b.to_owned();
    a_owned == b_owned
}

impl CachePolicy {
    /// Reads a policy from its name (`"MustBeFresh"`, `"MayBeStale"` or
    /// `"SilentRefetch"`); any other name gives `None`.
    pub fn from_name(name: &str) -> (r: Option<CachePolicy>)
        ensures
            r == spec_policy_named(name@),
    {
        if str_eq(name, "MustBeFresh") {
            Some(CachePolicy::MustBeFresh)
        } else if str_eq(name, "MayBeStale") {
            Some(CachePolicy::MayBeStale)
        } else if str_eq(name, "SilentRefetch") {
            Some(CachePolicy::SilentRefetch)
        } else {
            None
        }
    }
}

impl Default for CachePolicy {
    /// A declared resource without a policy must be fresh.
    fn default() -> (r: CachePolicy)
        ensures
            r == CachePolicy::MustBeFresh,
    {
        CachePolicy::MustBeFresh
    }
}

/// The reason an access is refused, or `None` where the cached value is served.
pub open spec fn refusal(state: SlotState, policy: CachePolicy) -> Option<NotAvailable> {
    match state {
        SlotState::Absent => Some(NotAvailable::NotFetched),
        SlotState::Pending => Some(NotAvailable::NotFetched),
        SlotState::Fetched(Freshness::Fresh) => None,
        SlotState::Fetched(_) => if policy == CachePolicy::MustBeFresh {
            Some(NotAvailable::Stale)
        } else {
            None
        },
    }
}

/// Whether an access dispatches a fetch request.
pub open spec fn triggers_fetch(state: SlotState, policy: CachePolicy) -> bool {
    match state {
        SlotState::Absent => true,
        SlotState::Fetched(Freshness::Dirty) => policy != CachePolicy::MayBeStale,
        _ => false,
    }
}

/// Applies the decision table: the reason to refuse, if any, and whether to
/// dispatch a fetch.
pub fn decide(state: SlotState, policy: CachePolicy) -> (r: (Option<NotAvailable>, bool))
    ensures
        r.0 == refusal(state, policy),
        r.1 == triggers_fetch(state, policy),
{
    match state {
        SlotState::Absent => (Some(NotAvailable::NotFetched), true),
        SlotState::Pending => (Some(NotAvailable::NotFetched), false),
        SlotState::Fetched(freshness) => match (freshness, policy) {
            (Freshness::Fresh, _) | (_, CachePolicy::MayBeStale) => (None, false),
            (Freshness::Dirty, CachePolicy::SilentRefetch) => (None, true),
            (Freshness::BeingRefetched, CachePolicy::SilentRefetch) => (None, false),
            (Freshness::BeingRefetched, CachePolicy::MustBeFresh) => (
                Some(NotAvailable::Stale),
                false,
            ),
            (Freshness::Dirty, CachePolicy::MustBeFresh) => (Some(NotAvailable::Stale), true),
        },
    }
}

} // verus!
