//! Laws of a cache slot's lifecycle, stated over the model that the contracts
//! of [`crate::store::ResourceStore`] use.
use vstd::prelude::*;

use crate::policy::{refusal, triggers_fetch, CachePolicy, Freshness, NotAvailable, SlotState};
use crate::store::{
    after_error, after_fetched, after_mark_dirty, after_request, cached_value, request_dispatches, slot_state,
    CachedView, EntryView,
};

verus! {

/// For a key with no entry, every access is refused as not fetched and
/// dispatches a request; that request starts a fetch and leaves the slot
/// pending, so a further request for the key starts none: exactly one fetch.
pub proof fn absent_key_fetches_once<V>(
    cache: Map<Seq<char>, EntryView<V>>,
    key: Seq<char>,
    policy: CachePolicy,
)
    requires
        !cache.contains_key(key),
    ensures
        refusal(slot_state(cache, key), policy) == Some(NotAvailable::NotFetched),
        triggers_fetch(slot_state(cache, key), policy),
        request_dispatches(cache, key),
        slot_state(after_request(cache, key), key) == SlotState::Pending,
        !request_dispatches(after_request(cache, key), key),
{
}

/// For a key whose fetch is pending, every access is refused as not fetched,
/// dispatches nothing, and a request for it changes nothing and starts no fetch.
pub proof fn pending_key_deduplicates<V>(
    cache: Map<Seq<char>, EntryView<V>>,
    key: Seq<char>,
    policy: CachePolicy,
)
    requires
        slot_state(cache, key) == SlotState::Pending,
    ensures
        refusal(slot_state(cache, key), policy) == Some(NotAvailable::NotFetched),
        !triggers_fetch(slot_state(cache, key), policy),
        !request_dispatches(cache, key),
        after_request(cache, key) == cache,
{
}

/// A fresh entry is served under every policy and dispatches no fetch.
pub proof fn fresh_entry_is_served<V>(
    cache: Map<Seq<char>, EntryView<V>>,
    key: Seq<char>,
    policy: CachePolicy,
)
    requires
        slot_state(cache, key) == SlotState::Fetched(Freshness::Fresh),
    ensures
        refusal(slot_state(cache, key), policy) is None,
        !triggers_fetch(slot_state(cache, key), policy),
        !request_dispatches(cache, key),
{
}

/// A dirty entry is served without a fetch under `MayBeStale`, served with a
/// refetch under `SilentRefetch`, and refused as stale with a refetch under
/// `MustBeFresh`; the refetch request marks it as being refetched.
pub proof fn dirty_entry_by_policy<V>(
    cache: Map<Seq<char>, EntryView<V>>,
    key: Seq<char>,
    policy: CachePolicy,
)
    requires
        slot_state(cache, key) == SlotState::Fetched(Freshness::Dirty),
    ensures
        policy == CachePolicy::MayBeStale ==> refusal(slot_state(cache, key), policy) is None
            && !triggers_fetch(slot_state(cache, key), policy),
        policy == CachePolicy::SilentRefetch ==> refusal(slot_state(cache, key), policy) is None
            && triggers_fetch(slot_state(cache, key), policy),
        policy == CachePolicy::MustBeFresh ==> refusal(slot_state(cache, key), policy) == Some(
            NotAvailable::Stale,
        ) && triggers_fetch(slot_state(cache, key), policy),
        request_dispatches(cache, key),
        slot_state(after_request(cache, key), key) == SlotState::Fetched(Freshness::BeingRefetched),
        cached_value(after_request(cache, key), key) == cached_value(cache, key),
{
}

/// An entry being refetched is served without a further fetch under
/// `MayBeStale` and `SilentRefetch`, and refused as stale without a further
/// fetch under `MustBeFresh`; a request for it starts no second fetch.
pub proof fn refetching_entry_by_policy<V>(
    cache: Map<Seq<char>, EntryView<V>>,
    key: Seq<char>,
    policy: CachePolicy,
)
    requires
        slot_state(cache, key) == SlotState::Fetched(Freshness::BeingRefetched),
    ensures
        policy != CachePolicy::MustBeFresh ==> refusal(slot_state(cache, key), policy) is None,
        policy == CachePolicy::MustBeFresh ==> refusal(slot_state(cache, key), policy) == Some(
            NotAvailable::Stale,
        ),
        !triggers_fetch(slot_state(cache, key), policy),
        !request_dispatches(cache, key),
        after_request(cache, key) == cache,
{
}

/// Marking a fresh entry dirty makes it dirty and keeps its value; marking a
/// pending or absent key changes nothing.
pub proof fn mark_dirty_transitions<V>(cache: Map<Seq<char>, EntryView<V>>, key: Seq<char>)
    ensures
        slot_state(cache, key) == SlotState::Fetched(Freshness::Fresh) ==> slot_state(
            after_mark_dirty(cache, key),
            key,
        ) == SlotState::Fetched(Freshness::Dirty) && cached_value(after_mark_dirty(cache, key), key)
            == cached_value(cache, key),
        slot_state(cache, key) == SlotState::Pending ==> after_mark_dirty(cache, key) == cache,
        slot_state(cache, key) == SlotState::Absent ==> after_mark_dirty(cache, key) == cache,
{
}

/// A successful fetch result overwrites the entry with fresh data, whatever
/// the key's state was before.
pub proof fn fetched_result_is_fresh<V>(
    cache: Map<Seq<char>, EntryView<V>>,
    key: Seq<char>,
    data: CachedView<V>,
)
    ensures
        slot_state(after_fetched(cache, key, data), key) == SlotState::Fetched(Freshness::Fresh),
        cached_value(after_fetched(cache, key, data), key) == data.value,
        after_fetched(cache, key, data)[key] == EntryView::Fetched(
            data.with_freshness(Freshness::Fresh),
        ),
{
}

/// Applying the same fetch result twice leaves the cache as applying it once.
pub proof fn fetched_result_idempotent<V>(
    cache: Map<Seq<char>, EntryView<V>>,
    key: Seq<char>,
    data: CachedView<V>,
)
    ensures
        after_fetched(after_fetched(cache, key, data), key, data) == after_fetched(cache, key, data),
{
    assert(after_fetched(after_fetched(cache, key, data), key, data) =~= after_fetched(
        cache,
        key,
        data,
    ));
}

/// A failed fetch of a pending key leaves it absent, so the next access is
/// refused as not fetched and dispatches a new fetch; a failed fetch leaves
/// every other state as it was.
pub proof fn failed_first_fetch_is_retried<V>(
    cache: Map<Seq<char>, EntryView<V>>,
    key: Seq<char>,
    policy: CachePolicy,
)
    ensures
        slot_state(cache, key) == SlotState::Pending ==> {
            &&& slot_state(after_error(cache, key), key) == SlotState::Absent
            &&& refusal(slot_state(after_error(cache, key), key), policy) == Some(
                NotAvailable::NotFetched,
            )
            &&& triggers_fetch(slot_state(after_error(cache, key), key), policy)
            &&& request_dispatches(after_error(cache, key), key)
        },
        slot_state(cache, key) != SlotState::Pending ==> after_error(cache, key) == cache,
{
}

} // verus!
