//! The cache engine: the mapping from resource key to cache entry, the
//! freshness state machine and the read accessors.
use vstd::prelude::*;
use vstd::pervasive::VecAdditionalExecFns;

use crate::event;
use crate::fetch::{ContentType, ErrorKind};
use crate::policy::{decide, refusal, triggers_fetch, CachePolicy, Freshness, NotAvailable, SlotState};

verus! {

/// The contents of a fetched resource, as the contracts see them.
pub struct CachedView<V> {
    pub raw: Seq<u8>,
    pub content_type: ContentType,
    pub freshness: Freshness,
    pub value: V,
}

impl<V> CachedView<V> {
    /// The same contents under another freshness.
    pub open spec fn with_freshness(self, freshness: Freshness) -> CachedView<V> {
        CachedView { freshness, ..self }
    }
}

/// A cache slot, as the contracts see it.
pub enum EntryView<V> {
    /// A fetch was requested and has not resolved yet.
    Pending,
    /// Data is present.
    Fetched(CachedView<V>),
}

/// The state that the decision table reads from the slot of `key`.
pub open spec fn slot_state<V>(cache: Map<Seq<char>, EntryView<V>>, key: Seq<char>) -> SlotState {
    if !cache.contains_key(key) {
        SlotState::Absent
    } else {
        match cache[key] {
            EntryView::Pending => SlotState::Pending,
            EntryView::Fetched(c) => SlotState::Fetched(c.freshness),
        }
    }
}

/// The decoded value held in the slot of `key`.
pub open spec fn cached_value<V>(cache: Map<Seq<char>, EntryView<V>>, key: Seq<char>) -> V
    recommends
        cache.contains_key(key),
        cache[key] is Fetched,
{
    cache[key]->Fetched_0.value
}

/// Whether a fetch request for `key` starts a fetch: only where no entry
/// exists or the entry is dirty with no refetch in flight.
pub open spec fn request_dispatches<V>(cache: Map<Seq<char>, EntryView<V>>, key: Seq<char>) -> bool {
    slot_state(cache, key) == SlotState::Absent || slot_state(cache, key) == SlotState::Fetched(
        Freshness::Dirty,
    )
}

/// The cache after a fetch request for `key`.
pub open spec fn after_request<V>(cache: Map<Seq<char>, EntryView<V>>, key: Seq<char>) -> Map<
    Seq<char>,
    EntryView<V>,
> {
    match slot_state(cache, key) {
        SlotState::Absent => cache.insert(key, EntryView::Pending),
        SlotState::Fetched(Freshness::Dirty) => cache.insert(
            key,
            EntryView::Fetched(cache[key]->Fetched_0.with_freshness(Freshness::BeingRefetched)),
        ),
        _ => cache,
    }
}

/// The cache after a successful fetch of `key` delivered `data`.
pub open spec fn after_fetched<V>(
    cache: Map<Seq<char>, EntryView<V>>,
    key: Seq<char>,
    data: CachedView<V>,
) -> Map<Seq<char>, EntryView<V>> {
    cache.insert(key, EntryView::Fetched(data.with_freshness(Freshness::Fresh)))
}

/// The cache after a fetch of `key` failed: a pending slot is dropped, so
/// the key is absent again; any other state is kept.
pub open spec fn after_error<V>(cache: Map<Seq<char>, EntryView<V>>, key: Seq<char>) -> Map<
    Seq<char>,
    EntryView<V>,
> {
    if slot_state(cache, key) == SlotState::Pending {
        cache.remove(key)
    } else {
        cache
    }
}

/// The cache after `key` was marked dirty.
pub open spec fn after_mark_dirty<V>(cache: Map<Seq<char>, EntryView<V>>, key: Seq<char>) -> Map<
    Seq<char>,
    EntryView<V>,
> {
    match slot_state(cache, key) {
        SlotState::Fetched(_) => cache.insert(
            key,
            EntryView::Fetched(cache[key]->Fetched_0.with_freshness(Freshness::Dirty)),
        ),
        _ => cache,
    }
}

/// A fetched resource: its raw payload, its encoding, its freshness and the
/// value decoded from it.
#[derive(Clone, Debug)]
pub struct CachedResource<V> {
    raw: Vec<u8>,
    content_type: ContentType,
    freshness: Freshness,
    deserialized: V,
}

impl<V> View for CachedResource<V> {
    type V = CachedView<V>;

    closed spec fn view(&self) -> CachedView<V> {
        CachedView {
            raw: self.raw@,
            content_type: self.content_type,
            freshness: self.freshness,
            value: self.deserialized,
        }
    }
}

impl<V> CachedResource<V> {
    /// A resource that has just been fetched and decoded.
    pub fn new(raw: Vec<u8>, content_type: ContentType, deserialized: V) -> (r: Self)
        ensures
            r@ == (CachedView {
                raw: raw@,
                content_type,
                freshness: Freshness::Fresh,
                value: deserialized,
            }),
    {
        CachedResource { raw, content_type, freshness: Freshness::Fresh, deserialized }
    }

    /// The raw payload.
    pub fn raw(&self) -> (r: &Vec<u8>)
        ensures
            r@ == self@.raw,
    {
        &self.raw
    }

    /// The encoding the payload arrived in.
    pub fn content_type(&self) -> (r: ContentType)
        ensures
            r == self@.content_type,
    {
        self.content_type
    }

    /// The value decoded from the payload.
    pub fn value(&self) -> (r: &V)
        ensures
            *r == self@.value,
    {
        &self.deserialized
    }

    fn with_freshness(self, freshness: Freshness) -> (r: Self)
        ensures
            r@ == self@.with_freshness(freshness),
    {
        CachedResource {
            raw: self.raw,
            content_type: self.content_type,
            freshness,
            deserialized: self.deserialized,
        }
    }
}

/// A message handled by [`ResourceStore::update`].
#[derive(Clone, Debug)]
pub enum ResourceMsg<V, E> {
    /// Fetch a resource, unless a fetch is already outstanding or the data is usable.
    Request(event::Request),
    /// A fetch succeeded.
    Fetched(String, CachedResource<V>),
    /// A fetch failed. A key whose first fetch failed becomes absent again, so
    /// the next access retries; an entry whose refetch failed stays being
    /// refetched.
    Error { resource: String, kind: ErrorKind<E> },
    /// Invalidate a resource.
    MarkDirty(event::MarkDirty),
}

/// What the host must do after [`ResourceStore::update`].
#[derive(Clone, Debug)]
pub enum Effect<E> {
    /// Nothing to do.
    Nothing,
    /// Fetch the resource and report the outcome back as a message.
    PerformFetch(event::Request),
    /// Tell subscribers that a resource was fetched.
    NotifyFetched(event::Fetched),
    /// Tell subscribers that fetching a resource failed.
    NotifyError(event::Error<E>),
}

enum CacheEntry<V> {
    WillBeFetched,
    Fetched(CachedResource<V>),
}

impl<V> CacheEntry<V> {
    spec fn view(&self) -> EntryView<V> {
        match self {
            CacheEntry::WillBeFetched => EntryView::Pending,
            CacheEntry::Fetched(r) => EntryView::Fetched(r@),
        }
    }
}

/// The cache of fetched resources, keyed by resource URL.
pub struct ResourceStore<V> {
    keys: Vec<String>,
    entries: Vec<CacheEntry<V>>,
    model: Ghost<Map<Seq<char>, EntryView<V>>>,
}

impl<V> View for ResourceStore<V> {
    type V = Map<Seq<char>, EntryView<V>>;

    closed spec fn view(&self) -> Map<Seq<char>, EntryView<V>> {
        self.model@
    }
}

impl<V> ResourceStore<V> {
    /// `keys` and `entries` run in parallel, keys are unique, and together
    /// they hold exactly the entries of the model.
    pub closed spec fn wf(&self) -> bool {
        &&& self.keys@.len() == self.entries@.len()
        &&& forall|i: int, j: int|
            0 <= i < j < self.keys@.len() ==> self.keys@[i]@ != self.keys@[j]@
        &&& forall|i: int|
            #![trigger self.keys@[i]]
            0 <= i < self.keys@.len() ==> self.model@.contains_key(self.keys@[i]@)
                && self.model@[self.keys@[i]@] == self.entries@[i].view()
        &&& forall|k: Seq<char>|
            #[trigger] self.model@.contains_key(k) ==> exists|i: int|
                0 <= i < self.keys@.len() && self.keys@[i]@ == k
    }

    /// An empty store.
    pub fn new() -> (s: Self)
        ensures
            s.wf(),
            s@ == Map::<Seq<char>, EntryView<V>>::empty(),
    {
        ResourceStore { keys: Vec::new(), entries: Vec::new(), model: Ghost(Map::empty()) }
    }

    fn find(&self, key: &String) -> (r: Option<usize>)
        requires
            self.wf(),
        ensures
            match r {
                Some(i) => i < self.keys@.len() && self.keys@[i as int]@ == key@
                    && self@.contains_key(key@) && self@[key@] == self.entries@[i as int].view(),
                None => !self@.contains_key(key@),
            },
    {
        let mut i: usize = 0;
        while i < self.keys.len()
            invariant
                self.wf(),
                0 <= i <= self.keys@.len(),
                forall|j: int| 0 <= j < i ==> self.keys@[j]@ != key@,
            decreases self.keys@.len() - i,
        {
            if self.keys[i] == *key {
                return Some(i);
            }
            i = i + 1;
        }
        None
    }

    /// Replaces the entry of slot `i` in place and hands back the one it held.
    fn replace_at(&mut self, i: usize, entry: CacheEntry<V>) -> (prev: CacheEntry<V>)
        requires
            old(self).wf(),
            i < old(self).keys@.len(),
        ensures
            final(self).wf(),
            final(self).keys@ == old(self).keys@,
            final(self)@ == old(self)@.insert(old(self).keys@[i as int]@, entry.view()),
            prev == old(self).entries@[i as int],
    {
        let ghost key = self.keys@[i as int]@;
        let ghost new_view = entry.view();
        let mut prev = entry;
        self.entries.set_and_swap(i, &mut prev);
        self.model = Ghost(self.model@.insert(key, new_view));
        prev
    }

    /// Removes slot `i`, moving the last slot into its place.
    fn remove_at(&mut self, i: usize)
        requires
            old(self).wf(),
            i < old(self).keys@.len(),
        ensures
            final(self).wf(),
            final(self)@ == old(self)@.remove(old(self).keys@[i as int]@),
    {
        let ghost old_keys = self.keys@;
        let ghost n = old_keys.len() as int;
        let ghost key = old_keys[i as int]@;
        let _key = self.keys.swap_remove(i);
        let _entry = self.entries.swap_remove(i);
        self.model = Ghost(self.model@.remove(key));
        // Slot `j` now holds what was at `src(j)`.
        assert forall|j: int| 0 <= j < self.keys@.len() implies self.keys@[j] == old_keys[if j
            == i {
            n - 1
        } else {
            j
        }] && (if j == i {
            n - 1
        } else {
            j
        }) != i by {}
        assert forall|a: int, b: int| 0 <= a < b < self.keys@.len() implies self.keys@[a]@
            != self.keys@[b]@ by {
            let sa = if a == i {
                n - 1
            } else {
                a
            };
            let sb = if b == i {
                n - 1
            } else {
                b
            };
            assert(self.keys@[a] == old_keys[sa]);
            assert(self.keys@[b] == old_keys[sb]);
            if sa < sb {
                assert(old_keys[sa]@ != old_keys[sb]@);
            } else {
                assert(old_keys[sb]@ != old_keys[sa]@);
            }
        }
        assert forall|q: Seq<char>| #[trigger] self.model@.contains_key(q) implies exists|j: int|
            0 <= j < self.keys@.len() && self.keys@[j]@ == q by {
            let j = choose|j: int| 0 <= j < n && old_keys[j]@ == q;
            if j == n - 1 {
                assert(self.keys@[i as int]@ == q);
            } else {
                assert(self.keys@[j]@ == q);
            }
        }
    }

    /// Stores `entry` under `key`, replacing any earlier entry.
    fn put(&mut self, key: String, entry: CacheEntry<V>)
        requires
            old(self).wf(),
        ensures
            final(self).wf(),
            final(self)@ == old(self)@.insert(key@, entry.view()),
    {
        match self.find(&key) {
            Some(i) => {
                let _prev = self.replace_at(i, entry);
            },
            None => {
                let ghost old_keys = self.keys@;
                let ghost k = key@;
                self.model = Ghost(self.model@.insert(key@, entry.view()));
                self.keys.push(key);
                self.entries.push(entry);
                assert forall|q: Seq<char>| #[trigger] self.model@.contains_key(q) implies exists|
                    j: int,
                | 0 <= j < self.keys@.len() && self.keys@[j]@ == q by {
                    if q != k {
                        let j = choose|j: int| 0 <= j < old_keys.len() && old_keys[j]@ == q;
                        assert(self.keys@[j]@ == q);
                    } else {
                        assert(self.keys@[old_keys.len() as int]@ == q);
                    }
                }
            },
        }
    }

    /// Sets the freshness of slot `i`, which holds fetched data.
    fn set_freshness(&mut self, i: usize, freshness: Freshness)
        requires
            old(self).wf(),
            i < old(self).keys@.len(),
            old(self).entries@[i as int] is Fetched,
        ensures
            final(self).wf(),
            final(self)@ == old(self)@.insert(
                old(self).keys@[i as int]@,
                EntryView::Fetched(old(self).entries@[i as int]->Fetched_0@.with_freshness(freshness)),
            ),
    {
        let ghost key = self.keys@[i as int]@;
        let prev = self.replace_at(i, CacheEntry::WillBeFetched);
        match prev {
            CacheEntry::Fetched(r) => {
                let _pending = self.replace_at(i, CacheEntry::Fetched(r.with_freshness(freshness)));
            },
            CacheEntry::WillBeFetched => {},
        }
        assert(self@ =~= old(self)@.insert(
            key,
            EntryView::Fetched(old(self).entries@[i as int]->Fetched_0@.with_freshness(freshness)),
        ));
    }

    /// The state of the slot of `resource`.
    pub fn state_of(&self, resource: &str) -> (r: SlotState)
        requires
            self.wf(),
        ensures
            r == slot_state(self@, resource@),
    {
        let key = resource.to_owned();
        match self.find(&key) {
            None => SlotState::Absent,
            Some(i) => match &self.entries[i] {
                CacheEntry::WillBeFetched => SlotState::Pending,
                CacheEntry::Fetched(r) => SlotState::Fetched(r.freshness),
            },
        }
    }

    /// The read half of an access: the cached value or the reason it is
    /// refused, and whether the access must dispatch a fetch.
    fn acquire_and_fetch(&self, resource: &str, policy: CachePolicy) -> (r: (
        Result<&V, NotAvailable>,
        bool,
    ))
        requires
            self.wf(),
        ensures
            r.1 == triggers_fetch(slot_state(self@, resource@), policy),
            match r.0 {
                Ok(v) => refusal(slot_state(self@, resource@), policy) is None && *v == cached_value(
                    self@,
                    resource@,
                ),
                Err(e) => refusal(slot_state(self@, resource@), policy) == Some(e),
            },
    {
        let key = resource.to_owned();
        match self.find(&key) {
            None => {
                let (_, fetch) = decide(SlotState::Absent, policy);
                (Err(NotAvailable::NotFetched), fetch)
            },
            Some(i) => match &self.entries[i] {
                CacheEntry::WillBeFetched => {
                    let (_, fetch) = decide(SlotState::Pending, policy);
                    (Err(NotAvailable::NotFetched), fetch)
                },
                CacheEntry::Fetched(r) => {
                    let (refused, fetch) = decide(SlotState::Fetched(r.freshness), policy);
                    match refused {
                        Some(e) => (Err(e), fetch),
                        None => (Ok(&r.deserialized), fetch),
                    }
                },
            },
        }
    }

    /// Reads the value of `resource` under `policy`, and hands back the fetch
    /// request to dispatch where the access calls for one.
    pub fn acquire(&self, resource: &str, policy: CachePolicy) -> (r: (
        Result<&V, NotAvailable>,
        Option<event::Request>,
    ))
        requires
            self.wf(),
        ensures
            match r.0 {
                Ok(v) => refusal(slot_state(self@, resource@), policy) is None && *v == cached_value(
                    self@,
                    resource@,
                ),
                Err(e) => refusal(slot_state(self@, resource@), policy) == Some(e),
            },
            match r.1 {
                Some(request) => triggers_fetch(slot_state(self@, resource@), policy)
                    && request.resource@ == resource@,
                None => !triggers_fetch(slot_state(self@, resource@), policy),
            },
    {
        let (value, fetch) = self.acquire_and_fetch(resource, policy);
        if fetch {
            (value, Some(event::Request { resource: resource.to_owned() }))
        } else {
            (value, None)
        }
    }

    /// Reads the value of `resource` under `policy`, without dispatching anything.
    pub fn acquire_now(&self, resource: &str, policy: CachePolicy) -> (r: Result<&V, NotAvailable>)
        requires
            self.wf(),
        ensures
            match r {
                Ok(v) => refusal(slot_state(self@, resource@), policy) is None && *v == cached_value(
                    self@,
                    resource@,
                ),
                Err(e) => refusal(slot_state(self@, resource@), policy) == Some(e),
            },
    {
        self.acquire_and_fetch(resource, policy).0
    }

    /// The message that invalidates `resource`; the store changes once the
    /// message comes back through [`ResourceStore::update`].
    pub fn mark_as_dirty(&self, resource: &str) -> (m: event::MarkDirty)
        ensures
            m.0@ == resource@,
    {
        event::MarkDirty(resource.to_owned())
    }

    /// The single state-transition entry point: applies `msg` and says what
    /// the host must do next.
    pub fn update<E>(&mut self, msg: ResourceMsg<V, E>) -> (effect: Effect<E>)
        requires
            old(self).wf(),
        ensures
            final(self).wf(),
            match msg {
                ResourceMsg::Request(request) => {
                    &&& final(self)@ == after_request(old(self)@, request.resource@)
                    &&& effect == if request_dispatches(old(self)@, request.resource@) {
                        Effect::<E>::PerformFetch(request)
                    } else {
                        Effect::<E>::Nothing
                    }
                },
                ResourceMsg::Fetched(resource, data) => {
                    &&& final(self)@ == after_fetched(old(self)@, resource@, data@)
                    &&& effect == Effect::<E>::NotifyFetched(event::Fetched(resource))
                },
                ResourceMsg::Error { resource, kind } => {
                    &&& final(self)@ == after_error(old(self)@, resource@)
                    &&& effect == Effect::NotifyError((event::Error { resource, kind }))
                },
                ResourceMsg::MarkDirty(mark) => {
                    &&& final(self)@ == after_mark_dirty(old(self)@, mark.0@)
                    &&& effect == Effect::<E>::Nothing
                },
            },
    {
        match msg {
            ResourceMsg::Request(request) => match self.find(&request.resource) {
                None => {
                    let key = request.resource.clone();
                    self.put(key, CacheEntry::WillBeFetched);
                    Effect::PerformFetch(request)
                },
                Some(i) => {
                    let dirty = match &self.entries[i] {
                        CacheEntry::Fetched(r) => r.freshness == Freshness::Dirty,
                        CacheEntry::WillBeFetched => false,
                    };
                    if dirty {
                        self.set_freshness(i, Freshness::BeingRefetched);
                        Effect::PerformFetch(request)
                    } else {
                        Effect::Nothing
                    }
                },
            },
            ResourceMsg::Fetched(resource, data) => {
                let key = resource.clone();
                self.put(key, CacheEntry::Fetched(data.with_freshness(Freshness::Fresh)));
                Effect::NotifyFetched(event::Fetched(resource))
            },
            ResourceMsg::Error { resource, kind } => {
                match self.find(&resource) {
                    Some(i) => {
                        let pending = match &self.entries[i] {
                            CacheEntry::WillBeFetched => true,
                            CacheEntry::Fetched(_) => false,
                        };
                        if pending {
                            self.remove_at(i);
                        }
                    },
                    None => {},
                }
                Effect::NotifyError(event::Error { resource, kind })
            },
            ResourceMsg::MarkDirty(mark) => {
                match self.find(&mark.0) {
                    Some(i) => {
                        let fetched = match &self.entries[i] {
                            CacheEntry::Fetched(_) => true,
                            CacheEntry::WillBeFetched => false,
                        };
                        if fetched {
                            self.set_freshness(i, Freshness::Dirty);
                        }
                    },
                    None => {},
                }
                Effect::Nothing
            },
        }
    }
}

} // verus!
