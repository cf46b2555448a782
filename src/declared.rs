//! Declared resources: a set of named fields, each bound to a resource URL and
//! a cache policy, acquired from a store together.
use vstd::prelude::*;

use crate::event;
use crate::policy::{refusal, str_eq, triggers_fetch, CachePolicy, NotAvailable};
use crate::store::{cached_value, slot_state, EntryView, ResourceStore};

verus! {

/// Marks a declared field that is never fetched.
#[derive(Copy, Clone, Debug, PartialEq, Eq, Structural)]
pub struct DontFetch;

/// How a declared field is obtained.
#[derive(Copy, Clone, Debug, PartialEq, Eq, Structural)]
pub enum FieldKind {
    /// Acquired from the store under the policy.
    Fetch(CachePolicy),
    /// Never fetched.
    DontFetch(DontFetch),
}

/// One declared field.
#[derive(Clone, Debug)]
pub struct ResourceField {
    pub name: String,
    pub url: String,
    pub kind: FieldKind,
}

/// What a batch access yields for one field.
#[derive(Debug)]
pub enum Acquired<'a, V> {
    Value(&'a V),
    Skipped(DontFetch),
}

/// Why a declared field holds no value: `None` where it is served.
pub open spec fn field_refusal<V>(cache: Map<Seq<char>, EntryView<V>>, field: ResourceField) -> Option<
    NotAvailable,
> {
    match field.kind {
        FieldKind::Fetch(policy) => refusal(slot_state(cache, field.url@), policy),
        FieldKind::DontFetch(_) => None,
    }
}

/// Whether acquiring a declared field dispatches a fetch.
pub open spec fn field_dispatches<V>(cache: Map<Seq<char>, EntryView<V>>, field: ResourceField) -> bool {
    match field.kind {
        FieldKind::Fetch(policy) => triggers_fetch(slot_state(cache, field.url@), policy),
        FieldKind::DontFetch(_) => false,
    }
}

/// The refusal of the first field, in declaration order, that is refused.
pub open spec fn first_refusal<V>(
    cache: Map<Seq<char>, EntryView<V>>,
    fields: Seq<ResourceField>,
) -> Option<NotAvailable>
    decreases fields.len(),
{
    if fields.len() == 0 {
        None
    } else {
        match first_refusal(cache, fields.drop_last()) {
            Some(e) => Some(e),
            None => field_refusal(cache, fields.last()),
        }
    }
}

/// The URLs, in declaration order, of the fields whose access dispatches a fetch.
pub open spec fn dispatched_urls<V>(
    cache: Map<Seq<char>, EntryView<V>>,
    fields: Seq<ResourceField>,
) -> Seq<Seq<char>>
    decreases fields.len(),
{
    if fields.len() == 0 {
        Seq::empty()
    } else if field_dispatches(cache, fields.last()) {
        dispatched_urls(cache, fields.drop_last()).push(fields.last().url@)
    } else {
        dispatched_urls(cache, fields.drop_last())
    }
}

/// What a batch access yields for `field` when nothing is refused.
pub open spec fn yields<V>(
    cache: Map<Seq<char>, EntryView<V>>,
    field: ResourceField,
    out: Acquired<V>,
) -> bool {
    match field.kind {
        FieldKind::Fetch(_) => out matches Acquired::Value(v) && *v == cached_value(cache, field.url@),
        FieldKind::DontFetch(d) => out == Acquired::<V>::Skipped(d),
    }
}

/// A list of declared fields, with distinct names.
pub struct Resources {
    fields: Vec<ResourceField>,
}

impl View for Resources {
    type V = Seq<ResourceField>;

    closed spec fn view(&self) -> Seq<ResourceField> {
        self.fields@
    }
}

impl Resources {
    /// No two fields share a name.
    pub open spec fn wf(&self) -> bool {
        forall|i: int, j: int| 0 <= i < j < self@.len() ==> self@[i].name@ != self@[j].name@
    }

    /// No fields declared.
    pub fn new() -> (r: Resources)
        ensures
            r.wf(),
            r@ == Seq::<ResourceField>::empty(),
    {
        Resources { fields: Vec::new() }
    }

    /// Declares a field after the others; refused, with nothing changed,
    /// where a field of that name exists.
    pub fn declare(&mut self, name: &str, url: &str, kind: FieldKind) -> (added: bool)
        requires
            old(self).wf(),
        ensures
            final(self).wf(),
            added == (forall|i: int| 0 <= i < old(self)@.len() ==> old(self)@[i].name@ != name@),
            added ==> final(self)@.len() == old(self)@.len() + 1 && final(self)@.drop_last()
                == old(self)@ && final(self)@.last().name@ == name@ && final(self)@.last().url@
                == url@ && final(self)@.last().kind == kind,
            !added ==> final(self)@ == old(self)@,
    {
        let mut i: usize = 0;
        while i < self.fields.len()
            invariant
                self.wf(),
                0 <= i <= self@.len(),
                forall|j: int| 0 <= j < i ==> self@[j].name@ != name@,
            decreases self@.len() - i,
        {
            if str_eq(self.fields[i].name.as_str(), name) {
                return false;
            }
            i = i + 1;
        }
        let ghost before = self@;
        self.fields.push(ResourceField { name: name.to_owned(), url: url.to_owned(), kind });
        assert(self@.drop_last() =~= before);
        true
    }

    /// The URL of the field named `name`.
    pub fn url_of(&self, name: &str) -> (r: Option<&str>)
        ensures
            match r {
                Some(url) => exists|i: int|
                    0 <= i < self@.len() && self@[i].name@ == name@ && self@[i].url@ == url@,
                None => forall|i: int| 0 <= i < self@.len() ==> self@[i].name@ != name@,
            },
    {
        let mut i: usize = 0;
        while i < self.fields.len()
            invariant
                0 <= i <= self@.len(),
                forall|j: int| 0 <= j < i ==> self@[j].name@ != name@,
            decreases self@.len() - i,
        {
            if str_eq(self.fields[i].name.as_str(), name) {
                return Some(self.fields[i].url.as_str());
            }
            i = i + 1;
        }
        None
    }

    /// Whether some field is bound to `url`.
    pub fn has_resource(&self, url: &str) -> (r: bool)
        ensures
            r == exists|i: int| 0 <= i < self@.len() && self@[i].url@ == url@,
    {
        let mut i: usize = 0;
        while i < self.fields.len()
            invariant
                0 <= i <= self@.len(),
                forall|j: int| 0 <= j < i ==> self@[j].url@ != url@,
            decreases self@.len() - i,
        {
            if str_eq(self.fields[i].url.as_str(), url) {
                return true;
            }
            i = i + 1;
        }
        false
    }

    /// Acquires every field in declaration order, collecting the fetch
    /// requests that the accesses dispatch.
    fn acquire_fields<'a, V>(&self, store: &'a ResourceStore<V>) -> (r: (
        Result<Vec<Acquired<'a, V>>, NotAvailable>,
        Vec<event::Request>,
    ))
        requires
            store.wf(),
        ensures
            match r.0 {
                Ok(values) => first_refusal(store@, self@) is None && values@.len() == self@.len()
                    && forall|i: int| 0 <= i < self@.len() ==> yields(store@, self@[i], values@[i]),
                Err(e) => first_refusal(store@, self@) == Some(e),
            },
            r.1@.map_values(|q: event::Request| q.resource@) == dispatched_urls(store@, self@),
    {
        let mut values: Vec<Acquired<'a, V>> = Vec::new();
        let mut failure: Option<NotAvailable> = None;
        let mut requests: Vec<event::Request> = Vec::new();
        let mut i: usize = 0;
        while i < self.fields.len()
            invariant
                store.wf(),
                0 <= i <= self@.len(),
                failure == first_refusal(store@, self@.take(i as int)),
                failure is None ==> values@.len() == i && forall|j: int|
                    0 <= j < i ==> yields(store@, self@[j], #[trigger] values@[j]),
                requests@.map_values(|q: event::Request| q.resource@) == dispatched_urls(
                    store@,
                    self@.take(i as int),
                ),
            decreases self@.len() - i,
        {
            let ghost prefix = self@.take(i as int);
            let ghost old_requests = requests@;
            assert(self@.take(i + 1).drop_last() =~= prefix);
            assert(self@.take(i + 1).last() == self@[i as int]);
            let field = &self.fields[i];
            match field.kind {
                FieldKind::Fetch(policy) => {
                    let (res, req) = store.acquire(field.url.as_str(), policy);
                    match req {
                        Some(q) => {
                            requests.push(q);
                            assert(requests@.map_values(|q: event::Request| q.resource@)
                                =~= old_requests.map_values(|q: event::Request| q.resource@).push(
                                self@[i as int].url@,
                            ));
                        },
                        None => {},
                    }
                    match res {
                        Ok(v) => {
                            if failure.is_none() {
                                values.push(Acquired::Value(v));
                            }
                        },
                        Err(e) => {
                            if failure.is_none() {
                                failure = Some(e);
                            }
                        },
                    }
                },
                FieldKind::DontFetch(d) => {
                    if failure.is_none() {
                        values.push(Acquired::Skipped(d));
                    }
                },
            }
            i = i + 1;
        }
        assert(self@.take(self@.len() as int) =~= self@);
        match failure {
            Some(e) => (Err(e), requests),
            None => (Ok(values), requests),
        }
    }

    /// Acquires every field from `store`: the values, or the first refusal in
    /// declaration order; and the fetch requests that all the accesses
    /// dispatch, in declaration order, refused or not.
    pub fn acquire<'a, V>(&self, store: &'a ResourceStore<V>) -> (r: (
        Result<Vec<Acquired<'a, V>>, NotAvailable>,
        Vec<event::Request>,
    ))
        requires
            store.wf(),
        ensures
            match r.0 {
                Ok(values) => first_refusal(store@, self@) is None && values@.len() == self@.len()
                    && forall|i: int| 0 <= i < self@.len() ==> yields(store@, self@[i], values@[i]),
                Err(e) => first_refusal(store@, self@) == Some(e),
            },
            r.1@.map_values(|q: event::Request| q.resource@) == dispatched_urls(store@, self@),
    {
        self.acquire_fields(store)
    }

    /// Acquires every field from `store` without dispatching anything: the
    /// values, or the first refusal in declaration order.
    pub fn acquire_now<'a, V>(&self, store: &'a ResourceStore<V>) -> (r: Result<
        Vec<Acquired<'a, V>>,
        NotAvailable,
    >)
        requires
            store.wf(),
        ensures
            match r {
                Ok(values) => first_refusal(store@, self@) is None && values@.len() == self@.len()
                    && forall|i: int| 0 <= i < self@.len() ==> yields(store@, self@[i], values@[i]),
                Err(e) => first_refusal(store@, self@) == Some(e),
            },
    {
        self.acquire_fields(store).0
    }
}

} // verus!
