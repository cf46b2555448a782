use seed_fetcher::event::Request;
use seed_fetcher::{
    Acquired, CachePolicy, CachedResource, ContentType, DontFetch, FieldKind, NotAvailable,
    ResourceMsg, ResourceStore, Resources,
};

fn fetched(key: &str, value: u32) -> ResourceMsg<u32, String> {
    ResourceMsg::Fetched(key.to_string(), CachedResource::new(vec![], ContentType::Json, value))
}

fn declared() -> Resources {
    let mut r = Resources::new();
    assert!(r.declare("a", "/a", FieldKind::Fetch(CachePolicy::MustBeFresh)));
    assert!(r.declare("never", "/never", FieldKind::DontFetch(DontFetch)));
    assert!(r.declare("b", "/b", FieldKind::Fetch(CachePolicy::MayBeStale)));
    r
}

fn urls(requests: &[Request]) -> Vec<String> {
    requests.iter().map(|q| q.resource.clone()).collect()
}

#[test]
fn batch_acquire_on_empty_store_requests_every_fetched_field() {
    let store: ResourceStore<u32> = ResourceStore::new();
    let d = declared();
    let (r, requests) = d.acquire(&store);
    assert!(matches!(r, Err(NotAvailable::NotFetched)));
    assert_eq!(urls(&requests), vec!["/a".to_string(), "/b".to_string()]);
    assert!(matches!(d.acquire_now(&store), Err(NotAvailable::NotFetched)));
}

#[test]
fn batch_acquire_serves_all_fields() {
    let mut store: ResourceStore<u32> = ResourceStore::new();
    store.update(fetched("/a", 1));
    store.update(fetched("/b", 2));
    let d = declared();
    let (r, requests) = d.acquire(&store);
    let values = r.ok().expect("all served");
    assert_eq!(values.len(), 3);
    assert!(matches!(values[0], Acquired::Value(&1)));
    assert!(matches!(values[1], Acquired::Skipped(DontFetch)));
    assert!(matches!(values[2], Acquired::Value(&2)));
    assert!(requests.is_empty());
    assert_eq!(d.acquire_now(&store).ok().map(|v| v.len()), Some(3));
}

#[test]
fn batch_acquire_reports_first_refusal_in_order() {
    let mut store: ResourceStore<u32> = ResourceStore::new();
    store.update(fetched("/a", 1));
    let mark = store.mark_as_dirty("/a");
    store.update(ResourceMsg::<u32, String>::MarkDirty(mark));
    let d = declared();
    let (r, requests) = d.acquire(&store);
    // "/a" is dirty under MustBeFresh (stale, refetch); "/b" is absent (not fetched, fetch).
    assert!(matches!(r, Err(NotAvailable::Stale)));
    assert_eq!(urls(&requests), vec!["/a".to_string(), "/b".to_string()]);
    assert!(matches!(d.acquire_now(&store), Err(NotAvailable::Stale)));
}
