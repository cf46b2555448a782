use seed_fetcher::fetch::{content_type_of, decoded_message, negotiate};
use seed_fetcher::{CachedResource, ContentType, ErrorKind, ResourceMsg};

#[test]
fn content_types() {
    assert_eq!(content_type_of("application/json"), Some(ContentType::Json));
    assert_eq!(content_type_of("application/msgpack"), Some(ContentType::MsgPack));
    assert_eq!(content_type_of("text/html"), None);
    assert_eq!(content_type_of("application/json; charset=utf-8"), None);
    assert_eq!(content_type_of(""), None);
}

#[test]
fn negotiate_known_content_type() {
    let r = negotiate::<String>(Ok((vec![1, 2], Some("application/msgpack".to_string()))));
    match r {
        Ok((ct, bytes)) => {
            assert_eq!(ct, ContentType::MsgPack);
            assert_eq!(bytes, vec![1, 2]);
        }
        Err(e) => panic!("unexpected {:?}", e),
    }
}

#[test]
fn negotiate_unknown_content_type() {
    let r = negotiate::<String>(Ok((vec![1], Some("text/plain".to_string()))));
    match r {
        Err(ErrorKind::UnsupportedContentType { content_type }) => {
            assert_eq!(content_type, "text/plain")
        }
        other => panic!("unexpected {:?}", other),
    }
}

#[test]
fn negotiate_missing_content_type() {
    let r = negotiate::<String>(Ok((vec![1], None)));
    match r {
        Err(ErrorKind::UnsupportedContentType { content_type }) => assert_eq!(content_type, ""),
        other => panic!("unexpected {:?}", other),
    }
}

#[test]
fn negotiate_transport_error() {
    let r = negotiate::<String>(Err("timed out".to_string()));
    match r {
        Err(ErrorKind::FetchError(e)) => assert_eq!(e, "timed out"),
        other => panic!("unexpected {:?}", other),
    }
}

#[test]
fn decoded_payload_becomes_fetched_message() {
    let msg: ResourceMsg<Vec<u32>, String> =
        decoded_message("/api/w".to_string(), ContentType::Json, b"[1,2,3]".to_vec(), Some(vec![1, 2, 3]));
    match msg {
        ResourceMsg::Fetched(key, data) => {
            assert_eq!(key, "/api/w");
            assert_eq!(data.raw(), &b"[1,2,3]".to_vec());
            assert_eq!(data.content_type(), ContentType::Json);
            assert_eq!(data.value(), &vec![1, 2, 3]);
        }
        other => panic!("unexpected {:?}", other),
    }
}

#[test]
fn undecodable_payload_becomes_error_message() {
    let msg: ResourceMsg<Vec<u32>, String> =
        decoded_message("/api/w".to_string(), ContentType::MsgPack, vec![0xc1], None);
    match msg {
        ResourceMsg::Error { resource, kind } => {
            assert_eq!(resource, "/api/w");
            assert!(matches!(kind, ErrorKind::DeserializeError));
        }
        other => panic!("unexpected {:?}", other),
    }
}

#[test]
fn new_cached_resource_keeps_its_parts() {
    let c = CachedResource::new(vec![3, 4], ContentType::MsgPack, 17u8);
    assert_eq!(c.raw(), &vec![3, 4]);
    assert_eq!(c.content_type(), ContentType::MsgPack);
    assert_eq!(*c.value(), 17);
}
