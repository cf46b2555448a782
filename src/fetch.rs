//! Classification of a completed transfer: content-type negotiation and the
//! message that reports the outcome back to the store.
use vstd::prelude::*;

use crate::policy::{str_eq, Freshness};
use crate::store::{CachedResource, CachedView, ResourceMsg};

verus! {

/// The encodings a resource may arrive in.
#[derive(Clone, Copy, Debug, PartialEq, Eq, Structural)]
pub enum ContentType {
    Json,
    MsgPack,
}

/// Why fetching a resource failed; `E` is the transport's own error.
#[derive(Clone, Debug)]
#[non_exhaustive]
pub enum ErrorKind<E> {
    DeserializeError,
    FetchError(E),
    UnsupportedContentType { content_type: String },
}

/// The encoding named by a response's content-type header, if it is one
/// the cache accepts.
pub open spec fn spec_content_type(header: Seq<char>) -> Option<ContentType> {
    if header == "application/json"@ {
        Some(ContentType::Json)
    } else if header == "application/msgpack"@ {
        Some(ContentType::MsgPack)
    } else {
        None
    }
}

/// Reads the encoding from a content-type header value.
pub fn content_type_of(header: &str) -> (r: Option<ContentType>)
    ensures
        r == spec_content_type(header@),
{
    if str_eq(header, "application/json") {
        Some(ContentType::Json)
    } else if str_eq(header, "application/msgpack") {
        Some(ContentType::MsgPack)
    } else {
        None
    }
}

/// Negotiates the encoding of a completed transfer, given as the payload and
/// the content-type header if the response had one, or the transport's error.
/// A missing header is reported as an unsupported, empty content type.
pub fn negotiate<E>(response: Result<(Vec<u8>, Option<String>), E>) -> (r: Result<
    (ContentType, Vec<u8>),
    ErrorKind<E>,
>)
    ensures
        match response {
            Err(e) => r == Err::<(ContentType, Vec<u8>), ErrorKind<E>>(ErrorKind::FetchError(e)),
            Ok((bytes, None)) => r matches Err(ErrorKind::UnsupportedContentType { content_type })
                && content_type@ == Seq::<char>::empty(),
            Ok((bytes, Some(header))) => match spec_content_type(header@) {
                Some(content_type) => r == Ok::<(ContentType, Vec<u8>), ErrorKind<E>>(
                    (content_type, bytes),
                ),
                None => r matches Err(ErrorKind::UnsupportedContentType { content_type })
                    && content_type@ == header@,
            },
        },
{
    match response {
        Err(e) => Err(ErrorKind::FetchError(e)),
        Ok((_, None)) => Err(ErrorKind::UnsupportedContentType { content_type: String::new() }),
        Ok((bytes, Some(header))) => match content_type_of(header.as_str()) {
            Some(content_type) => Ok((content_type, bytes)),
            None => Err(ErrorKind::UnsupportedContentType { content_type: header }),
        },
    }
}

/// The message that reports a negotiated transfer: the fetched resource where
/// the payload was decoded, a deserialization error where it was not.
pub fn decoded_message<V, E>(
    resource: String,
    content_type: ContentType,
    raw: Vec<u8>,
    decoded: Option<V>,
) -> (msg: ResourceMsg<V, E>)
    ensures
        match decoded {
            Some(value) => msg matches ResourceMsg::Fetched(key, data) && key == resource && data@
                == (CachedView { raw: raw@, content_type, freshness: Freshness::Fresh, value }),
            None => msg matches ResourceMsg::Error { resource: key, kind } && key == resource
                && kind is DeserializeError,
        },
{
    match decoded {
        Some(value) => ResourceMsg::Fetched(resource, CachedResource::new(raw, content_type, value)),
        None => ResourceMsg::Error { resource, kind: ErrorKind::DeserializeError },
    }
}

} // verus!
