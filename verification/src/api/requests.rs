//! The requests as they go over the wire: where each is posted and what its
//! body holds. Sending them is the driver's part.
//!
//! Every request is a POST of a JSON object with one member, the request's
//! argument under a name that depends on what is asked, to a path below the
//! catalog's base address.

use vstd::prelude::*;
use crate::fetch::{Fetch, FetchKind};

verus! {

/// A request ready to be sent.
#[derive(Debug, Clone, PartialEq, Eq)]
pub struct Request {
    /// The address to post to.
    pub url: String,
    /// The JSON text to post.
    pub body: String,
}

/// A request with its parts as sequences of characters.
pub struct RequestView {
    pub url: Seq<char>,
    pub body: Seq<char>,
}

impl View for Request {
    type V = RequestView;

    open spec fn view(&self) -> RequestView {
        RequestView { url: self.url@, body: self.body@ }
    }
}

/// Why a request could not be made ready.
#[derive(Debug, Clone, Copy, PartialEq, Eq)]
pub enum RequestError {
    /// The argument could not be written as JSON.
    Encoding,
}

/// The path below the base address that a request of kind `kind` is posted to.
pub open spec fn endpoint(kind: FetchKind) -> Seq<char> {
    match kind {
        FetchKind::Search => "/search"@,
        FetchKind::Details => "/details"@,
        FetchKind::Download => "/download"@,
    }
}

/// The name under which a request of kind `kind` carries its argument.
pub open spec fn payload_key(kind: FetchKind) -> Seq<char> {
    match kind {
        FetchKind::Search => "keyword"@,
        FetchKind::Details => "path"@,
        FetchKind::Download => "key"@,
    }
}

/// The request of kind `kind` to the catalog at `base_url` that carries the
/// JSON text `body`.
pub open spec fn framed(base_url: Seq<char>, kind: FetchKind, body: Seq<char>) -> RequestView {
    RequestView { url: base_url + endpoint(kind), body }
}

/// What `serde_json` makes of the object whose only member is named `key` and
/// holds the string `value`: its compact JSON text, or nothing on an error.
pub uninterp spec fn json_object_text(key: Seq<char>, value: Seq<char>) -> Option<Seq<char>>;

#[verifier::external_type_specification]
#[verifier::external_body]
pub struct ExJsonError(serde_json::Error);

/// `serde_json::to_string`, applied to the JSON object whose only member is
/// named `key` and holds the string `value`. What it returns, a text or an
/// error, depends on `key` and `value` alone; that it is a text is not claimed.
#[verifier::external_body]
fn encode_object(key: &str, value: &str) -> (encoded: Result<String, serde_json::Error>)
    ensures
        encoded matches Ok(text) ==> json_object_text(key@, value@) == Some(text@),
        encoded is Err ==> json_object_text(key@, value@) is None,
{
    let mut object = serde_json::Map::new();
    object.insert(key.to_owned(), serde_json::Value::String(value.to_owned()));
    serde_json::to_string(&serde_json::Value::Object(object))
}

/// The path below the base address that a request of kind `kind` is posted to.
pub fn endpoint_of(kind: FetchKind) -> (path: &'static str)
    ensures
        path@ == endpoint(kind),
{
    match kind {
        FetchKind::Search => "/search",
        FetchKind::Details => "/details",
        FetchKind::Download => "/download",
    }
}

/// The name under which a request of kind `kind` carries its argument.
pub fn payload_key_of(kind: FetchKind) -> (key: &'static str)
    ensures
        key@ == payload_key(kind),
{
    match kind {
        FetchKind::Search => "keyword",
        FetchKind::Details => "path",
        FetchKind::Download => "key",
    }
}

/// Puts a request of kind `kind` together from the catalog's base address and
/// the outcome of encoding its payload: the request with that text as its
/// body where there is one, and an error where there is none.
pub fn frame_request(
    base_url: &str,
    kind: FetchKind,
    encoded: Result<String, serde_json::Error>,
) -> (made: Result<Request, RequestError>)
    ensures
        match encoded {
            Ok(body) => made matches Ok(request) && request@ == framed(base_url@, kind, body@),
            Err(_) => made == Err::<Request, RequestError>(RequestError::Encoding),
        },
{
    match encoded {
        Ok(body) => {
            let mut url = String::from_str(base_url);
            url.append(endpoint_of(kind));
            Ok(Request { url, body })
        },
        Err(_) => Err(RequestError::Encoding),
    }
}

/// The request of kind `kind` for `argument`, to the catalog at `base_url`: made
/// exactly where `argument` can be encoded under the kind's name.
pub fn request_for(base_url: &str, kind: FetchKind, argument: &str) -> (made: Result<
    Request,
    RequestError,
>)
    ensures
        match json_object_text(payload_key(kind), argument@) {
            Some(body) => made matches Ok(request) && request@ == framed(base_url@, kind, body),
            None => made == Err::<Request, RequestError>(RequestError::Encoding),
        },
{
    frame_request(base_url, kind, encode_object(payload_key_of(kind), argument))
}

/// The request that `fetch` stands for, to the catalog at `base_url`: a post
/// to the path of its kind, with its argument under the name of its kind,
/// made exactly where the argument can be encoded.
pub fn request(base_url: &str, fetch: &Fetch) -> (made: Result<Request, RequestError>)
    ensures
        match json_object_text(payload_key(fetch.kind), fetch.argument@) {
            Some(body) => made matches Ok(request) && request@ == framed(base_url@, fetch.kind, body),
            None => made == Err::<Request, RequestError>(RequestError::Encoding),
        },
{
    request_for(base_url, fetch.kind, fetch.argument.as_str())
}

/// The request for the hits that match `keyword`: a post to `/search` below
/// `base_url` that carries `keyword` under the name `keyword`, made exactly
/// where `keyword` can be encoded.
pub fn search(base_url: &str, keyword: &str) -> (made: Result<Request, RequestError>)
    ensures
        match json_object_text("keyword"@, keyword@) {
            Some(body) => made matches Ok(request) && request@ == framed(base_url@, FetchKind::Search, body),
            None => made == Err::<Request, RequestError>(RequestError::Encoding),
        },
{
    request_for(base_url, FetchKind::Search, keyword)
}

/// The request for the details of the hit at `path`: a post to `/details`
/// below `base_url` that carries `path` under the name `path`, made exactly
/// where `path` can be encoded.
pub fn details(base_url: &str, path: &str) -> (made: Result<Request, RequestError>)
    ensures
        match json_object_text("path"@, path@) {
            Some(body) => made matches Ok(request) && request@ == framed(base_url@, FetchKind::Details, body),
            None => made == Err::<Request, RequestError>(RequestError::Encoding),
        },
{
    request_for(base_url, FetchKind::Details, path)
}

/// The request for the files of the source with the key `download_key`: a post
/// to `/download` below `base_url` that carries the key under the name `key`,
/// made exactly where the key can be encoded.
pub fn download(base_url: &str, download_key: &str) -> (made: Result<Request, RequestError>)
    ensures
        match json_object_text("key"@, download_key@) {
            Some(body) => made matches Ok(request) && request@ == framed(base_url@, FetchKind::Download, body),
            None => made == Err::<Request, RequestError>(RequestError::Encoding),
        },
{
    request_for(base_url, FetchKind::Download, download_key)
}

} // verus!
