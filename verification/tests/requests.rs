use catalog_nav::api::requests::{
    details, download, endpoint_of, frame_request, payload_key_of, request, request_for, search,
    Request, RequestError,
};
use catalog_nav::fetch::{Fetch, FetchKind};

#[test]
fn search_posts_the_keyword() {
    let made = search("http://localhost:3000", "matrix").unwrap();
    assert_eq!(made.url, "http://localhost:3000/search");
    assert_eq!(made.body, "{\"keyword\":\"matrix\"}");
}

#[test]
fn details_posts_the_path() {
    let made = details("http://localhost:3000", "/movie/the-matrix").unwrap();
    assert_eq!(made.url, "http://localhost:3000/details");
    assert_eq!(made.body, "{\"path\":\"/movie/the-matrix\"}");
}

#[test]
fn download_posts_the_key() {
    let made = download("http://localhost:3000", "abc123").unwrap();
    assert_eq!(made.url, "http://localhost:3000/download");
    assert_eq!(made.body, "{\"key\":\"abc123\"}");
}

#[test]
fn request_goes_by_the_kind_of_the_fetch() {
    let fetch = Fetch { kind: FetchKind::Details, argument: "p".to_string() };
    assert_eq!(
        request("http://h", &fetch),
        Ok(Request { url: "http://h/details".to_string(), body: "{\"path\":\"p\"}".to_string() })
    );
    assert_eq!(request("http://h", &fetch), details("http://h", "p"));
    assert_eq!(request_for("http://h", FetchKind::Search, "q"), search("http://h", "q"));
    assert_eq!(request_for("http://h", FetchKind::Download, "k"), download("http://h", "k"));
}

#[test]
fn body_is_json_that_holds_the_argument() {
    let keyword = "say \"hi\"\\ \n\tnée 日本";
    let made = search("http://h", keyword).unwrap();
    assert_ne!(made.body, keyword);
    let parsed: serde_json::Value = serde_json::from_str(&made.body).unwrap();
    let object = parsed.as_object().unwrap();
    assert_eq!(object.len(), 1);
    assert_eq!(object.get("keyword").and_then(|v| v.as_str()), Some(keyword));
}

#[test]
fn body_escapes_quotes() {
    let made = search("http://h", "a\"b").unwrap();
    assert_eq!(made.body, "{\"keyword\":\"a\\\"b\"}");
}

#[test]
fn empty_argument_is_sent_as_an_empty_string() {
    let made = search("", "").unwrap();
    assert_eq!(made.url, "/search");
    assert_eq!(made.body, "{\"keyword\":\"\"}");
}

#[test]
fn endpoints_and_payload_keys() {
    assert_eq!(endpoint_of(FetchKind::Search), "/search");
    assert_eq!(endpoint_of(FetchKind::Details), "/details");
    assert_eq!(endpoint_of(FetchKind::Download), "/download");
    assert_eq!(payload_key_of(FetchKind::Search), "keyword");
    assert_eq!(payload_key_of(FetchKind::Details), "path");
    assert_eq!(payload_key_of(FetchKind::Download), "key");
}

#[test]
fn frame_request_takes_the_encoded_body() {
    let made = frame_request("http://h", FetchKind::Download, Ok("{}".to_string()));
    assert_eq!(
        made,
        Ok(Request { url: "http://h/download".to_string(), body: "{}".to_string() })
    );
}

#[test]
fn frame_request_reports_a_failed_encoding() {
    let failure = serde_json::from_str::<serde_json::Value>("{").unwrap_err();
    let made = frame_request("http://h", FetchKind::Search, Err(failure));
    assert_eq!(made, Err(RequestError::Encoding));
}
