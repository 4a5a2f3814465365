//! End-to-end tests over the request handlers: write then read, size
//! enforcement, not-found, and the help text.

use pastebin::handlers::{handle_get, handle_post, homepage_text, MAX_PASTE_SIZE};
use pastebin::render::{ContentType, Status};
use pastebin::store::Store;

const URL_PREFIX: &str = "https://pastes.dxuuu.xyz/";
const CURL_UA: &str = "curl/8.4.0";
const FIREFOX_UA: &str =
    "Mozilla/5.0 (X11; Linux x86_64; rv:109.0) Gecko/20100101 Firefox/119.0";

fn id_of_created(url: &str) -> String {
    let rest = url.strip_prefix(URL_PREFIX).expect("a retrieval URL");
    rest.strip_suffix('\n').expect("a trailing newline").to_string()
}

#[test]
fn write_then_read_returns_exactly_the_original_bytes() {
    let mut store = Store::open(":memory:").unwrap();
    let body = "fn main() {}\n\u{00e9}\u{1F980} bytes kept verbatim";
    let resp = handle_post(&mut store, body);
    assert_eq!(resp.status, Status::Created);
    let id = id_of_created(&resp.body);
    assert_eq!(id.chars().count(), 6);
    let read = handle_get(&store, &id, &vec![CURL_UA.to_string()]);
    assert_eq!(read.status, Status::Success);
    assert_eq!(read.content_type, ContentType::PlainText);
    assert_eq!(read.body, body);
}

#[test]
fn a_body_at_the_ceiling_is_accepted() {
    let mut store = Store::open(":memory:").unwrap();
    let body = "a".repeat(MAX_PASTE_SIZE);
    let resp = handle_post(&mut store, &body);
    assert_eq!(resp.status, Status::Created);
    let id = id_of_created(&resp.body);
    let read = handle_get(&store, &id, &Vec::new());
    assert_eq!(read.body, body);
}

#[test]
fn an_oversized_body_is_rejected_and_nothing_is_stored() {
    let mut store = Store::open(":memory:").unwrap();
    let body = "a".repeat(MAX_PASTE_SIZE + 1);
    let resp = handle_post(&mut store, &body);
    assert_eq!(resp.status, Status::PayloadTooLarge);
    let read = handle_get(&store, "aaaaaa", &Vec::new());
    assert_eq!(read.status, Status::NotFound);
}

#[test]
fn size_is_counted_in_bytes_not_characters() {
    let mut store = Store::open(":memory:").unwrap();
    let body = "\u{00e9}".repeat(MAX_PASTE_SIZE / 2 + 1);
    assert!(body.chars().count() <= MAX_PASTE_SIZE);
    assert!(body.len() > MAX_PASTE_SIZE);
    let resp = handle_post(&mut store, &body);
    assert_eq!(resp.status, Status::PayloadTooLarge);
}

#[test]
fn reading_a_never_written_id_is_not_found() {
    let store = Store::open(":memory:").unwrap();
    let read = handle_get(&store, "zzzzzz", &vec![FIREFOX_UA.to_string()]);
    assert_eq!(read.status, Status::NotFound);
}

#[test]
fn a_browser_read_of_a_shell_script_is_highlighted_html() {
    let mut store = Store::open(":memory:").unwrap();
    let body = "#!/bin/sh\necho hello\n";
    let resp = handle_post(&mut store, body);
    assert_eq!(resp.status, Status::Created);
    let id = id_of_created(&resp.body);
    let read = handle_get(&store, &id, &vec![FIREFOX_UA.to_string()]);
    assert_eq!(read.status, Status::Success);
    assert_eq!(read.content_type, ContentType::Html);
    assert!(read.body.contains("<pre"));
    let plain = handle_get(&store, &id, &vec![CURL_UA.to_string()]);
    assert_eq!(plain.content_type, ContentType::PlainText);
    assert_eq!(plain.body, body);
}

#[test]
fn a_browser_read_of_plain_words_stays_plain_text() {
    let mut store = Store::open(":memory:").unwrap();
    let body = "some plain words, no syntax at all\n";
    let resp = handle_post(&mut store, body);
    let id = id_of_created(&resp.body);
    let read = handle_get(&store, &id, &vec![FIREFOX_UA.to_string()]);
    assert_eq!(read.status, Status::Success);
    assert_eq!(read.content_type, ContentType::PlainText);
    assert_eq!(read.body, body);
}

#[test]
fn an_empty_body_round_trips() {
    let mut store = Store::open(":memory:").unwrap();
    let resp = handle_post(&mut store, "");
    assert_eq!(resp.status, Status::Created);
    let id = id_of_created(&resp.body);
    let read = handle_get(&store, &id, &Vec::new());
    assert_eq!(read.status, Status::Success);
    assert_eq!(read.body, "");
}

#[test]
fn the_help_text_mentions_both_operations() {
    let help = homepage_text();
    assert!(help.contains("POST /"));
    assert!(help.contains("GET /<id>"));
}
