//! Tests for browser classification and syntax-highlighted rendering.

use pastebin::render::{highlight, is_browser, respond_get, ContentType, Status};

const FIREFOX_UA: &str =
    "Mozilla/5.0 (X11; Linux x86_64; rv:109.0) Gecko/20100101 Firefox/119.0";
const CURL_UA: &str = "curl/8.4.0";

#[test]
fn browser_engine_tokens_are_recognised() {
    assert!(is_browser(&vec![FIREFOX_UA.to_string()]));
    assert!(is_browser(&vec!["Mozilla/5.0 AppleWebKit/537.36 Chrome/119.0 Safari/537.36".to_string()]));
    assert!(is_browser(&vec!["Chromium/90.0".to_string()]));
    assert!(is_browser(&vec!["Version/17.0 Safari/605.1.15".to_string()]));
}

#[test]
fn non_browser_and_absent_headers_are_not_browsers() {
    assert!(!is_browser(&vec![CURL_UA.to_string()]));
    assert!(!is_browser(&vec!["wget/1.21".to_string()]));
    assert!(!is_browser(&Vec::new()));
}

#[test]
fn any_matching_header_value_classifies_as_browser() {
    assert!(is_browser(&vec![CURL_UA.to_string(), FIREFOX_UA.to_string()]));
}

#[test]
fn shell_script_first_line_is_highlighted() {
    let contents = "#!/bin/sh\necho hello\n";
    let html = highlight(contents).expect("a shebang line identifies a syntax");
    assert!(html.contains("<pre"));
    assert!(html.contains("echo"));
    assert_ne!(html, contents);
}

#[test]
fn undetectable_content_is_not_highlighted() {
    assert_eq!(highlight("some plain words, no syntax at all\n"), None);
}

#[test]
fn browser_read_of_detectable_content_is_html() {
    let contents = "#!/bin/sh\necho hello\n";
    let resp = respond_get(&vec![FIREFOX_UA.to_string()], contents);
    assert_eq!(resp.status, Status::Success);
    assert_eq!(resp.content_type, ContentType::Html);
    assert!(resp.body.contains("<pre"));
    assert!(resp.body.contains("span"));
}

#[test]
fn non_browser_read_is_the_exact_plain_text() {
    let contents = "#!/bin/sh\necho hello\n";
    let resp = respond_get(&vec![CURL_UA.to_string()], contents);
    assert_eq!(resp.status, Status::Success);
    assert_eq!(resp.content_type, ContentType::PlainText);
    assert_eq!(resp.body, contents);
}

#[test]
fn browser_read_of_undetectable_content_falls_back_to_plain_text() {
    let contents = "some plain words, no syntax at all\n";
    let resp = respond_get(&vec![FIREFOX_UA.to_string()], contents);
    assert_eq!(resp.status, Status::Success);
    assert_eq!(resp.content_type, ContentType::PlainText);
    assert_eq!(resp.body, contents);
}
