//! Content-negotiated rendering of a fetched paste: a best-effort browser
//! check on the client-identification header, best-effort syntax detection
//! from the first line, and a graceful fall back to verbatim plain text.

use vstd::prelude::*;
use vstd::string::StringSliceAdditionalSpecFns;

verus! {

/// `needle` occurs contiguously somewhere in `haystack`.
pub open spec fn contains_bytes(haystack: Seq<u8>, needle: Seq<u8>) -> bool {
    exists|i: int|
        0 <= i && i + needle.len() <= haystack.len() && #[trigger] haystack.subrange(
            i,
            i + needle.len(),
        ) == needle
}

/// Whether `needle` occurs at position `at` of `haystack`.
fn match_at(haystack: &[u8], needle: &[u8], at: usize) -> (r: bool)
    requires
        at + needle@.len() <= haystack@.len(),
    ensures
        r == (haystack@.subrange(at as int, at + needle@.len()) == needle@),
{
    let n = needle.len();
    let h = haystack.len();
    let mut j: usize = 0;
    while j < n
        invariant
            n == needle@.len(),
            at + n <= haystack@.len(),
            h == haystack@.len(),
            j <= n,
            forall|k: int| 0 <= k < j ==> haystack@[at + k] == needle@[k],
        decreases n - j,
    {
        if haystack[at + j] != needle[j] {
            proof {
                assert(haystack@.subrange(at as int, at + needle@.len())[j as int]
                    == haystack@[at + j]);
            }
            return false;
        }
        j = j + 1;
    }
    proof {
        assert(haystack@.subrange(at as int, at + needle@.len()) =~= needle@);
    }
    true
}

/// Whether `needle` occurs anywhere in `haystack`.
fn contains_sub(haystack: &[u8], needle: &[u8]) -> (r: bool)
    ensures
        r == contains_bytes(haystack@, needle@),
{
    let h = haystack.len();
    let n = needle.len();
    if n > h {
        return false;
    }
    if n == 0 {
        proof {
            assert(haystack@.subrange(0, 0 + needle@.len() as int) =~= needle@);
        }
        return true;
    }
    let mut i: usize = 0;
    while i <= h - n
        invariant
            h == haystack@.len(),
            n == needle@.len(),
            1 <= n <= h,
            i <= h - n + 1,
            forall|j: int|
                0 <= j < i ==> #[trigger] haystack@.subrange(j, j + needle@.len()) != needle@,
        decreases h - n + 1 - i,
    {
        if match_at(haystack, needle, i) {
            return true;
        }
        i = i + 1;
    }
    false
}

/// A single client-identification value names a known browser engine.
pub open spec fn ua_is_browser(ua: Seq<char>) -> bool {
    ||| contains_bytes(vstd::utf8::encode_utf8(ua), "Firefox".spec_bytes())
    ||| contains_bytes(vstd::utf8::encode_utf8(ua), "Chrome".spec_bytes())
    ||| contains_bytes(vstd::utf8::encode_utf8(ua), "Chromium".spec_bytes())
    ||| contains_bytes(vstd::utf8::encode_utf8(ua), "Safari".spec_bytes())
}

/// A request is browser-style when any of its client-identification values
/// names a known browser engine; a request without the header is not.
pub open spec fn browser_request(ua_values: Seq<Seq<char>>) -> bool {
    exists|i: int| 0 <= i < ua_values.len() && ua_is_browser(ua_values[i])
}

/// Classifies the requester from its client-identification header values
/// (all values of the header; an empty vector stands for an absent header).
/// A best-effort substring check against known browser-engine tokens, not a
/// security boundary.
pub fn is_browser(ua_values: &Vec<String>) -> (r: bool)
    ensures
        r == browser_request(ua_values.deep_view()),
{
    let mut i: usize = 0;
    while i < ua_values.len()
        invariant
            i <= ua_values@.len(),
            forall|j: int|
                0 <= j < i ==> !ua_is_browser(ua_values.deep_view()[j]),
        decreases ua_values@.len() - i,
    {
        let ua = ua_values[i].as_str().as_bytes();
        if contains_sub(ua, "Firefox".as_bytes()) || contains_sub(ua, "Chrome".as_bytes())
            || contains_sub(ua, "Chromium".as_bytes()) || contains_sub(ua, "Safari".as_bytes()) {
            proof {
                assert(ua_values.deep_view()[i as int] == ua_values@[i as int]@);
                assert(ua_is_browser(ua_values.deep_view()[i as int]));
            }
            return true;
        }
        i = i + 1;
    }
    false
}

/// The syntax, if any, that the first line of the contents names, out of
/// syntect's fixed default syntax set; the value is the syntax's name.
pub uninterp spec fn first_line_syntax(contents: Seq<char>) -> Option<Seq<char>>;

/// Relies on syntect::parsing::SyntaxSet::find_syntax_by_first_line over
/// the fixed set loaded by SyntaxSet::load_defaults_newlines: which syntax
/// the first line matches depends on the contents alone, and the result
/// here is the found syntax's name.
#[verifier::external_body]
fn find_syntax_name(contents: &str) -> (r: Option<String>)
    ensures
        r.deep_view() == first_line_syntax(contents@),
{
    let ss = syntect::parsing::SyntaxSet::load_defaults_newlines();
    match ss.find_syntax_by_first_line(contents) {
        Some(syntax) => Some(syntax.name.clone()),
        None => None,
    }
}

/// The self-contained highlighted HTML for the contents under the named
/// syntax of syntect's default set and its fixed light theme, or nothing
/// when the name is unknown or rendering fails internally.
pub uninterp spec fn highlighted_html(contents: Seq<char>, syntax_name: Seq<char>) -> Option<
    Seq<char>,
>;

/// Relies on syntect::html::highlighted_html_for_string over the default
/// syntax set, the syntax found by SyntaxSet::find_syntax_by_name, and the
/// "InspiredGitHub" theme that ThemeSet::load_defaults documents it always
/// holds: the rendered HTML depends on the contents and the syntax name
/// alone; an unknown name or an internal rendering error yields nothing.
#[verifier::external_body]
fn render_highlighted(contents: &str, syntax_name: &str) -> (r: Option<String>)
    ensures
        r.deep_view() == highlighted_html(contents@, syntax_name@),
{
    let ss = syntect::parsing::SyntaxSet::load_defaults_newlines();
    let syntax = match ss.find_syntax_by_name(syntax_name) {
        Some(s) => s,
        None => return None,
    };
    let ts = syntect::highlighting::ThemeSet::load_defaults();
    let theme = &ts.themes["InspiredGitHub"];
    match syntect::html::highlighted_html_for_string(contents, &ss, syntax, theme) {
        Ok(h) => Some(h),
        Err(_) => None,
    }
}

/// What highlighting yields for given contents: the rendered HTML when the
/// first line names a known syntax and rendering succeeds, nothing
/// otherwise.
pub open spec fn spec_highlight(contents: Seq<char>) -> Option<Seq<char>> {
    match first_line_syntax(contents) {
        Option::Some(name) => highlighted_html(contents, name),
        Option::None => Option::None,
    }
}

/// Attempts to highlight the contents: detects a syntax from the first
/// line, then renders; yields nothing when no syntax is detected or the
/// rendering fails, so the caller can fall back to plain text.
pub fn highlight(contents: &str) -> (r: Option<String>)
    ensures
        r.deep_view() == spec_highlight(contents@),
{
    match find_syntax_name(contents) {
        Option::Some(name) => render_highlighted(contents, name.as_str()),
        Option::None => Option::None,
    }
}

/// The status of a response, a transport-independent stand-in for the HTTP
/// status codes the service answers with.
#[derive(Clone, Copy, Debug, PartialEq, Eq, Structural)]
pub enum Status {
    /// 200: a successful read.
    Success,
    /// 201: a successful write; the body carries the retrieval URL.
    Created,
    /// 404: the identifier was never written.
    NotFound,
    /// 413: the submitted body exceeds the size ceiling.
    PayloadTooLarge,
    /// 500: a storage fault, reported generically.
    InternalError,
}

/// The representation a response body is delivered as.
#[derive(Clone, Copy, Debug, PartialEq, Eq, Structural)]
pub enum ContentType {
    PlainText,
    Html,
}

/// A response of the service, free of any transport type: a status, the
/// body's content type, and the body itself.
#[derive(Clone, Debug)]
pub struct HttpResponse {
    pub status: Status,
    pub content_type: ContentType,
    pub body: String,
}

/// How a successfully fetched paste is represented for a requester: a
/// browser gets highlighted HTML when highlighting succeeds and the
/// verbatim contents as plain text otherwise; everyone else always gets the
/// verbatim contents as plain text.
pub open spec fn rendered_response(browser: bool, contents: Seq<char>, resp: HttpResponse) -> bool {
    &&& resp.status == Status::Success
    &&& if browser {
        match spec_highlight(contents) {
            Option::Some(h) => resp.content_type == ContentType::Html && resp.body@ == h,
            Option::None => resp.content_type == ContentType::PlainText && resp.body@ == contents,
        }
    } else {
        resp.content_type == ContentType::PlainText && resp.body@ == contents
    }
}

/// Builds the response to a successful read: highlighted HTML for a
/// browser-style request when a syntax is detected and rendering succeeds,
/// the verbatim contents as plain text in every other case. A highlighting
/// failure degrades gracefully and is never surfaced as an error.
pub fn respond_get(ua_values: &Vec<String>, contents: &str) -> (resp: HttpResponse)
    ensures
        rendered_response(browser_request(ua_values.deep_view()), contents@, resp),
{
    if is_browser(ua_values) {
        match highlight(contents) {
            Option::Some(h) => HttpResponse {
                status: Status::Success,
                content_type: ContentType::Html,
                body: h,
            },
            Option::None => HttpResponse {
                status: Status::Success,
                content_type: ContentType::PlainText,
                body: contents.to_owned(),
            },
        }
    } else {
        HttpResponse {
            status: Status::Success,
            content_type: ContentType::PlainText,
            body: contents.to_owned(),
        }
    }
}

/// Fallback law: contents in which no syntax is detected are delivered
/// verbatim as plain text, even to a browser-style request.
pub proof fn lemma_plain_fallback(browser: bool, contents: Seq<char>, resp: HttpResponse)
    requires
        first_line_syntax(contents) is None,
        rendered_response(browser, contents, resp),
    ensures
        resp.content_type == ContentType::PlainText,
        resp.body@ == contents,
{
}

/// Round-trip law for the read path: what a non-browser requester reads is
/// the stored contents, character for character.
pub proof fn lemma_plain_read_exact(contents: Seq<char>, resp: HttpResponse)
    requires
        rendered_response(false, contents, resp),
    ensures
        resp.body@ == contents,
{
}

} // verus!
