//! Request handling: size enforcement and storage for a write, fetch and
//! rendering for a read, and the static help text for the home path.

use vstd::prelude::*;
use vstd::string::StringSliceAdditionalSpecFns;
use crate::id::{gen_id, valid_id};
use crate::render::{
    browser_request, rendered_response, respond_get, ContentType, HttpResponse, Status,
};
use crate::store::{PasteError, Store};

verus! {

/// The size ceiling on a paste's contents, in bytes: one mebibyte.
pub const MAX_PASTE_SIZE: usize = 1048576;

/// How many fresh identifiers a write draws before giving a collision up as
/// a failure: a small fixed bound, made explicit.
pub const INSERT_ATTEMPTS: usize = 3;

/// Validates and stores a submission: contents over the size ceiling are
/// rejected before any store mutation; otherwise fresh identifiers are
/// drawn until an insert succeeds, a collision being retried at most
/// `INSERT_ATTEMPTS` times in all. Success returns the identifier the
/// contents are now stored under.
pub fn store_paste(store: &mut Store, contents: &str) -> (r: Result<String, PasteError>)
    ensures
        r matches Ok(id) ==> valid_id(id@) && !old(store)@.contains_key(id@)
            && final(store)@ == old(store)@.insert(id@, contents@)
            && contents.spec_bytes().len() <= MAX_PASTE_SIZE,
        r is Err ==> final(store)@ == old(store)@,
        contents.spec_bytes().len() > MAX_PASTE_SIZE ==> (r matches Err(e)
            && e == PasteError::Validation),
        r matches Err(e) ==> (e == PasteError::Validation
            ==> contents.spec_bytes().len() > MAX_PASTE_SIZE),
{
    let size = contents.as_bytes().len();
    if size > MAX_PASTE_SIZE {
        return Err(PasteError::Validation);
    }
    let mut attempts: usize = 0;
    while attempts < INSERT_ATTEMPTS
        invariant
            store@ == old(store)@,
            contents.spec_bytes().len() <= MAX_PASTE_SIZE,
        decreases INSERT_ATTEMPTS - attempts,
    {
        let id = gen_id();
        match store.insert(id.as_str(), contents) {
            Ok(_) => {
                return Ok(id);
            },
            Err(e) => {
                if e == PasteError::IoFailure {
                    return Err(e);
                }
            },
        }
        attempts = attempts + 1;
    }
    Err(PasteError::UniqueViolation)
}

/// The absolute retrieval URL a successful write answers with.
pub open spec fn paste_url(id: Seq<char>) -> Seq<char> {
    "https://pastes.dxuuu.xyz/"@ + id + "\n"@
}

/// Builds the retrieval URL for an identifier.
fn build_url(id: &str) -> (r: String)
    ensures
        r@ == paste_url(id@),
{
    let mut url = String::from_str("https://pastes.dxuuu.xyz/");
    url.append(id);
    url.append("\n");
    url
}

/// Handles a write request whose body has been read in full. A body over
/// the size ceiling is answered "payload too large" with no store mutation;
/// an accepted body is stored verbatim under a fresh identifier and
/// answered "created", the response body being the paste's absolute
/// retrieval URL; a storage fault or an exhausted collision retry is
/// answered as a generic internal error, again with the store as it was.
pub fn handle_post(store: &mut Store, body: &str) -> (resp: HttpResponse)
    ensures
        resp.status == Status::Created || resp.status == Status::PayloadTooLarge
            || resp.status == Status::InternalError,
        resp.status == Status::PayloadTooLarge <==> body.spec_bytes().len() > MAX_PASTE_SIZE,
        resp.status != Status::Created ==> final(store)@ == old(store)@,
        resp.status == Status::Created ==> exists|id: Seq<char>|
            valid_id(id) && !old(store)@.contains_key(id)
                && final(store)@ == #[trigger] old(store)@.insert(id, body@)
                && resp.body@ == paste_url(id),
{
    match store_paste(store, body) {
        Ok(id) => {
            let url = build_url(id.as_str());
            HttpResponse {
                status: Status::Created,
                content_type: ContentType::PlainText,
                body: url,
            }
        },
        Err(e) => {
            if e == PasteError::Validation {
                HttpResponse {
                    status: Status::PayloadTooLarge,
                    content_type: ContentType::PlainText,
                    body: String::new(),
                }
            } else {
                HttpResponse {
                    status: Status::InternalError,
                    content_type: ContentType::PlainText,
                    body: String::new(),
                }
            }
        },
    }
}

/// Handles a read request for `id`. An identifier that was never written is
/// answered "not found" — an explicit outcome, not an error and not empty
/// contents; a stored paste is answered with the rendered contents; a
/// storage fault is answered as a generic internal error.
pub fn handle_get(store: &Store, id: &str, ua_values: &Vec<String>) -> (resp: HttpResponse)
    ensures
        resp.status == Status::Success || resp.status == Status::NotFound
            || resp.status == Status::InternalError,
        resp.status == Status::NotFound ==> !store@.contains_key(id@),
        !store@.contains_key(id@) ==> resp.status == Status::NotFound
            || resp.status == Status::InternalError,
        resp.status == Status::Success ==> store@.contains_key(id@)
            && rendered_response(browser_request(ua_values.deep_view()), store@[id@], resp),
{
    match store.fetch(id) {
        Ok(contents) => match contents {
            Some(c) => respond_get(ua_values, c.as_str()),
            None => HttpResponse {
                status: Status::NotFound,
                content_type: ContentType::PlainText,
                body: String::new(),
            },
        },
        Err(_) => HttpResponse {
            status: Status::InternalError,
            content_type: ContentType::PlainText,
            body: String::new(),
        },
    }
}

/// The static help text served at the root path; no store interaction.
pub fn homepage_text() -> (r: String)
    ensures
        r@
            == "A minimal pastebin.\n\nStore a paste:   POST / with the text as the body (at most 1 MiB);\n                 the response body is the URL of the new paste.\nRead a paste:    GET /<id>; browsers get highlighted HTML when a\n                 syntax is detected, everyone else the plain text.\n"@,
{
    String::from_str(
        "A minimal pastebin.\n\nStore a paste:   POST / with the text as the body (at most 1 MiB);\n                 the response body is the URL of the new paste.\nRead a paste:    GET /<id>; browsers get highlighted HTML when a\n                 syntax is detected, everyone else the plain text.\n",
    )
}

} // verus!
