//! The request extractor: from the bytes of a request to its path and to the
//! destination that its query string asks for.

use crate::text::{bytes_of, find, find_bytes, lemma_find};
use vstd::prelude::*;
use vstd::slice::slice_to_vec;
use vstd::string::StringSliceAdditionalSpecFns;

verus! {

/// How many header lines a request may carry before it is refused.
pub const MAX_HEADERS: usize = 16;

/// What `httparse::Request::parse` makes of `buffer` when it is given room for
/// `max_headers` headers: nothing where it refuses the bytes; otherwise the
/// bytes of the path it found, if it got as far as a path. The parser reads
/// nothing but the buffer, so the same bytes always give the same path.
pub uninterp spec fn request_path(buffer: Seq<u8>, max_headers: usize) -> Option<Option<Seq<u8>>>;

/// Runs `httparse::Request::parse` on `buffer`, with a fresh request that has
/// room for `max_headers` headers, and hands out the `path` field of the
/// request as bytes; an error of the parser gives `None`. This is taken on
/// trust, and nothing is claimed of the outcome but that it is the one named
/// by `request_path`: what the parser accepts is not stated here.
#[verifier::external_body]
fn parse_path(buffer: &[u8], max_headers: usize) -> (parsed: Option<Option<Vec<u8>>>)
    ensures
        (match parsed {
            Some(path) => Some(bytes_of(path)),
            None => None,
        }) == request_path(buffer@, max_headers),
{
    let mut headers = vec![httparse::EMPTY_HEADER; max_headers];
    let mut request = httparse::Request::new(&mut headers);
    match request.parse(buffer) {
        Ok(_) => match request.path {
            Some(path) => Some(Some(path.as_bytes().to_vec())),
            None => Some(None),
        },
        Err(_) => None,
    }
}

/// The path of a request that names none.
pub open spec fn root_path() -> Seq<u8> {
    "/".spec_bytes()
}

/// What opens the query string of a path.
pub open spec fn query_mark() -> Seq<u8> {
    "?".spec_bytes()
}

/// What opens the destination in a query string.
pub open spec fn travel_to_key() -> Seq<u8> {
    "travel_to=".spec_bytes()
}

/// What follows the first occurrence of `mark` in `text`.
pub open spec fn after_first(text: Seq<u8>, mark: Seq<u8>) -> Option<Seq<u8>> {
    match find(text, mark) {
        Some(at) => Some(text.subrange(at + mark.len(), text.len() as int)),
        None => None,
    }
}

/// The query string of `path`: all that follows its first `?`.
pub open spec fn query_of(path: Seq<u8>) -> Option<Seq<u8>> {
    after_first(path, query_mark())
}

/// The destination that `path` asks for: all that follows the first
/// `travel_to=` of its query string.
pub open spec fn travel_to_of(path: Seq<u8>) -> Option<Seq<u8>> {
    match query_of(path) {
        Some(query) => after_first(query, travel_to_key()),
        None => None,
    }
}

/// The path that the bytes of a request stand for, unless they are refused.
pub open spec fn path_of(buffer: Seq<u8>) -> Option<Seq<u8>> {
    match request_path(buffer, MAX_HEADERS) {
        Some(Some(path)) => Some(path),
        Some(None) => Some(root_path()),
        None => None,
    }
}

/// A request as far as this service reads it.
pub struct ParsedRequest {
    /// The path, query string included.
    pub path: Vec<u8>,
    /// The destination asked for, if the query string names one.
    pub travel_to: Option<Vec<u8>>,
}

impl ParsedRequest {
    /// The request that `path` alone determines.
    pub open spec fn reads(self, path: Seq<u8>) -> bool {
        &&& self.path@ == path
        &&& bytes_of(self.travel_to) == travel_to_of(path)
    }
}

/// What follows the first occurrence of `mark` in `text`.
pub fn split_after<'a>(text: &'a [u8], mark: &[u8]) -> (rest: Option<&'a [u8]>)
    ensures
        rest is Some == after_first(text@, mark@) is Some,
        rest matches Some(tail) ==> after_first(text@, mark@) == Some(tail@),
{
    match find_bytes(text, mark) {
        Some(at) => {
            proof {
                lemma_find(text@, mark@);
            }
            let end = text.len();
            let rest = &text[at + mark.len()..end];
            Some(rest)
        },
        None => None,
    }
}

/// The destination that `path` asks for.
pub fn travel_to_value(path: &[u8]) -> (value: Option<Vec<u8>>)
    ensures
        bytes_of(value) == travel_to_of(path@),
{
    match split_after(path, "?".as_bytes()) {
        Some(query) => match split_after(query, "travel_to=".as_bytes()) {
            Some(value) => Some(slice_to_vec(value)),
            None => None,
        },
        None => None,
    }
}

/// Reads a request: `None` where the bytes are refused.
pub fn extract(buffer: &[u8]) -> (request: Option<ParsedRequest>)
    ensures
        request is Some == path_of(buffer@) is Some,
        request matches Some(parsed) ==> parsed.reads(path_of(buffer@)->0),
{
    match parse_path(buffer, MAX_HEADERS) {
        Some(found) => {
            let path = match found {
                Some(path) => path,
                None => slice_to_vec("/".as_bytes()),
            };
            let travel_to = travel_to_value(path.as_slice());
            Some(ParsedRequest { path, travel_to })
        },
        None => None,
    }
}

} // verus!
