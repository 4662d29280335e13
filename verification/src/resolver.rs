//! Turning a query into track metadata. The query is normalized here (a
//! URL or path passes through, free text gets the resolver's search-scope
//! prefix), the embedding program runs the external resolver with it, and
//! its stdout comes back here to be parsed: a single structured record
//! yields a `Metadata`, anything else is a resolution failure.

use vstd::prelude::*;
use vstd::string::{StrSliceExecFns, StringExecFns};
use crate::errors::ResolveError;
use crate::metadata::Metadata;

verus! {

/// Whether the string holds a path separator, which marks it as a URL or
/// path rather than free-text search terms.
pub open spec fn has_slash(s: Seq<char>) -> bool {
    exists|i: int| 0 <= i < s.len() && s[i] == '/'
}

fn contains_slash(s: &String) -> (r: bool)
    ensures
        r == has_slash(s@),
{
    let n = s.as_str().unicode_len();
    let mut i: usize = 0;
    while i < n
        invariant
            n == s@.len(),
            i <= n,
            forall|j: int| 0 <= j < i ==> s@[j] != '/',
        decreases n - i,
    {
        if s.as_str().get_char(i) == '/' {
            proof {
                assert(s@[i as int] == '/');
            }
            return true;
        }
        i = i + 1;
    }
    false
}

/// The query as the resolver is invoked with it: one that looks like a URL
/// or path (it holds a path separator) passes through unchanged; anything
/// else is treated as free-text search and prefixed with the resolver's
/// search-scope marker.
pub fn normalize_query(query: &String) -> (r: String)
    ensures
        has_slash(query@) ==> r@ == query@,
        !has_slash(query@) ==> r@ == "ytsearch:"@ + query@,
{
    if contains_slash(query) {
        query.clone()
    } else {
        let mut prefixed = "ytsearch:".to_owned();
        prefixed.append(query.as_str());
        prefixed
    }
}

/// `serde_json::Value`, the opaque carrier of the resolver's parsed output.
#[verifier::external_type_specification]
#[verifier::external_body]
pub struct ExJsonValue(serde_json::Value);

/// Whether a parsed value is a single structured record (a JSON object).
pub uninterp spec fn json_is_record(v: serde_json::Value) -> bool;

/// The string a record holds at a key, when the key is there and holds one.
pub uninterp spec fn json_str_field(v: serde_json::Value, key: Seq<char>) -> Option<Seq<char>>;

/// The unsigned number a record holds at a key, when the key is there and
/// holds one that fits.
pub uninterp spec fn json_u32_field(v: serde_json::Value, key: Seq<char>) -> Option<u32>;

/// Whether the resolver's stdout is a valid JSON document — a function of
/// the bytes alone.
pub uninterp spec fn stdout_parses(bytes: Seq<u8>) -> bool;

/// Whether the resolver's stdout is a single structured record (a JSON
/// object) — a function of the bytes alone.
pub uninterp spec fn stdout_is_record(bytes: Seq<u8>) -> bool;

/// The string field the resolver's stdout holds at a key — a function of the
/// bytes and the key alone.
pub uninterp spec fn stdout_str_field(bytes: Seq<u8>, key: Seq<char>) -> Option<Seq<char>>;

/// The unsigned numeric field the resolver's stdout holds at a key — a
/// function of the bytes and the key alone.
pub uninterp spec fn stdout_u32_field(bytes: Seq<u8>, key: Seq<char>) -> Option<u32>;

/// Relies on serde_json::from_slice: bytes parse into a JSON value exactly
/// when they are a valid JSON document, and the value parsed from given
/// bytes — hence everything read from it — depends on the bytes alone.
#[verifier::external_body]
fn parse_json(bytes: &[u8]) -> (r: Option<serde_json::Value>)
    ensures
        r is Some <==> stdout_parses(bytes@),
        r matches Some(v) ==> json_is_record(v) == stdout_is_record(bytes@),
        r matches Some(v) ==> forall|k: Seq<char>| (#[trigger] json_str_field(v, k))
            == stdout_str_field(bytes@, k),
        r matches Some(v) ==> forall|k: Seq<char>| (#[trigger] json_u32_field(v, k))
            == stdout_u32_field(bytes@, k),
{
    serde_json::from_slice::<serde_json::Value>(bytes).ok()
}

/// Relies on serde_json::Value::is_object: whether the parsed value is a
/// single structured record.
#[verifier::external_body]
fn is_record(v: &serde_json::Value) -> (r: bool)
    ensures
        r == json_is_record(*v),
{
    v.is_object()
}

/// Relies on serde_json::Value::get and Value::as_str: the string field of
/// the record at this key, a function of the value and the key alone.
#[verifier::external_body]
fn string_field(v: &serde_json::Value, key: &str) -> (r: Option<String>)
    ensures
        r is Some <==> json_str_field(*v, key@) is Some,
        r matches Some(s) ==> json_str_field(*v, key@) == Some(s@),
{
    v.get(key).and_then(|f| f.as_str()).map(|s| s.to_string())
}

/// Relies on serde_json::Value::get and Value::as_u64: the unsigned numeric
/// field of the record at this key, a function of the value and the key
/// alone; a number that does not fit counts as absent.
#[verifier::external_body]
fn u32_field(v: &serde_json::Value, key: &str) -> (r: Option<u32>)
    ensures
        r == json_u32_field(*v, key@),
{
    v.get(key).and_then(|f| f.as_u64()).and_then(|n| u32::try_from(n).ok())
}

/// An optional string, as the contracts compare it.
pub open spec fn opt_view(o: Option<String>) -> Option<Seq<char>> {
    match o {
        Some(s) => Some(s@),
        None => None,
    }
}

/// The metadata a parsed resolver record denotes, read field by field; a
/// field the record lacks (or holds with another type) is absent.
pub fn metadata_from_json(v: &serde_json::Value) -> (m: Metadata)
    ensures
        opt_view(m.title) == json_str_field(*v, "title"@),
        opt_view(m.uploader) == json_str_field(*v, "uploader"@),
        opt_view(m.track) == json_str_field(*v, "track"@),
        opt_view(m.artist) == json_str_field(*v, "artist"@),
        m.duration == json_u32_field(*v, "duration"@),
        opt_view(m.thumbnail) == json_str_field(*v, "thumbnail"@),
        opt_view(m.webpage_url) == json_str_field(*v, "webpage_url"@),
        opt_view(m.url) == json_str_field(*v, "url"@),
{
    Metadata {
        title: string_field(v, "title"),
        uploader: string_field(v, "uploader"),
        track: string_field(v, "track"),
        artist: string_field(v, "artist"),
        duration: u32_field(v, "duration"),
        thumbnail: string_field(v, "thumbnail"),
        webpage_url: string_field(v, "webpage_url"),
        url: string_field(v, "url"),
    }
}

/// Parse the resolver's stdout. It succeeds exactly when the bytes are one
/// structured record, and then every metadata field is the record's field of
/// the same name; anything else is a resolution failure.
pub fn parse_metadata(bytes: &[u8]) -> (r: Result<Metadata, ResolveError>)
    ensures
        r is Ok <==> stdout_parses(bytes@) && stdout_is_record(bytes@),
        r matches Err(e) ==> e == ResolveError::Resolution,
        r matches Ok(m) ==> ({
            &&& opt_view(m.title) == stdout_str_field(bytes@, "title"@)
            &&& opt_view(m.uploader) == stdout_str_field(bytes@, "uploader"@)
            &&& opt_view(m.track) == stdout_str_field(bytes@, "track"@)
            &&& opt_view(m.artist) == stdout_str_field(bytes@, "artist"@)
            &&& m.duration == stdout_u32_field(bytes@, "duration"@)
            &&& opt_view(m.thumbnail) == stdout_str_field(bytes@, "thumbnail"@)
            &&& opt_view(m.webpage_url) == stdout_str_field(bytes@, "webpage_url"@)
            &&& opt_view(m.url) == stdout_str_field(bytes@, "url"@)
        }),
{
    let v = match parse_json(bytes) {
        Some(v) => v,
        None => {
            return Err(ResolveError::Resolution);
        },
    };
    if !is_record(&v) {
        return Err(ResolveError::Resolution);
    }
    Ok(metadata_from_json(&v))
}

} // verus!
