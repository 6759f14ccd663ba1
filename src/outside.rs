//! Calls into std and outside crates whose behaviour the rest of the
//! library takes on trust. Each item names the function it relies on.

use vstd::prelude::*;
use std::collections::hash_map::DefaultHasher;
use std::hash::{BuildHasher, BuildHasherDefault};
use crate::types::Timestamp;
use std::collections::HashMap;

verus! {

/// Whether `c` is alphabetic or numeric in the Unicode sense.
pub uninterp spec fn alphanumeric_char(c: char) -> bool;

/// Whether `c` has the Unicode `Uppercase` property.
pub uninterp spec fn uppercase_char(c: char) -> bool;

/// Whether `c` has the Unicode `Lowercase` property.
pub uninterp spec fn lowercase_char(c: char) -> bool;

/// Whether `c` is numeric in the Unicode sense (general categories Nd, Nl, No).
pub uninterp spec fn numeric_char(c: char) -> bool;

pub open spec fn ascii_upper(c: char) -> bool {
    'A' <= c && c <= 'Z'
}

pub open spec fn ascii_lower(c: char) -> bool {
    'a' <= c && c <= 'z'
}

pub open spec fn ascii_digit(c: char) -> bool {
    '0' <= c && c <= '9'
}

pub open spec fn is_ascii_char(c: char) -> bool {
    (c as u32) < 128
}

/// Relies on `char::is_alphanumeric`; on ASCII it holds of letters and digits only.
#[verifier::external_body]
pub(crate) fn is_alphanumeric(c: char) -> (r: bool)
    ensures
        r == alphanumeric_char(c),
        is_ascii_char(c) ==> (r <==> (ascii_upper(c) || ascii_lower(c) || ascii_digit(c))),
{
    c.is_alphanumeric()
}

/// Relies on `char::is_uppercase`; on ASCII it holds of `A` to `Z` only.
#[verifier::external_body]
pub(crate) fn is_uppercase(c: char) -> (r: bool)
    ensures
        r == uppercase_char(c),
        is_ascii_char(c) ==> (r <==> ascii_upper(c)),
{
    c.is_uppercase()
}

/// Relies on `char::is_lowercase`; on ASCII it holds of `a` to `z` only.
#[verifier::external_body]
pub(crate) fn is_lowercase(c: char) -> (r: bool)
    ensures
        r == lowercase_char(c),
        is_ascii_char(c) ==> (r <==> ascii_lower(c)),
{
    c.is_lowercase()
}

/// Relies on `char::is_numeric`; on ASCII it holds of `0` to `9` only.
#[verifier::external_body]
pub(crate) fn is_numeric(c: char) -> (r: bool)
    ensures
        r == numeric_char(c),
        is_ascii_char(c) ==> (r <==> ascii_digit(c)),
{
    c.is_numeric()
}

/// Relies on `String::push`: appends one character.
#[verifier::external_body]
pub(crate) fn push_char(s: &mut String, c: char)
    ensures
        final(s)@ == old(s)@.push(c),
{
    s.push(c)
}

/// The MIME type that `mime_guess` gives a path by its extension.
pub uninterp spec fn guessed_mime(path: Seq<char>) -> Seq<char>;

/// Relies on `mime_guess::from_path(..).first_or_octet_stream()`: the first
/// MIME type known for the path's extension, or `application/octet-stream`.
#[verifier::external_body]
pub(crate) fn mime_for_path(path: &str) -> (r: String)
    ensures
        r@ == guessed_mime(path@),
{
    mime_guess::from_path(path).first_or_octet_stream().to_string()
}

/// The 64-bit digest that std's `DefaultHasher`, as made by `new`, gives a
/// byte slice.
pub uninterp spec fn content_hash(b: Seq<u8>) -> u64;

/// Relies on `BuildHasher::hash_one` with std's `DefaultHasher` as made by
/// `new`: every such hasher hashes equal input to the same value.
#[verifier::external_body]
pub(crate) fn hash_bytes(b: &[u8]) -> (r: u64)
    ensures
        r == content_hash(b@),
{
    BuildHasherDefault::<DefaultHasher>::default().hash_one(b)
}

/// A character of a UUID in its lower-case text forms.
pub open spec fn uuid_text_char(c: char) -> bool {
    ascii_digit(c) || ('a' <= c && c <= 'f') || c == '-'
}

/// Relies on `uuid::Uuid::new_v4` and its `Display`, which writes the
/// hyphenated lower-case form: 36 characters, hex digits and hyphens.
#[verifier::external_body]
pub(crate) fn new_uuid() -> (r: String)
    ensures
        r@.len() == 36,
        forall|i: int| 0 <= i < r@.len() ==> uuid_text_char(#[trigger] r@[i]),
{
    uuid::Uuid::new_v4().to_string()
}

/// Relies on `uuid::Uuid::new_v4` and `Uuid::simple`: 32 lower-case hex
/// digits.
#[verifier::external_body]
pub(crate) fn new_uuid_simple() -> (r: String)
    ensures
        r@.len() == 32,
        forall|i: int| 0 <= i < r@.len() ==> uuid_text_char(#[trigger] r@[i]) && r@[i] != '-',
{
    uuid::Uuid::new_v4().simple().to_string()
}

/// Relies on `chrono::Utc::now`: the current time as seconds and
/// nanoseconds since the Unix epoch.
#[verifier::external_body]
pub(crate) fn now_utc() -> (r: Timestamp) {
    let t = chrono::Utc::now();
    Timestamp { secs: t.timestamp(), nanos: t.timestamp_subsec_nanos() }
}

/// An arbitrary JSON value, carried through unexamined.
#[verifier::external_type_specification]
#[verifier::external_body]
pub struct ExJsonValue(serde_json::Value);

/// Relies on `HashMap::iter`: each entry of the map once, in an order that
/// the map does not fix.
#[verifier::external_body]
pub(crate) fn map_entries(m: &HashMap<String, String>) -> (r: Vec<(String, String)>)
    ensures
        forall|i: int|
            #![trigger r@[i]]
            0 <= i < r@.len() ==> exists|k: String|
                #[trigger] m@.contains_key(k) && k@ == r@[i].0@ && m@[k]@ == r@[i].1@,
        forall|k: String|
            #[trigger] m@.contains_key(k) ==> exists|i: int|
                0 <= i < r@.len() && #[trigger] r@[i].0@ == k@,
{
    m.iter().map(|(k, v)| (k.clone(), v.clone())).collect()
}

/// The SHA-256 digest of a byte sequence.
pub uninterp spec fn sha256_of(b: Seq<u8>) -> Seq<u8>;

/// Relies on `sha2::Sha256::digest`: the 32-byte SHA-256 digest of `b`.
#[verifier::external_body]
pub(crate) fn sha256(b: &[u8]) -> (r: Vec<u8>)
    ensures
        r@ == sha256_of(b@),
        r@.len() == 32,
{
    <sha2::Sha256 as sha2::Digest>::digest(b).to_vec()
}

/// The lower-case form of a string under Unicode case mapping.
pub uninterp spec fn lower_of(s: Seq<char>) -> Seq<char>;

/// Relies on `str::to_lowercase`: the result depends on the characters
/// alone.
#[verifier::external_body]
pub(crate) fn to_lowercase(s: &str) -> (r: String)
    ensures
        r@ == lower_of(s@),
{
    s.to_lowercase()
}

} // verus!
