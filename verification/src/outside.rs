//! Calls into outside crates: the clock, RFC 3339 dates, random identifiers
//! and numbers, SHA-256, bcrypt and JSON pointer lookups. Verus takes the
//! contracts stated here on trust.

use vstd::prelude::*;
use sha2::{Digest, Sha256};
use rand::Rng;
use crate::jobs::opt_chars;

verus! {

/// An instant as chrono orders it: whole Unix seconds and the nanoseconds
/// past them (more than a second's worth only inside a leap second).
#[derive(Debug, Clone, Copy, PartialEq, Eq, Structural)]
pub struct UtcInstant {
    pub secs: i64,
    pub nanos: u32,
}

/// `a` comes strictly before `b`.
pub open spec fn instant_before(a: UtcInstant, b: UtcInstant) -> bool {
    a.secs < b.secs || (a.secs == b.secs && a.nanos < b.nanos)
}

/// Whether `a` comes strictly before `b`.
pub fn is_before(a: UtcInstant, b: UtcInstant) -> (r: bool)
    ensures
        r == instant_before(a, b),
{
    a.secs < b.secs || (a.secs == b.secs && a.nanos < b.nanos)
}

/// `serde_json::Value`, carried through as it is: Verus sees nothing inside it.
#[verifier::external_type_specification]
#[verifier::external_body]
pub struct ExJsonValue(serde_json::Value);

/// What a JSON pointer reached: an array of some length, or another value.
#[derive(Debug, Clone, Copy, PartialEq, Eq, Structural)]
pub enum PointerHit {
    Array(usize),
    NotArray,
}

/// What `serde_json::Value::pointer` finds in `value` at `pointer`: `None`
/// when nothing is there, else whether it is an array and, if so, its length.
/// The lookup depends on the value and the pointer alone.
pub uninterp spec fn json_pointer(value: serde_json::Value, pointer: Seq<char>) -> Option<PointerHit>;

/// `serde_json::Value::pointer`, reduced to what a Parallel node reads of the
/// result (see `json_pointer`). Nothing more is stated of the lookup: it
/// walks a JSON value that Verus cannot see.
#[verifier::external_body]
pub(crate) fn json_pointer_hit(value: &serde_json::Value, pointer: &str) -> (r: Option<PointerHit>)
    ensures
        r == json_pointer(*value, pointer@),
{
    match value.pointer(pointer) {
        Some(serde_json::Value::Array(a)) => Some(PointerHit::Array(a.len())),
        Some(_) => Some(PointerHit::NotArray),
        None => None,
    }
}

/// A member of a JSON object, as far as approver rules read it: a string, an
/// array (each item a string or not), or any other value.
#[derive(Debug, Clone)]
pub enum JsonMember {
    Text(String),
    List(Vec<Option<String>>),
    Other,
}

/// A `JsonMember` as plain text values.
pub enum JsonMemberView {
    Text(Seq<char>),
    List(Seq<Option<Seq<char>>>),
    Other,
}

pub open spec fn member_view(m: JsonMember) -> JsonMemberView {
    match m {
        JsonMember::Text(s) => JsonMemberView::Text(s@),
        JsonMember::List(items) => JsonMemberView::List(items@.map_values(|o: Option<String>| opt_chars(o))),
        JsonMember::Other => JsonMemberView::Other,
    }
}

/// What `serde_json::Value::get` finds under key `name` of `value` (`None`
/// when `value` is no object or has no such key), read as a `JsonMember`.
pub uninterp spec fn json_get(value: serde_json::Value, name: Seq<char>) -> Option<JsonMemberView>;

/// `serde_json::Value::get` with a key, and the member found read as a
/// `JsonMember` (each array item through `Value::as_str`).
#[verifier::external_body]
pub(crate) fn json_member(value: &serde_json::Value, name: &str) -> (r: Option<JsonMember>)
    ensures
        json_get(*value, name@) == match r {
            Some(m) => Some(member_view(m)),
            None => None::<JsonMemberView>,
        },
{
    match value.get(name) {
        Some(serde_json::Value::String(s)) => Some(JsonMember::Text(s.clone())),
        Some(serde_json::Value::Array(a)) => Some(JsonMember::List(a.iter().map(|x| x.as_str().map(|t| t.to_string())).collect())),
        Some(_) => Some(JsonMember::Other),
        None => None,
    }
}

/// `chrono::Utc::now()`, as its `timestamp()` and `timestamp_subsec_nanos()`.
/// Which time comes back depends on the clock. `Utc::now` panics on a system
/// time before the Unix epoch and on one past chrono's last date (the end of
/// year 262142, about 8.2 * 10^12 s), and the system clock gives less than a
/// second of nanoseconds, so the seconds are never negative and below 10^13
/// and the nanoseconds below 10^9.
#[verifier::external_body]
pub(crate) fn now_utc() -> (t: UtcInstant)
    ensures
        0 <= t.secs < 10_000_000_000_000,
        t.nanos < 1_000_000_000,
{
    let t = chrono::Utc::now();
    UtcInstant { secs: t.timestamp(), nanos: t.timestamp_subsec_nanos() }
}

/// The current time in whole Unix seconds.
pub fn now_unix_seconds() -> (t: i64)
    ensures
        0 <= t < 10_000_000_000_000,
{
    now_utc().secs
}

/// What `chrono::DateTime::parse_from_rfc3339` makes of a text: the instant
/// (Unix seconds and the nanoseconds past them) and the instant written back
/// by `to_rfc3339`, or `None` when the text is not an RFC 3339 date-time.
pub uninterp spec fn rfc3339_parse(text: Seq<char>) -> Option<(i64, u32, Seq<char>)>;

/// `chrono::DateTime::parse_from_rfc3339(text)`, converted to its
/// `timestamp()`, `timestamp_subsec_nanos()` and `to_rfc3339()`.
#[verifier::external_body]
pub(crate) fn parse_rfc3339(text: &str) -> (r: Option<(UtcInstant, String)>)
    ensures
        match r {
            Some((at, t)) => rfc3339_parse(text@) == Some((at.secs, at.nanos, t@)),
            None => rfc3339_parse(text@) is None,
        },
{
    match chrono::DateTime::parse_from_rfc3339(text) {
        Ok(t) => Some((UtcInstant { secs: t.timestamp(), nanos: t.timestamp_subsec_nanos() }, t.to_rfc3339())),
        Err(_) => None,
    }
}

/// Whether a password matches a bcrypt hash, as `bcrypt::verify` decides it;
/// `None` when the hash is not a well-formed bcrypt hash.
pub uninterp spec fn bcrypt_check(password: Seq<char>, hash: Seq<char>) -> Option<bool>;

/// `bcrypt::verify(password, hash)`. It recomputes the hash with the cost and
/// salt read from `hash` and compares; a hash that is not 60 ASCII bytes is
/// refused before anything else.
#[verifier::external_body]
pub(crate) fn bcrypt_verify(password: &str, hash: &str) -> (r: Result<bool, String>)
    ensures
        match r {
            Ok(b) => bcrypt_check(password@, hash@) == Some(b),
            Err(_) => bcrypt_check(password@, hash@) is None,
        },
        hash@.len() != 60 ==> r is Err,
{
    match bcrypt::verify(password, hash) {
        Ok(b) => Ok(b),
        Err(e) => Err(e.to_string()),
    }
}

/// `bcrypt::hash(password, bcrypt::DEFAULT_COST)`: a salted hash with a salt
/// drawn from the OS, so which hash comes back is left unsaid. What does hold:
/// the hash is the 60-character `$2b$12$...` form, and `bcrypt::verify`
/// accepts the same password against it (both run the same cost, salt and
/// truncation to 72 bytes). It fails only when the OS gives no randomness.
#[verifier::external_body]
pub(crate) fn bcrypt_hash(password: &str) -> (r: Result<String, String>)
    ensures
        r matches Ok(h) ==> h@.len() == 60 && bcrypt_check(password@, h@) == Some(true),
{
    match bcrypt::hash(password, bcrypt::DEFAULT_COST) {
        Ok(h) => Ok(h),
        Err(e) => Err(e.to_string()),
    }
}

/// `uuid::Uuid::new_v4().to_string()`: a random version-4 UUID in its
/// hyphenated lowercase form, which is 36 characters long. Which UUID comes
/// back is left unsaid: it is random.
#[verifier::external_body]
pub(crate) fn new_uuid_v4() -> (s: String)
    ensures
        s@.len() == 36,
{
    uuid::Uuid::new_v4().to_string()
}

/// `rand::rng().random_range(0..bound)`: a random index below `bound`
/// (`random_range` panics on an empty range, hence `bound > 0`). Which index
/// comes back is left unsaid: it is random.
#[verifier::external_body]
pub(crate) fn random_index(bound: usize) -> (i: usize)
    requires
        bound > 0,
    ensures
        i < bound,
{
    rand::rng().random_range(0..bound)
}

/// The SHA-256 digest of a byte string.
pub uninterp spec fn sha256(data: Seq<u8>) -> Seq<u8>;

/// `sha2::Sha256::digest(data)`: the 32-byte SHA-256 digest of `data`.
#[verifier::external_body]
pub(crate) fn sha256_digest(data: &[u8]) -> (d: Vec<u8>)
    ensures
        d@ == sha256(data@),
        d@.len() == 32,
{
    Sha256::digest(data).to_vec()
}

} // verus!
