//! API keys: issuing a key ("wfk_" followed by 32 base-62 characters, stored
//! as its SHA-256 hex digest and an 8-character lookup prefix), checking a
//! presented key, and revoking one.

use vstd::prelude::*;
use vstd::string::*;
use crate::outside::{UtcInstant, instant_before, is_before, new_uuid_v4, now_utc, random_index, sha256, sha256_digest};
use crate::text::{hex_lower, hex_lower_string, push_str_chars, str_chars, string_from_chars};

verus! {

#[derive(Debug, Clone, Copy, PartialEq, Eq, Structural)]
pub enum ApiKeyStatus {
    Active,
    Revoked,
}

/// A stored API key. `role` is the tenant role's name; times are Unix seconds.
#[derive(Debug, Clone)]
pub struct ApiKeyEntity {
    pub id: String,
    pub tenant_id: String,
    pub name: String,
    pub key_prefix: String,
    pub key_hash: String,
    pub role: String,
    pub expires_at: Option<UtcInstant>,
    pub token_ttl_secs: u32,
    pub last_used_at: Option<UtcInstant>,
    pub status: ApiKeyStatus,
    pub created_by: String,
    pub created_at: UtcInstant,
    pub updated_at: UtcInstant,
}

pub open spec fn base62() -> Seq<char> {
    "0123456789ABCDEFGHIJKLMNOPQRSTUVWXYZabcdefghijklmnopqrstuvwxyz"@
}

/// Lowercase hex of the SHA-256 digest of the key's UTF-8 bytes.
pub open spec fn key_hash_of(full_key: &str) -> Seq<char> {
    hex_lower(sha256(full_key.spec_bytes()))
}

/// The first (up to) eight characters of a key.
pub open spec fn key_prefix_of(full_key: Seq<char>) -> Seq<char> {
    if full_key.len() <= 8 { full_key } else { full_key.take(8) }
}

/// 32 random base-62 characters.
pub fn generate_secret_tail() -> (s: String)
    ensures
        s@.len() == 32,
        forall|i: int| 0 <= i < 32 ==> base62().contains(#[trigger] s@[i]),
{
    let alphabet = str_chars("0123456789ABCDEFGHIJKLMNOPQRSTUVWXYZabcdefghijklmnopqrstuvwxyz");
    proof {
        reveal_strlit("0123456789ABCDEFGHIJKLMNOPQRSTUVWXYZabcdefghijklmnopqrstuvwxyz");
    }
    let mut v: Vec<char> = Vec::new();
    let mut k: usize = 0;
    while k < 32
        invariant
            alphabet@ == base62(),
            alphabet.len() == 62,
            k <= 32,
            v@.len() == k,
            forall|i: int| 0 <= i < k ==> base62().contains(#[trigger] v@[i]),
        decreases 32 - k,
    {
        let idx = random_index(alphabet.len());
        let c = alphabet[idx];
        v.push(c);
        assert(base62()[idx as int] == c);
        k = k + 1;
    }
    string_from_chars(&v)
}

/// The stored hash of a key.
pub fn hash_api_key(full_key: &str) -> (h: String)
    ensures
        h@ == key_hash_of(full_key),
{
    let bytes = full_key.as_bytes();
    let digest = sha256_digest(bytes);
    hex_lower_string(&digest)
}

/// The lookup prefix of a key.
pub fn api_key_prefix(full_key: &str) -> (p: String)
    ensures
        p@ == key_prefix_of(full_key@),
{
    let cs = str_chars(full_key);
    let mut v: Vec<char> = Vec::new();
    let mut i: usize = 0;
    while i < cs.len() && i < 8
        invariant
            cs@ == full_key@,
            i <= cs.len(),
            i <= 8,
            v@ == cs@.take(i as int),
        decreases cs.len() - i,
    {
        v.push(cs[i]);
        i = i + 1;
        assert(v@ =~= cs@.take(i as int));
    }
    assert(v@ =~= key_prefix_of(full_key@));
    string_from_chars(&v)
}

/// "wfk_" followed by the secret tail.
pub open spec fn full_key_of(tail: Seq<char>) -> Seq<char> {
    "wfk_"@ + tail
}

/// The entity stored for a new key built from `tail`, and the full key shown
/// once to its creator.
pub open spec fn issued(
    e: ApiKeyEntity,
    key: String,
    id: String,
    now: UtcInstant,
    tail: Seq<char>,
    tenant_id: Seq<char>,
    name: Seq<char>,
    role: Seq<char>,
    expires_at: Option<UtcInstant>,
    token_ttl_secs: u32,
    created_by: Seq<char>,
) -> bool {
    &&& key@ == full_key_of(tail)
    &&& e.id == id
    &&& e.tenant_id@ == tenant_id
    &&& e.name@ == name
    &&& e.key_prefix@ == key_prefix_of(key@)
    &&& e.key_hash@ == hex_lower(sha256(encode_utf8_of(key@)))
    &&& e.role@ == role
    &&& e.expires_at == expires_at
    &&& e.token_ttl_secs == token_ttl_secs
    &&& e.last_used_at is None
    &&& e.status == ApiKeyStatus::Active
    &&& e.created_by@ == created_by
    &&& e.created_at == now
    &&& e.updated_at == now
}

pub open spec fn encode_utf8_of(s: Seq<char>) -> Seq<u8> {
    vstd::utf8::encode_utf8(s)
}

/// Build the entity of a new key from its id, creation time and secret tail.
pub fn build_api_key(
    id: String,
    now: UtcInstant,
    tail: &str,
    tenant_id: &str,
    name: &str,
    role: &str,
    expires_at: Option<UtcInstant>,
    token_ttl_secs: u32,
    created_by: &str,
) -> (r: (ApiKeyEntity, String))
    ensures
        issued(r.0, r.1, id, now, tail@, tenant_id@, name@, role@, expires_at, token_ttl_secs, created_by@),
{
    let mut v: Vec<char> = Vec::new();
    push_str_chars("wfk_", &mut v);
    push_str_chars(tail, &mut v);
    let full_key = string_from_chars(&v);
    let key_prefix = api_key_prefix(full_key.as_str());
    let key_hash = hash_api_key(full_key.as_str());
    let entity = ApiKeyEntity {
        id,
        tenant_id: tenant_id.to_owned(),
        name: name.to_owned(),
        key_prefix,
        key_hash,
        role: role.to_owned(),
        expires_at,
        token_ttl_secs,
        last_used_at: None,
        status: ApiKeyStatus::Active,
        created_by: created_by.to_owned(),
        created_at: now,
        updated_at: now,
    };
    (entity, full_key)
}

proof fn lemma_utf8_len_bound(s: Seq<char>)
    ensures
        encode_utf8_of(s).len() <= 4 * s.len(),
    decreases s.len(),
{
    if s.len() > 0 {
        lemma_utf8_len_bound(s.drop_first());
        assert(vstd::utf8::encode_scalar(s[0] as u32).len() <= 4);
    }
}

/// "invalid api key"
pub open spec fn invalid_key_message() -> Seq<char> {
    "invalid api key"@
}

/// The outcome of checking an active key with a matching hash at time `now`:
/// refused when it expired before `now`, else accepted and stamped with `now`.
pub open spec fn expiry_checked_at(entity: ApiKeyEntity, now: UtcInstant, r: Result<ApiKeyEntity, String>) -> bool {
    if entity.expires_at matches Some(x) && instant_before(x, now) {
        r matches Err(e) && e@ == "api key has expired"@
    } else {
        r matches Ok(u) && u == ApiKeyEntity { last_used_at: Some(now), updated_at: now, ..entity }
    }
}

/// Issuing, checking and revoking API keys (storage is the caller's).
pub struct ApiKeyService {}

impl ApiKeyService {
    /// Issue a new key with a fresh id, the current time and a random tail.
    pub fn create_api_key(
        tenant_id: &str,
        name: &str,
        role: &str,
        expires_at: Option<UtcInstant>,
        token_ttl_secs: u32,
        created_by: &str,
    ) -> (r: (ApiKeyEntity, String))
        ensures
            exists|id: String, now: UtcInstant, tail: Seq<char>|
                tail.len() == 32 && (forall|i: int| 0 <= i < 32 ==> base62().contains(#[trigger] tail[i]))
                && issued(r.0, r.1, id, now, tail, tenant_id@, name@, role@, expires_at, token_ttl_secs, created_by@),
    {
        let tail = generate_secret_tail();
        let id = new_uuid_v4();
        let now = now_utc();
        let r = build_api_key(id, now, tail.as_str(), tenant_id, name, role, expires_at, token_ttl_secs, created_by);
        assert(issued(r.0, r.1, id, now, tail@, tenant_id@, name@, role@, expires_at, token_ttl_secs, created_by@));
        r
    }

    /// The prefix to look a presented key up by; refused ("invalid api key")
    /// when the key's first eight characters take fewer than eight bytes.
    pub fn lookup_prefix(full_key: &str) -> (r: Result<String, String>)
        ensures
            encode_utf8_of(key_prefix_of(full_key@)).len() < 8 ==> (r matches Err(e) && e@ == invalid_key_message()),
            encode_utf8_of(key_prefix_of(full_key@)).len() >= 8 ==> (r matches Ok(p) && p@ == key_prefix_of(full_key@)),
    {
        let prefix = api_key_prefix(full_key);
        proof {
            lemma_utf8_len_bound(prefix@);
        }
        if prefix.as_str().len() < 8 {
            return Err("invalid api key".to_owned());
        }
        Ok(prefix)
    }

    /// Check a presented key against the entity stored under its prefix at
    /// time `now`: the hash must match, the key be active and not expired.
    /// An accepted key is returned with `last_used_at` and `updated_at` set to `now`.
    pub fn authenticate_at(full_key: &str, entity: ApiKeyEntity, now: UtcInstant) -> (r: Result<ApiKeyEntity, String>)
        ensures
            key_hash_of(full_key) != entity.key_hash@ ==> (r matches Err(e) && e@ == invalid_key_message()),
            key_hash_of(full_key) == entity.key_hash@ && entity.status != ApiKeyStatus::Active
                ==> (r matches Err(e) && e@ == "api key is not active"@),
            key_hash_of(full_key) == entity.key_hash@ && entity.status == ApiKeyStatus::Active
                && (entity.expires_at matches Some(x) && instant_before(x, now))
                ==> (r matches Err(e) && e@ == "api key has expired"@),
            key_hash_of(full_key) == entity.key_hash@ && entity.status == ApiKeyStatus::Active
                && !(entity.expires_at matches Some(x) && instant_before(x, now))
                ==> (r matches Ok(u) && u == ApiKeyEntity { last_used_at: Some(now), updated_at: now, ..entity }),
    {
        let h = hash_api_key(full_key);
        if h != entity.key_hash {
            return Err("invalid api key".to_owned());
        }
        if entity.status != ApiKeyStatus::Active {
            return Err("api key is not active".to_owned());
        }
        match entity.expires_at {
            Some(exp) => {
                if is_before(exp, now) {
                    return Err("api key has expired".to_owned());
                }
            },
            None => {},
        }
        let mut updated = entity;
        updated.last_used_at = Some(now);
        updated.updated_at = now;
        Ok(updated)
    }

    /// Check a presented key against its stored entity at the current time:
    /// as `authenticate_at`, for some time the clock gave.
    pub fn authenticate(full_key: &str, entity: ApiKeyEntity) -> (r: Result<ApiKeyEntity, String>)
        ensures
            key_hash_of(full_key) != entity.key_hash@ ==> (r matches Err(e) && e@ == invalid_key_message()),
            key_hash_of(full_key) == entity.key_hash@ && entity.status != ApiKeyStatus::Active
                ==> (r matches Err(e) && e@ == "api key is not active"@),
            key_hash_of(full_key) == entity.key_hash@ && entity.status == ApiKeyStatus::Active
                ==> exists|now: UtcInstant| now.secs >= 0 && #[trigger] expiry_checked_at(entity, now, r),
    {
        let now = now_utc();
        let r = Self::authenticate_at(full_key, entity, now);
        assert(key_hash_of(full_key) == entity.key_hash@ && entity.status == ApiKeyStatus::Active
            ==> expiry_checked_at(entity, now, r));
        r
    }

    /// Revoke a key at the current time.
    pub fn revoke(entity: ApiKeyEntity) -> (r: ApiKeyEntity)
        ensures
            r == (ApiKeyEntity { status: ApiKeyStatus::Revoked, updated_at: r.updated_at, ..entity }),
            r.updated_at.secs >= 0,
    {
        let now = now_utc();
        Self::revoke_at(entity, now)
    }

    /// Revoke a key at time `now`.
    pub fn revoke_at(entity: ApiKeyEntity, now: UtcInstant) -> (r: ApiKeyEntity)
        ensures
            r == (ApiKeyEntity { status: ApiKeyStatus::Revoked, updated_at: now, ..entity }),
    {
        let mut e = entity;
        e.status = ApiKeyStatus::Revoked;
        e.updated_at = now;
        e
    }
}

/// Lifetime of the access tokens a key exchanges for: 3600 seconds unless
/// given, and refused outside 60..=86400.
pub fn token_ttl(requested: Option<u32>) -> (r: Result<u32, String>)
    ensures
        ({
            let t = match requested { Some(t) => t, None => 3600u32 };
            if 60 <= t <= 86400 {
                r == Ok::<u32, String>(t)
            } else {
                r matches Err(e) && e@ == "token_ttl_secs must be between 60 and 86400"@
            }
        }),
{
    let t: u32 = match requested {
        Some(t) => t,
        None => 3600,
    };
    if t < 60 || t > 86400 {
        return Err("token_ttl_secs must be between 60 and 86400".to_owned());
    }
    Ok(t)
}

/// A key issued from a tail is accepted when presented again: its stored hash
/// is the hash of the full key, and its prefix is the key's first eight characters.
pub proof fn lemma_issued_key_matches(
    e: ApiKeyEntity,
    key: String,
    id: String,
    now: UtcInstant,
    tail: Seq<char>,
    tenant_id: Seq<char>,
    name: Seq<char>,
    role: Seq<char>,
    expires_at: Option<UtcInstant>,
    token_ttl_secs: u32,
    created_by: Seq<char>,
    presented: &str,
)
    requires
        issued(e, key, id, now, tail, tenant_id, name, role, expires_at, token_ttl_secs, created_by),
        presented@ == key@,
    ensures
        key_hash_of(presented) == e.key_hash@,
        key_prefix_of(presented@) == e.key_prefix@,
{
}

} // verus!
