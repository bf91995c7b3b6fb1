//! Object storage adapters for file uploads and downloads: a placeholder that issues
//! structurally correct but non-functional URL descriptors, and a Cloudflare R2 configuration
//! whose signer is still pending (it fails closed).
use vstd::prelude::*;

use crate::domain::error::{is_internal, CoreError};
use crate::domain::files::PresignedUrl;
use crate::external::{clock_now, json_quoted, json_string, string_from_chars};
use crate::ids::{plus_seconds, representable, shifted, Timestamp};
use crate::text::{chars_of, join, json_object, json_object_text, text};

verus! {

broadcast use vstd::string::group_string_axioms;

/// The longest lifetime a presigned URL can be asked for, in seconds (the calendar duration
/// type holds at most `i64::MAX` milliseconds).
pub const MAX_TTL_SECS: u64 = 9_223_372_036_854_775;

/// `s` without every trailing `c` (`str::trim_end_matches` with a character).
pub open spec fn strip_trailing(s: Seq<char>, c: char) -> Seq<char>
    decreases s.len(),
{
    if s.len() > 0 && s.last() == c {
        strip_trailing(s.drop_last(), c)
    } else {
        s
    }
}

proof fn lemma_strip_trailing(s: Seq<char>, c: char, j: int)
    requires
        0 <= j <= s.len(),
        forall|k: int| j <= k < s.len() ==> s[k] == c,
        j == 0 || s[j - 1] != c,
    ensures
        strip_trailing(s, c) == s.subrange(0, j),
    decreases s.len() - j,
{
    if j < s.len() {
        lemma_strip_trailing(s.drop_last(), c, j);
        assert(s.drop_last().subrange(0, j) =~= s.subrange(0, j));
    } else {
        assert(s.subrange(0, j) =~= s);
    }
}

/// `s` without its trailing slashes.
pub fn trim_trailing_slashes(s: &str) -> (r: String)
    ensures
        r@ == strip_trailing(s@, '/'),
{
    let chars = chars_of(s);
    let mut j: usize = chars.len();
    while j > 0 && chars[j - 1] == '/'
        invariant
            j <= chars.len(),
            chars@ == s@,
            forall|k: int| j <= k < chars@.len() ==> chars@[k] == '/',
        decreases j,
    {
        j = j - 1;
    }
    let mut kept: Vec<char> = Vec::new();
    let mut i: usize = 0;
    while i < j
        invariant
            i <= j <= chars.len(),
            kept@ == chars@.subrange(0, i as int),
        decreases j - i,
    {
        kept.push(chars[i]);
        i = i + 1;
        assert(kept@ =~= chars@.subrange(0, i as int));
    }
    proof {
        lemma_strip_trailing(s@, '/', j as int);
    }
    string_from_chars(&kept)
}

/// Headers of a placeholder upload URL.
pub open spec fn placeholder_put_headers(content_type: Seq<char>) -> Seq<char> {
    json_object_text(
        seq![
            ("Content-Type"@, json_quoted(content_type)),
            ("x-proven-storage"@, json_quoted("placeholder"@)),
        ],
    )
}

/// Headers of a placeholder download URL; a file name asks for an attachment download.
pub open spec fn placeholder_get_headers(filename: Option<Seq<char>>) -> Seq<char> {
    match filename {
        Some(name) => json_object_text(
            seq![
                (
                    "Content-Disposition"@,
                    json_quoted("attachment; filename=\""@ + name + "\""@),
                ),
                ("x-proven-storage"@, json_quoted("placeholder"@)),
            ],
        ),
        None => json_object_text(seq![("x-proven-storage"@, json_quoted("placeholder"@))]),
    }
}

/// The message of the error returned when an expiry would leave the representable range.
pub open spec fn out_of_range_message() -> Seq<char> {
    "instant out of range"@
}

/// `u` is the placeholder URL for `method` on `url`, valid `ttl_secs` seconds from `now`.
pub open spec fn is_placeholder_url(
    u: PresignedUrl,
    url: Seq<char>,
    method: Seq<char>,
    headers: Seq<char>,
    now: int,
    ttl_secs: int,
) -> bool {
    &&& u.url@ == url
    &&& u.method@ == method
    &&& u.headers@ == headers
    &&& u.placeholder
    &&& shifted(now, ttl_secs) == Some(u.expires_at as int)
}

/// Dev/test storage adapter: no network calls; every URL is marked as a placeholder.
#[derive(Debug)]
pub struct PlaceholderObjectStorage {
    pub public_base_url: String,
}

impl PlaceholderObjectStorage {
    pub fn new() -> (r: Self)
        ensures
            r.public_base_url@ == "https://r2.placeholder.local"@,
    {
        PlaceholderObjectStorage { public_base_url: text("https://r2.placeholder.local") }
    }

    pub fn with_base_url(base: String) -> (r: Self)
        ensures
            r.public_base_url == base,
    {
        PlaceholderObjectStorage { public_base_url: base }
    }

    /// The upload URL for `key`, issued at `now`.
    pub fn presign_put_at(&self, key: &str, content_type: &str, ttl_secs: u64, now: Timestamp) -> (r:
        Result<PresignedUrl, CoreError>)
        requires
            ttl_secs <= MAX_TTL_SECS,
            representable(now as int),
        ensures
            shifted(now as int, ttl_secs as int) is Some ==> (r matches Ok(u) && is_placeholder_url(
                u,
                strip_trailing(self.public_base_url@, '/') + "/upload/"@ + key@,
                "PUT"@,
                placeholder_put_headers(content_type@),
                now as int,
                ttl_secs as int,
            )),
            shifted(now as int, ttl_secs as int) is None ==> (r matches Err(e) && is_internal(
                e,
                out_of_range_message(),
            )),
    {
        let expires_at = match plus_seconds(now, ttl_secs as i64) {
            Some(t) => t,
            None => {
                return Err(CoreError::internal("instant out of range"));
            },
        };
        let base = trim_trailing_slashes(self.public_base_url.as_str());
        let prefix = join(base.as_str(), "/upload/");
        let url = join(prefix.as_str(), key);
        let keys: Vec<&str> = vec!["Content-Type", "x-proven-storage"];
        let values: Vec<String> = vec![json_string(content_type), json_string("placeholder")];
        let headers = json_object(&keys, &values);
        proof {
            let fields = Seq::new(keys.len() as nat, |i: int| (keys@[i]@, values@[i]@));
            assert(fields =~= seq![
                ("Content-Type"@, json_quoted(content_type@)),
                ("x-proven-storage"@, json_quoted("placeholder"@)),
            ]);
        }
        Ok(
            PresignedUrl {
                url,
                method: text("PUT"),
                expires_at,
                headers,
                placeholder: true,
            },
        )
    }

    /// The download URL for `key`, issued at `now`.
    pub fn presign_get_at(&self, key: &str, ttl_secs: u64, filename: Option<&str>, now: Timestamp) -> (r:
        Result<PresignedUrl, CoreError>)
        requires
            ttl_secs <= MAX_TTL_SECS,
            representable(now as int),
        ensures
            shifted(now as int, ttl_secs as int) is Some ==> (r matches Ok(u) && is_placeholder_url(
                u,
                strip_trailing(self.public_base_url@, '/') + "/download/"@ + key@,
                "GET"@,
                placeholder_get_headers(
                    match filename {
                        Some(n) => Some(n@),
                        None => None,
                    },
                ),
                now as int,
                ttl_secs as int,
            )),
            shifted(now as int, ttl_secs as int) is None ==> (r matches Err(e) && is_internal(
                e,
                out_of_range_message(),
            )),
    {
        let expires_at = match plus_seconds(now, ttl_secs as i64) {
            Some(t) => t,
            None => {
                return Err(CoreError::internal("instant out of range"));
            },
        };
        let base = trim_trailing_slashes(self.public_base_url.as_str());
        let prefix = join(base.as_str(), "/download/");
        let url = join(prefix.as_str(), key);
        let headers = match filename {
            Some(name) => {
                let opening = join("attachment; filename=\"", name);
                let disposition = join(opening.as_str(), "\"");
                let keys: Vec<&str> = vec!["Content-Disposition", "x-proven-storage"];
                let values: Vec<String> = vec![
                    json_string(disposition.as_str()),
                    json_string("placeholder"),
                ];
                let h = json_object(&keys, &values);
                proof {
                    let fields = Seq::new(keys.len() as nat, |i: int| (keys@[i]@, values@[i]@));
                    assert(fields =~= seq![
                        (
                            "Content-Disposition"@,
                            json_quoted("attachment; filename=\""@ + name@ + "\""@),
                        ),
                        ("x-proven-storage"@, json_quoted("placeholder"@)),
                    ]);
                }
                h
            },
            None => {
                let keys: Vec<&str> = vec!["x-proven-storage"];
                let values: Vec<String> = vec![json_string("placeholder")];
                let h = json_object(&keys, &values);
                proof {
                    let fields = Seq::new(keys.len() as nat, |i: int| (keys@[i]@, values@[i]@));
                    assert(fields =~= seq![("x-proven-storage"@, json_quoted("placeholder"@))]);
                }
                h
            },
        };
        Ok(
            PresignedUrl {
                url,
                method: text("GET"),
                expires_at,
                headers,
                placeholder: true,
            },
        )
    }
}

impl PlaceholderObjectStorage {
    /// The upload URL for `key`, valid `ttl_secs` seconds from now.
    pub fn presign_put(&self, key: &str, content_type: &str, ttl_secs: u64) -> (r: Result<
        PresignedUrl,
        CoreError,
    >)
        requires
            ttl_secs <= MAX_TTL_SECS,
        ensures
            match r {
                Ok(u) => {
                    &&& u.url@ == strip_trailing(self.public_base_url@, '/') + "/upload/"@ + key@
                    &&& u.method@ == "PUT"@
                    &&& u.headers@ == placeholder_put_headers(content_type@)
                    &&& u.placeholder
                    &&& representable(u.expires_at as int)
                    &&& representable(u.expires_at - ttl_secs * 1000)
                },
                Err(e) => is_internal(e, out_of_range_message()),
            },
    {
        self.presign_put_at(key, content_type, ttl_secs, clock_now())
    }

    /// The download URL for `key`, valid `ttl_secs` seconds from now.
    pub fn presign_get(&self, key: &str, ttl_secs: u64, filename: Option<&str>) -> (r: Result<
        PresignedUrl,
        CoreError,
    >)
        requires
            ttl_secs <= MAX_TTL_SECS,
        ensures
            match r {
                Ok(u) => {
                    &&& u.url@ == strip_trailing(self.public_base_url@, '/') + "/download/"@ + key@
                    &&& u.method@ == "GET"@
                    &&& u.headers@ == placeholder_get_headers(
                        match filename {
                            Some(n) => Some(n@),
                            None => None,
                        },
                    )
                    &&& u.placeholder
                    &&& representable(u.expires_at as int)
                    &&& representable(u.expires_at - ttl_secs * 1000)
                },
                Err(e) => is_internal(e, out_of_range_message()),
            },
    {
        self.presign_get_at(key, ttl_secs, filename, clock_now())
    }

    /// Nothing to delete for placeholder objects.
    pub fn delete_object(&self, key: &str) -> (r: Result<(), CoreError>)
        ensures
            r is Ok,
    {
        Ok(())
    }
}

/// Connection settings for a Cloudflare R2 (S3-compatible) bucket.
#[derive(Debug)]
pub struct R2StorageConfig {
    pub account_id: Option<String>,
    pub bucket: Option<String>,
    pub access_key_id: Option<String>,
    pub secret_access_key: Option<String>,
    pub endpoint: Option<String>,
    pub public_base_url: Option<String>,
}

impl Default for R2StorageConfig {
    fn default() -> (r: Self)
        ensures
            r.account_id is None,
            r.bucket is None,
            r.access_key_id is None,
            r.secret_access_key is None,
            r.endpoint is None,
            r.public_base_url is None,
    {
        R2StorageConfig {
            account_id: None,
            bucket: None,
            access_key_id: None,
            secret_access_key: None,
            endpoint: None,
            public_base_url: None,
        }
    }
}

/// The setting is present and not empty.
pub open spec fn filled(o: Option<String>) -> bool {
    o matches Some(s) && s@.len() > 0
}

fn is_filled(o: &Option<String>) -> (r: bool)
    ensures
        r == filled(*o),
{
    match o {
        Some(s) => s.unicode_len() > 0,
        None => false,
    }
}

impl R2StorageConfig {
    /// Account, bucket, access key and secret are all set and non-empty.
    pub open spec fn is_configured(self) -> bool {
        filled(self.account_id) && filled(self.bucket) && filled(self.access_key_id) && filled(
            self.secret_access_key,
        )
    }

    pub fn configured(&self) -> (r: bool)
        ensures
            r == self.is_configured(),
    {
        is_filled(&self.account_id) && is_filled(&self.bucket) && is_filled(&self.access_key_id)
            && is_filled(&self.secret_access_key)
    }

    /// The S3 API endpoint: the override when set, else the account's R2 endpoint.
    pub fn resolved_endpoint(&self) -> (r: Option<String>)
        ensures
            match self.endpoint {
                Some(e) => r == Some(e),
                None => match self.account_id {
                    Some(id) => r matches Some(u) && u@ == "https://"@ + id@
                        + ".r2.cloudflarestorage.com"@,
                    None => r is None,
                },
            },
    {
        if let Some(endpoint) = &self.endpoint {
            return Some(endpoint.clone());
        }
        match &self.account_id {
            Some(id) => {
                let host = join("https://", id.as_str());
                Some(join(host.as_str(), ".r2.cloudflarestorage.com"))
            },
            None => None,
        }
    }
}

/// Storage that refuses to sign: it stands for R2 until its signer is integrated, so that a
/// deployment configured for R2 fails closed.
#[derive(Debug)]
pub struct PendingR2ObjectStorage {
    pub config: R2StorageConfig,
}

/// The refusal of the pending R2 adapter.
pub open spec fn r2_pending_message() -> Seq<char> {
    "Cloudflare R2 signer is not wired yet — see docs/development/FILE_MANAGEMENT.md"@
}

impl PendingR2ObjectStorage {
    /// Refused: the signer is not integrated.
    pub fn presign_put(&self, key: &str, content_type: &str, ttl_secs: u64) -> (r: Result<
        PresignedUrl,
        CoreError,
    >)
        ensures
            r matches Err(e) && is_internal(e, r2_pending_message()),
    {
        Err(CoreError::internal("Cloudflare R2 signer is not wired yet — see docs/development/FILE_MANAGEMENT.md"))
    }

    /// Refused: the signer is not integrated.
    pub fn presign_get(&self, key: &str, ttl_secs: u64, filename: Option<&str>) -> (r: Result<
        PresignedUrl,
        CoreError,
    >)
        ensures
            r matches Err(e) && is_internal(e, r2_pending_message()),
    {
        Err(CoreError::internal("Cloudflare R2 signer is not wired yet — see docs/development/FILE_MANAGEMENT.md"))
    }

    /// Refused: the signer is not integrated.
    pub fn delete_object(&self, key: &str) -> (r: Result<(), CoreError>)
        ensures
            r matches Err(e) && is_internal(e, r2_pending_message()),
    {
        Err(CoreError::internal("Cloudflare R2 signer is not wired yet — see docs/development/FILE_MANAGEMENT.md"))
    }
}

/// The storage adapter behind the file service.
#[derive(Debug)]
pub enum ObjectStorage {
    Placeholder(PlaceholderObjectStorage),
    PendingR2(PendingR2ObjectStorage),
}

impl ObjectStorage {
    /// Sign an upload of `key`, at time `now`.
    pub fn presign_put_at(&self, key: &str, content_type: &str, ttl_secs: u64, now: Timestamp) -> (r:
        Result<PresignedUrl, CoreError>)
        requires
            ttl_secs <= MAX_TTL_SECS,
            representable(now as int),
        ensures
            match self {
                ObjectStorage::Placeholder(p) => {
                    &&& shifted(now as int, ttl_secs as int) is Some ==> (r matches Ok(u)
                        && is_placeholder_url(
                        u,
                        strip_trailing(p.public_base_url@, '/') + "/upload/"@ + key@,
                        "PUT"@,
                        placeholder_put_headers(content_type@),
                        now as int,
                        ttl_secs as int,
                    ))
                    &&& shifted(now as int, ttl_secs as int) is None ==> (r matches Err(e)
                        && is_internal(e, out_of_range_message()))
                },
                ObjectStorage::PendingR2(_) => r matches Err(e) && is_internal(
                    e,
                    r2_pending_message(),
                ),
            },
    {
        match self {
            ObjectStorage::Placeholder(p) => p.presign_put_at(key, content_type, ttl_secs, now),
            ObjectStorage::PendingR2(_) => Err(
                CoreError::internal("Cloudflare R2 signer is not wired yet — see docs/development/FILE_MANAGEMENT.md"),
            ),
        }
    }

    /// Sign a download of `key`, at time `now`.
    pub fn presign_get_at(&self, key: &str, ttl_secs: u64, filename: Option<&str>, now: Timestamp) -> (r:
        Result<PresignedUrl, CoreError>)
        requires
            ttl_secs <= MAX_TTL_SECS,
            representable(now as int),
        ensures
            match self {
                ObjectStorage::Placeholder(p) => {
                    &&& shifted(now as int, ttl_secs as int) is Some ==> (r matches Ok(u)
                        && is_placeholder_url(
                        u,
                        strip_trailing(p.public_base_url@, '/') + "/download/"@ + key@,
                        "GET"@,
                        placeholder_get_headers(
                            match filename {
                                Some(n) => Some(n@),
                                None => None,
                            },
                        ),
                        now as int,
                        ttl_secs as int,
                    ))
                    &&& shifted(now as int, ttl_secs as int) is None ==> (r matches Err(e)
                        && is_internal(e, out_of_range_message()))
                },
                ObjectStorage::PendingR2(_) => r matches Err(e) && is_internal(
                    e,
                    r2_pending_message(),
                ),
            },
    {
        match self {
            ObjectStorage::Placeholder(p) => p.presign_get_at(key, ttl_secs, filename, now),
            ObjectStorage::PendingR2(_) => Err(
                CoreError::internal("Cloudflare R2 signer is not wired yet — see docs/development/FILE_MANAGEMENT.md"),
            ),
        }
    }

    /// Sign an upload of `key`, valid `ttl_secs` seconds from now.
    pub fn presign_put(&self, key: &str, content_type: &str, ttl_secs: u64) -> (r: Result<
        PresignedUrl,
        CoreError,
    >)
        requires
            ttl_secs <= MAX_TTL_SECS,
        ensures
            match self {
                ObjectStorage::Placeholder(p) => match r {
                    Ok(u) => {
                        &&& u.url@ == strip_trailing(p.public_base_url@, '/') + "/upload/"@ + key@
                        &&& u.method@ == "PUT"@
                        &&& u.headers@ == placeholder_put_headers(content_type@)
                        &&& u.placeholder
                        &&& representable(u.expires_at as int)
                        &&& representable(u.expires_at - ttl_secs * 1000)
                    },
                    Err(e) => is_internal(e, out_of_range_message()),
                },
                ObjectStorage::PendingR2(_) => r matches Err(e) && is_internal(
                    e,
                    r2_pending_message(),
                ),
            },
    {
        self.presign_put_at(key, content_type, ttl_secs, clock_now())
    }

    /// Sign a download of `key`, valid `ttl_secs` seconds from now.
    pub fn presign_get(&self, key: &str, ttl_secs: u64, filename: Option<&str>) -> (r: Result<
        PresignedUrl,
        CoreError,
    >)
        requires
            ttl_secs <= MAX_TTL_SECS,
        ensures
            match self {
                ObjectStorage::Placeholder(p) => match r {
                    Ok(u) => {
                        &&& u.url@ == strip_trailing(p.public_base_url@, '/') + "/download/"@
                            + key@
                        &&& u.method@ == "GET"@
                        &&& u.headers@ == placeholder_get_headers(
                            match filename {
                                Some(n) => Some(n@),
                                None => None,
                            },
                        )
                        &&& u.placeholder
                        &&& representable(u.expires_at as int)
                        &&& representable(u.expires_at - ttl_secs * 1000)
                    },
                    Err(e) => is_internal(e, out_of_range_message()),
                },
                ObjectStorage::PendingR2(_) => r matches Err(e) && is_internal(
                    e,
                    r2_pending_message(),
                ),
            },
    {
        self.presign_get_at(key, ttl_secs, filename, clock_now())
    }

    /// Delete the object at `key`: nothing to do for the placeholder; refused by pending R2.
    pub fn delete_object(&self, key: &str) -> (r: Result<(), CoreError>)
        ensures
            match self {
                ObjectStorage::Placeholder(_) => r is Ok,
                ObjectStorage::PendingR2(_) => r matches Err(e) && is_internal(
                    e,
                    r2_pending_message(),
                ),
            },
    {
        match self {
            ObjectStorage::Placeholder(_) => Ok(()),
            ObjectStorage::PendingR2(_) => Err(
                CoreError::internal("Cloudflare R2 signer is not wired yet — see docs/development/FILE_MANAGEMENT.md"),
            ),
        }
    }
}

} // verus!
