//! The cache of one request: where its files live, what they are called, and
//! how long a cached payload counts as fresh.
use vstd::prelude::*;

use std::path::PathBuf;

use vstd::utf8::{encode_utf8, encode_utf8_decode_utf8};

use crate::key::{
    fnv1a, has_no_bar, lemma_canonical_injective, lemma_digest_equal_iff_hash_equal, CacheKey,
};

verus! {

#[verifier::external_type_specification]
#[verifier::external_body]
pub struct ExPathBuf(PathBuf);

/// Shortest time-to-live, in seconds, of a cached payload.
pub const MIN_TTL_SECS: u64 = 60;

/// The name of the cache file of a request whose digest is `digest`.
pub open spec fn data_file_name(digest: Seq<char>) -> Seq<char> {
    "weather-"@ + digest + ".json"@
}

/// The name of the lock file beside the cache file `file_name`.
pub open spec fn lock_file_name_of(file_name: Seq<char>) -> Seq<char> {
    "."@ + file_name + ".lock"@
}

/// The name of the temporary file that a new payload is written to before it
/// replaces the cache file `file_name`.
pub open spec fn tmp_file_name_of(file_name: Seq<char>) -> Seq<char> {
    "."@ + file_name + ".tmp"@
}

/// The single shared cache file of releases that did not key their caches.
pub open spec fn spec_legacy_file_name() -> Seq<char> {
    "weather.json"@
}

/// Whether a payload whose age is `age_nanos` is fresh under `ttl_nanos`;
/// an unknown age (the clock went backwards) counts as the longest possible one.
pub open spec fn is_fresh_age(age_nanos: Option<u128>, ttl_nanos: u128) -> bool {
    match age_nanos {
        Some(age) => age < ttl_nanos,
        None => false,
    }
}

/// The cache file, its lock file and its temporary file have three different
/// names, so locking and replacing never touch the payload under another name.
pub proof fn lemma_file_names_distinct(digest: Seq<char>)
    ensures
        data_file_name(digest) != lock_file_name_of(data_file_name(digest)),
        data_file_name(digest) != tmp_file_name_of(data_file_name(digest)),
        lock_file_name_of(data_file_name(digest)) != tmp_file_name_of(data_file_name(digest)),
{
    reveal_strlit("weather-");
    reveal_strlit(".json");
    reveal_strlit(".");
    reveal_strlit(".lock");
    reveal_strlit(".tmp");
    let f = data_file_name(digest);
    assert(f[0] == 'w');
    assert(lock_file_name_of(f)[0] == '.');
    assert(tmp_file_name_of(f)[0] == '.');
    assert(lock_file_name_of(f).len() == tmp_file_name_of(f).len() + 1);
}

/// Removing the legacy shared cache file never removes the cache file of a request.
pub proof fn lemma_legacy_file_is_never_a_request_file(digest: Seq<char>)
    ensures
        data_file_name(digest) != spec_legacy_file_name(),
{
    reveal_strlit("weather-");
    reveal_strlit("weather.json");
    assert(data_file_name(digest)[7] == '-');
    assert(spec_legacy_file_name()[7] == '.');
}

/// Requests with different digests get different cache files.
pub proof fn lemma_file_name_injective(d1: Seq<char>, d2: Seq<char>)
    requires
        data_file_name(d1) == data_file_name(d2),
    ensures
        d1 == d2,
{
    reveal_strlit("weather-");
    reveal_strlit(".json");
    let f = data_file_name(d1);
    assert(d1 =~= f.subrange(8, f.len() - 5));
    assert(d2 =~= data_file_name(d2).subrange(8, f.len() - 5));
}

/// Two requests that differ in any parameter share a cache file only when the
/// FNV-1a hashes of two different byte strings (their descriptors' UTF-8
/// encodings) collide; this needs the units to hold no `|`, the separator of
/// the descriptor's components.
pub proof fn lemma_shared_file_means_hash_collision(k1: &CacheKey, k2: &CacheKey)
    requires
        has_no_bar(k1.units@),
        has_no_bar(k2.units@),
        !(k1.location@ == k2.location@ && k1.units@ == k2.units@ && k1.days == k2.days && k1.hours
            == k2.hours),
        data_file_name(k1.spec_digest()) == data_file_name(k2.spec_digest()),
    ensures
        encode_utf8(k1.spec_canonical()) != encode_utf8(k2.spec_canonical()),
        fnv1a(encode_utf8(k1.spec_canonical())) == fnv1a(encode_utf8(k2.spec_canonical())),
{
    lemma_file_name_injective(k1.spec_digest(), k2.spec_digest());
    lemma_digest_equal_iff_hash_equal(k1.spec_canonical(), k2.spec_canonical());
    if k1.spec_canonical() == k2.spec_canonical() {
        lemma_canonical_injective(k1, k2);
    }
    encode_utf8_decode_utf8(k1.spec_canonical());
    encode_utf8_decode_utf8(k2.spec_canonical());
}

/// A cached payload is fresh exactly when its age is known and below the
/// cache's own time-to-live, whatever that time-to-live is.
pub proof fn lemma_fresh_iff_younger_than_ttl(age_nanos: Option<u128>, ttl_nanos: u128)
    ensures
        is_fresh_age(age_nanos, ttl_nanos) <==> (age_nanos is Some && age_nanos.unwrap()
            < ttl_nanos),
{
}

/// With a time-to-live of zero every cached payload is expired.
pub proof fn lemma_zero_ttl_never_fresh(age_nanos: Option<u128>)
    ensures
        !is_fresh_age(age_nanos, 0),
{
}

/// Freshness is lost only with age: a payload fresh at some age is fresh at
/// every lesser age, and under every longer time-to-live.
pub proof fn lemma_fresh_monotone(age: u128, younger: u128, ttl: u128, longer_ttl: u128)
    requires
        is_fresh_age(Some(age), ttl),
        younger <= age,
        ttl <= longer_ttl,
    ensures
        is_fresh_age(Some(younger), ttl),
        is_fresh_age(Some(age), longer_ttl),
{
}

/// The cache of one request.
pub struct Cache {
    dir: PathBuf,
    file_name: String,
    ttl_nanos: u128,
}

impl Cache {
    /// The directory that holds the cache files.
    pub closed spec fn spec_dir(&self) -> PathBuf {
        self.dir
    }

    /// The name of the cache file.
    pub closed spec fn spec_file_name(&self) -> Seq<char> {
        self.file_name@
    }

    /// How long, in nanoseconds, a cached payload stays fresh.
    pub closed spec fn spec_ttl_nanos(&self) -> u128 {
        self.ttl_nanos
    }

    /// A cache in `dir` for the request `key`, whose payloads stay fresh for `ttl_nanos`.
    pub fn with_dir(dir: PathBuf, key: &CacheKey, ttl_nanos: u128) -> (res: Cache)
        ensures
            res.spec_dir() == dir,
            res.spec_file_name() == data_file_name(key.spec_digest()),
            res.spec_ttl_nanos() == ttl_nanos,
    {
        let mut file_name = String::new();
        file_name.append("weather-");
        let digest = key.digest();
        file_name.append(digest.as_str());
        file_name.append(".json");
        Cache { dir, file_name, ttl_nanos }
    }

    /// The directory that holds the cache files.
    pub fn dir(&self) -> (res: &PathBuf)
        ensures
            *res == self.spec_dir(),
    {
        &self.dir
    }

    /// The name of the cache file.
    pub fn file_name(&self) -> (res: &str)
        ensures
            res@ == self.spec_file_name(),
    {
        self.file_name.as_str()
    }

    /// How long, in nanoseconds, a cached payload stays fresh.
    pub fn ttl_nanos(&self) -> (res: u128)
        ensures
            res == self.spec_ttl_nanos(),
    {
        self.ttl_nanos
    }

    /// The name of the lock file that serializes fetches of this request.
    pub fn lock_file_name(&self) -> (res: String)
        ensures
            res@ == lock_file_name_of(self.spec_file_name()),
    {
        let mut res = String::new();
        res.append(".");
        res.append(self.file_name.as_str());
        res.append(".lock");
        res
    }

    /// The name of the temporary file a new payload is written to.
    pub fn tmp_file_name(&self) -> (res: String)
        ensures
            res@ == tmp_file_name_of(self.spec_file_name()),
    {
        let mut res = String::new();
        res.append(".");
        res.append(self.file_name.as_str());
        res.append(".tmp");
        res
    }

    /// Whether a cache file whose age is `age_nanos` is fresh: younger than the
    /// time-to-live. `None` stands for an age that could not be measured.
    pub fn is_fresh(&self, age_nanos: Option<u128>) -> (res: bool)
        ensures
            res == is_fresh_age(age_nanos, self.spec_ttl_nanos()),
    {
        match age_nanos {
            Some(age) => age < self.ttl_nanos,
            None => false,
        }
    }
}

/// The name of the single shared cache file of releases that did not key
/// their caches; it is removed when a cache is opened.
pub fn legacy_file_name() -> (res: &'static str)
    ensures
        res@ == spec_legacy_file_name(),
{
    "weather.json"
}

} // verus!
