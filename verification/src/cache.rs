//! The TTL-based JSON file cache: its keys, lifetimes, file layout and
//! expiry rule. The file operations themselves are performed by the
//! program around this library.

use vstd::prelude::*;

use crate::text::{ends_with, owned, starts_with};

verus! {

/// Pipelines change rarely -- 1 hour cache.
pub const TTL_PIPELINES: u64 = 3600;

/// Stages change rarely -- 1 hour cache.
pub const TTL_STAGES: u64 = 3600;

/// Users change very rarely -- 2 hour cache.
pub const TTL_USERS: u64 = 7200;

/// Entity lists (deals, orgs, people, activities) change frequently -- 5 min cache.
pub const TTL_ENTITY_LIST: u64 = 300;

pub const KEY_PIPELINES: &'static str = "pipelines";

pub const KEY_STAGES: &'static str = "stages";

pub const KEY_USERS: &'static str = "users";

pub const KEY_DEALS: &'static str = "deals";

pub const KEY_ORGS: &'static str = "orgs";

pub const KEY_PEOPLE: &'static str = "people";

pub const KEY_ACTIVITIES: &'static str = "activities";

/// Whether an entry stored `elapsed_secs` seconds ago with a lifetime of
/// `ttl_seconds` has expired. An entry from the future (negative elapsed
/// time, e.g. after a clock change) counts as expired.
pub open spec fn is_expired_spec(elapsed_secs: int, ttl_seconds: nat) -> bool {
    elapsed_secs < 0 || elapsed_secs >= ttl_seconds
}

/// Decides whether a cache entry has expired.
pub fn is_expired(elapsed_secs: i64, ttl_seconds: u64) -> (r: bool)
    ensures
        r == is_expired_spec(elapsed_secs as int, ttl_seconds as nat),
{
    elapsed_secs < 0 || elapsed_secs as u64 >= ttl_seconds
}

/// Joins a path component onto a directory the way `Path::join` does on
/// Unix: an absolute component replaces the directory, an empty directory
/// yields the component, and a separator is added unless the directory
/// already ends with one.
pub open spec fn path_join(dir: Seq<char>, component: Seq<char>) -> Seq<char> {
    if component.len() > 0 && component[0] == '/' {
        component
    } else if dir.len() == 0 {
        component
    } else if dir.last() == '/' {
        dir + component
    } else {
        dir + "/"@ + component
    }
}

/// The file name holding the entry of `key`.
pub open spec fn entry_file_name(key: Seq<char>) -> Seq<char> {
    key + ".json"@
}

/// The name of the temporary file an entry of `key` is first written to.
pub open spec fn temp_file_name(key: Seq<char>) -> Seq<char> {
    "."@ + key + ".tmp"@
}

/// The cache key a file of the cache directory holds: its name without a
/// trailing `.json`.
pub open spec fn key_of_file_name(name: Seq<char>) -> Seq<char> {
    if ".json"@.is_suffix_of(name) {
        name.take(name.len() - 5)
    } else {
        name
    }
}

/// The file written for a key is read back as that key when the cache
/// directory is scanned (so prefix invalidation sees every entry).
pub proof fn lemma_entry_file_names_its_key(key: Seq<char>)
    ensures
        key_of_file_name(entry_file_name(key)) == key,
{
    reveal_strlit(".json");
    let name = entry_file_name(key);
    assert(name.subrange(name.len() - 5, name.len() as int) =~= ".json"@);
    assert(name.take(name.len() - 5) =~= key);
}

/// A temporary file never bears the name of an entry, so a half-written
/// value is never read as a cache entry.
pub proof fn lemma_temp_file_is_not_an_entry(k1: Seq<char>, k2: Seq<char>)
    ensures
        temp_file_name(k1) != entry_file_name(k2),
{
    reveal_strlit(".json");
    reveal_strlit(".tmp");
    let t = temp_file_name(k1);
    let e = entry_file_name(k2);
    assert(t.last() == 'p');
    assert(e.last() == 'n');
}

/// Once an entry has expired it stays expired as time goes on, and an
/// entry with a zero lifetime is never served.
pub proof fn lemma_expiry_is_monotone(e1: int, e2: int, ttl_seconds: nat)
    ensures
        0 <= e1 <= e2 && is_expired_spec(e1, ttl_seconds) ==> is_expired_spec(e2, ttl_seconds),
        is_expired_spec(e1, 0),
{
}

/// The cache key of the stages of one pipeline: `stages_{pipeline_id}`.
pub open spec fn stages_key_spec(pipeline_id: Seq<char>) -> Seq<char> {
    KEY_STAGES@ + "_"@ + pipeline_id
}

/// Builds the cache key of the stages of one pipeline.
pub fn stages_key(pipeline_id: &str) -> (r: String)
    ensures
        r@ == stages_key_spec(pipeline_id@),
{
    let mut r = owned(KEY_STAGES);
    r.append("_");
    r.append(pipeline_id);
    r
}

/// Every per-pipeline stages entry is found by the `stages_` prefix, so
/// invalidating that prefix drops the stages of all pipelines at once.
pub proof fn lemma_stages_entries_match_their_prefix(pipeline_id: Seq<char>)
    ensures
        (KEY_STAGES@ + "_"@).is_prefix_of(key_of_file_name(entry_file_name(stages_key_spec(pipeline_id)))),
{
    lemma_entry_file_names_its_key(stages_key_spec(pipeline_id));
    let p = KEY_STAGES@ + "_"@;
    let k = stages_key_spec(pipeline_id);
    assert(k.subrange(0, p.len() as int) =~= p);
}

/// The directory of the cache under a home directory:
/// `{home}/.pipelite/cache`.
pub open spec fn cache_dir_spec(home: Seq<char>) -> Seq<char> {
    path_join(path_join(home, ".pipelite"@), "cache"@)
}

/// The cache directory under the given home directory.
pub fn cache_dir_under(home: &str) -> (r: String)
    ensures
        r@ == cache_dir_spec(home@),
{
    let base = join_path(home, ".pipelite");
    join_path(base.as_str(), "cache")
}

/// TTL-based JSON file cache: each key maps to a single JSON file in the
/// cache directory; writes go to a temporary file that is then renamed.
pub struct CacheStore {
    cache_dir: String,
}

fn join_path(dir: &str, component: &str) -> (r: String)
    ensures
        r@ == path_join(dir@, component@),
{
    proof {
        reveal_strlit("/");
    }
    if component.unicode_len() > 0 && component.get_char(0) == '/' {
        owned(component)
    } else if dir.unicode_len() == 0 {
        owned(component)
    } else if dir.get_char(dir.unicode_len() - 1) == '/' {
        let mut r = owned(dir);
        r.append(component);
        r
    } else {
        let mut r = owned(dir);
        r.append("/");
        r.append(component);
        r
    }
}

impl CacheStore {
    /// A cache stored in `cache_dir` (the directory is created by the
    /// caller).
    pub fn at(cache_dir: String) -> (r: Self)
        ensures
            r.dir()@ == cache_dir@,
    {
        CacheStore { cache_dir }
    }

    /// The directory of the cache.
    pub closed spec fn dir(&self) -> String {
        self.cache_dir
    }

    /// The directory of the cache.
    pub fn cache_dir(&self) -> (r: &str)
        ensures
            r@ == self.dir()@,
    {
        self.cache_dir.as_str()
    }

    /// Build the file path for a cache key.
    pub fn key_path(&self, key: &str) -> (r: String)
        ensures
            r@ == path_join(self.dir()@, entry_file_name(key@)),
    {
        let mut name = owned(key);
        name.append(".json");
        join_path(self.cache_dir.as_str(), name.as_str())
    }

    /// The temporary file path an entry of `key` is written to before it
    /// is renamed into place.
    pub fn temp_path(&self, key: &str) -> (r: String)
        ensures
            r@ == path_join(self.dir()@, temp_file_name(key@)),
    {
        let mut name = owned(".");
        name.append(key);
        name.append(".tmp");
        join_path(self.cache_dir.as_str(), name.as_str())
    }
}

/// Whether the cache file `file_name` holds a key that starts with
/// `prefix` (used to invalidate, e.g., every `stages_*` entry).
pub fn file_matches_prefix(file_name: &str, prefix: &str) -> (r: bool)
    ensures
        r == prefix@.is_prefix_of(key_of_file_name(file_name@)),
{
    proof {
        reveal_strlit(".json");
    }
    if ends_with(file_name, ".json") {
        let n = file_name.unicode_len();
        let key = file_name.substring_char(0, n - 5);
        assert(key@ =~= file_name@.take(n - 5));
        starts_with(key, prefix)
    } else {
        starts_with(file_name, prefix)
    }
}

} // verus!
