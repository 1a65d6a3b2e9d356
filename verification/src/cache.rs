//! Fetched values stamped with the time they were fetched, and the
//! time-to-live after which they count as stale.
use vstd::prelude::*;

use crate::paths::{join_path, path_join};

verus! {

/// How long fetched tickets stay fresh, in milliseconds (5 min).
pub const TICKETS_TTL: u64 = 300_000;

/// How long fetched pull requests stay fresh, in milliseconds (2 min).
pub const PRS_TTL: u64 = 120_000;

/// How long fetched repositories stay fresh, in milliseconds (24 h).
pub const REPOS_TTL: u64 = 86_400_000;

/// How long scanned worktrees stay fresh, in milliseconds (30 s).
pub const WORKTREES_TTL: u64 = 30_000;

/// The current wall-clock time, in milliseconds since the Unix epoch
/// (negative before 1970): `SystemTime::now` turned into a chrono
/// `DateTime<Utc>`, whose conversion, unlike `Utc::now`, accepts a clock set
/// before the epoch. Nothing is stated of it: it is the machine's clock.
#[verifier::external_body]
pub(crate) fn now_millis() -> (t: i64) {
    chrono::DateTime::<chrono::Utc>::from(std::time::SystemTime::now()).timestamp_millis()
}

/// Whether an entry fetched at `fetched_at` is still fresh at `now` for a
/// time-to-live of `ttl` (all in milliseconds). A fetch time in the future
/// (clock skew) counts as fresh.
pub open spec fn is_fresh_at(fetched_at: i64, now: i64, ttl: u64) -> bool {
    let age = now - fetched_at;
    age < 0 || age < ttl
}

/// An entry is fresh from its fetch until `ttl` has passed, and stale from
/// then on: freshness is lost once and never comes back.
pub proof fn law_staleness_lasts(fetched_at: i64, now: i64, later: i64, ttl: u64)
    requires
        now <= later,
        !is_fresh_at(fetched_at, now, ttl),
    ensures
        !is_fresh_at(fetched_at, later, ttl),
{
}

/// Right after its fetch an entry is fresh for any time-to-live but zero.
pub proof fn law_fresh_when_fetched(fetched_at: i64, ttl: u64)
    requires
        ttl > 0,
    ensures
        is_fresh_at(fetched_at, fetched_at, ttl),
{
}

pub fn fresh_at(fetched_at: i64, now: i64, ttl: u64) -> (r: bool)
    ensures
        r == is_fresh_at(fetched_at, now, ttl),
{
    let age: i128 = now as i128 - fetched_at as i128;
    age < 0 || age < ttl as i128
}

/// A fetched value and the time it was fetched (milliseconds since the
/// Unix epoch).
#[derive(Debug, Clone)]
pub struct CacheEntry<V> {
    pub value: V,
    pub fetched_at: i64,
}

impl<V> CacheEntry<V> {
    /// `value`, stamped with the current time.
    pub fn new(value: V) -> (r: Self)
        ensures
            r.value == value,
    {
        CacheEntry { value, fetched_at: now_millis() }
    }

    /// Whether the entry is still fresh now for a time-to-live of `ttl`
    /// milliseconds.
    pub fn is_fresh(&self, ttl: u64) -> (r: bool)
        ensures
            exists|now: i64| r == is_fresh_at(self.fetched_at, now, ttl),
    {
        let now = now_millis();
        fresh_at(self.fetched_at, now, ttl)
    }
}

/// The directory that a per-user directory lives under: the XDG variable
/// when it is set, else `<home>/<fallback>`, with `.` for an unset home.
pub open spec fn base_dir(xdg: Option<Seq<char>>, home: Option<Seq<char>>, fallback: Seq<char>) -> Seq<char> {
    match xdg {
        Some(x) => x,
        None => path_join(
            match home {
                Some(h) => h,
                None => "."@,
            },
            fallback,
        ),
    }
}

pub open spec fn opt_view(o: Option<&str>) -> Option<Seq<char>> {
    match o {
        Some(s) => Some(s@),
        None => None,
    }
}

/// `base_dir` computed from the values of the XDG variable and `HOME`.
pub fn base_dir_of(xdg: Option<&str>, home: Option<&str>, fallback: &str) -> (r: String)
    ensures
        r@ == base_dir(opt_view(xdg), opt_view(home), fallback@),
{
    match xdg {
        Some(x) => x.to_owned(),
        None => {
            let h = match home {
                Some(h) => h,
                None => ".",
            };
            join_path(h, fallback)
        },
    }
}

/// Where the cache lives: `$XDG_CACHE_HOME/flow`, else `$HOME/.cache/flow`,
/// given the values of those variables.
pub fn cache_dir(xdg_cache_home: Option<&str>, home: Option<&str>) -> (r: String)
    ensures
        r@ == path_join(base_dir(opt_view(xdg_cache_home), opt_view(home), ".cache"@), "flow"@),
{
    let base = base_dir_of(xdg_cache_home, home, ".cache");
    join_path(base.as_str(), "flow")
}

/// The snapshot file in the cache directory.
pub fn snapshot_path(cache_dir: &str) -> (r: String)
    ensures
        r@ == path_join(cache_dir@, "snapshot.json"@),
{
    join_path(cache_dir, "snapshot.json")
}

} // verus!
