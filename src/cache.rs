//! The freshness rule of the disk cache: an entry is served only while it is
//! no older than the configured maximum age.

use vstd::prelude::*;

verus! {

/// An instant as seconds and nanoseconds since the Unix epoch.
#[derive(Debug, Clone, Copy, PartialEq, Eq, Structural)]
pub struct Stamp {
    pub secs: u64,
    pub nanos: u32,
}

/// The instant in nanoseconds since the epoch.
pub open spec fn stamp_nanos(s: Stamp) -> int {
    s.secs * 1_000_000_000 + s.nanos
}

/// A cached payload with the instant it was written.
#[derive(Debug, Clone)]
pub struct CacheData<T> {
    pub timestamp: Stamp,
    pub payload: T,
}

/// How the cache behaves.
#[derive(Debug, Clone, Copy)]
pub struct CacheConfig {
    /// The oldest an entry may be and still be served, in seconds.
    pub max_age_secs: u64,
    /// Whether writing creates missing directories.
    pub create_dirs: bool,
}

impl Default for CacheConfig {
    /// An hour, creating directories.
    fn default() -> (r: Self)
        ensures
            r.max_age_secs == 3600,
            r.create_dirs,
    {
        CacheConfig { max_age_secs: 60 * 60, create_dirs: true }
    }
}

/// An entry written at `written` may be served at `now`: it is not from the
/// future and its age is at most `max_age_secs`.
pub open spec fn is_fresh(written: Stamp, now: Stamp, max_age_secs: u64) -> bool {
    &&& stamp_nanos(written) <= stamp_nanos(now)
    &&& stamp_nanos(now) - stamp_nanos(written) <= max_age_secs * 1_000_000_000
}

/// Whether an entry written at `written` may be served at `now`.
pub fn entry_is_fresh(written: Stamp, now: Stamp, config: CacheConfig) -> (r: bool)
    ensures
        r == is_fresh(written, now, config.max_age_secs),
{
    let w: u128 = written.secs as u128 * 1_000_000_000u128 + written.nanos as u128;
    let n: u128 = now.secs as u128 * 1_000_000_000u128 + now.nanos as u128;
    let max: u128 = config.max_age_secs as u128 * 1_000_000_000u128;
    w <= n && n - w <= max
}

/// The entry as a cache read returns it at `now`: itself while fresh,
/// nothing once expired.
pub fn serve_entry<T>(data: CacheData<T>, now: Stamp, config: CacheConfig) -> (r: Option<
    CacheData<T>,
>)
    ensures
        is_fresh(data.timestamp, now, config.max_age_secs) ==> r == Some(data),
        !is_fresh(data.timestamp, now, config.max_age_secs) ==> r is None,
{
    if entry_is_fresh(data.timestamp, now, config) {
        Some(data)
    } else {
        None
    }
}

} // verus!
