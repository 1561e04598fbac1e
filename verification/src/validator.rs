//! Cache validation: decide hit, miss or hard error for a candidate cache
//! file, applying TTL-based expiry.
//!
//! The caller probes the file (open, metadata, elapsed time since creation)
//! and reports what it found as a plain [`CacheProbe`]; the decision is
//! verified here. On [`CacheDecision::MissExpired`] the caller deletes the
//! stale file (best effort) before fetching afresh, so validation is not
//! read-only.

use vstd::prelude::*;

verus! {

/// What probing the cache file found.
#[derive(Clone, Copy, Debug)]
pub enum CacheProbe {
    /// The file does not exist.
    NotFound,
    /// Opening the file or reading its metadata failed for another reason.
    IoError,
    /// The file exists and holds `len` bytes; `age_ms` is the elapsed time
    /// since its creation in whole milliseconds, or `None` where the clock
    /// could not measure an elapsed time.
    Found { len: u64, age_ms: Option<u64> },
}

/// The validator's verdict on a cache file.
#[derive(Clone, Copy, Debug)]
pub enum CacheDecision {
    /// A fresh file of `len` bytes exists: serve it directly.
    Hit { len: u64 },
    /// No file exists: fetch from the origin.
    MissNotFound,
    /// A file exists but is older than the TTL: delete it, then fetch
    /// from the origin.
    MissExpired,
    /// The file could not be inspected: fail the request, fetch nothing.
    Error,
}

/// The validation rule: a missing file is a plain miss, an unreadable file
/// is a hard error, a file strictly older than the TTL is an expired miss,
/// and any other file is a hit. A file whose age could not be measured is
/// treated as fresh.
pub open spec fn spec_validate_cache(probe: CacheProbe, ttl_ms: u64) -> CacheDecision {
    match probe {
        CacheProbe::NotFound => CacheDecision::MissNotFound,
        CacheProbe::IoError => CacheDecision::Error,
        CacheProbe::Found { len, age_ms } => match age_ms {
            Some(a) => if a > ttl_ms {
                CacheDecision::MissExpired
            } else {
                CacheDecision::Hit { len }
            },
            None => CacheDecision::Hit { len },
        },
    }
}

/// Decide hit, miss or error for a probed cache file under the given TTL.
pub fn validate_cache(probe: &CacheProbe, ttl_ms: u64) -> (d: CacheDecision)
    ensures
        d == spec_validate_cache(*probe, ttl_ms),
{
    match probe {
        CacheProbe::NotFound => CacheDecision::MissNotFound,
        CacheProbe::IoError => CacheDecision::Error,
        CacheProbe::Found { len, age_ms } => match age_ms {
            Some(a) => if *a > ttl_ms {
                CacheDecision::MissExpired
            } else {
                CacheDecision::Hit { len: *len }
            },
            None => CacheDecision::Hit { len: *len },
        },
    }
}

/// The validator never reports a hit for a file older than the TTL: such a
/// file is reported as an expired miss, which makes the caller delete it
/// before fetching afresh.
pub proof fn lemma_no_hit_for_stale_file(probe: CacheProbe, ttl_ms: u64)
    requires
        probe matches CacheProbe::Found { age_ms, .. } && age_ms matches Some(a) && a > ttl_ms,
    ensures
        spec_validate_cache(probe, ttl_ms) is MissExpired,
{
}

} // verus!
