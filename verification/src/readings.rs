//! Subsampling of the stored readings of a brew: recent readings are served
//! at full resolution, older ones progressively thinned.
use crate::state::{brewing, is_brewing, BrewPhase};
use vstd::prelude::*;

verus! {

/// Readings younger than this many seconds are all kept.
pub const FULL_RESOLUTION_AGE: u64 = 600;

/// Readings younger than this many seconds (and not younger than
/// `FULL_RESOLUTION_AGE`) are kept every `MEDIUM_INTERVAL` seconds.
pub const MEDIUM_RESOLUTION_AGE: u64 = 3600;

/// Sample interval, in seconds, of the medium tier.
pub const MEDIUM_INTERVAL: u64 = 10;

/// Sample interval, in seconds, of readings older than an hour.
pub const COARSE_INTERVAL: u64 = 60;

/// The age of a reading taken at `timestamp` when the latest reading is at
/// `latest`; zero for readings newer than the latest.
pub open spec fn age(timestamp: u64, latest: u64) -> int {
    if latest >= timestamp {
        latest - timestamp
    } else {
        0
    }
}

/// Whether a reading taken at `timestamp` is kept when the latest one is at
/// `latest`: every reading of the last ten minutes, one every ten seconds up
/// to an hour, and one a minute beyond that (the age `u64::MAX` falls in no
/// tier).
pub open spec fn keeps(timestamp: u64, latest: u64) -> bool {
    let a = age(timestamp, latest);
    if a < FULL_RESOLUTION_AGE {
        true
    } else if a < MEDIUM_RESOLUTION_AGE {
        timestamp % MEDIUM_INTERVAL == 0
    } else if a < u64::MAX {
        timestamp % COARSE_INTERVAL == 0
    } else {
        false
    }
}

/// Keep a point if its timestamp aligns with the sample interval of its age
/// tier.
pub fn should_keep(timestamp: u64, latest: u64) -> (r: bool)
    ensures
        r == keeps(timestamp, latest),
{
    let age = latest.saturating_sub(timestamp);
    if age < FULL_RESOLUTION_AGE {
        timestamp % 1 == 0
    } else if age < MEDIUM_RESOLUTION_AGE {
        timestamp % MEDIUM_INTERVAL == 0
    } else if age < u64::MAX {
        timestamp % COARSE_INTERVAL == 0
    } else {
        false
    }
}

/// The latest time stamp of a brew's readings, ordered by time: that of the
/// last reading, or zero when there is none.
pub open spec fn latest_of(timestamps: Seq<u64>) -> u64 {
    if timestamps.len() == 0 {
        0
    } else {
        timestamps.last()
    }
}

/// Which of the stored readings of the latest brew, given by their time
/// stamps in time order, are served: none when no brew is under way, else
/// those that `keeps` selects against the last reading.
pub fn readings_to_serve(current_phase: BrewPhase, timestamps: &Vec<u64>) -> (mask: Vec<bool>)
    ensures
        mask@.len() == timestamps@.len(),
        forall|i: int|
            0 <= i < timestamps@.len() ==> #[trigger] mask@[i] == (brewing(current_phase)
                && keeps(timestamps@[i], latest_of(timestamps@))),
{
    let brewing_now = is_brewing(current_phase);
    let n = timestamps.len();
    let latest = if n == 0 {
        0
    } else {
        timestamps[n - 1]
    };
    let mut mask: Vec<bool> = Vec::new();
    for i in 0..n
        invariant
            n == timestamps@.len(),
            latest == latest_of(timestamps@),
            brewing_now == brewing(current_phase),
            mask@.len() == i,
            forall|j: int|
                0 <= j < i ==> #[trigger] mask@[j] == (brewing(current_phase) && keeps(
                    timestamps@[j],
                    latest,
                )),
    {
        let keep = brewing_now && should_keep(timestamps[i], latest);
        mask.push(keep);
    }
    mask
}

/// The newest readings are served in full: a reading less than ten minutes
/// older than the latest is always kept, the latest one included.
pub proof fn law_recent_readings_kept(timestamp: u64, latest: u64)
    ensures
        age(timestamp, latest) < FULL_RESOLUTION_AGE ==> keeps(timestamp, latest),
        keeps(latest, latest),
{
}

/// Thinning only removes: a reading kept against a later latest reading is
/// also kept against an earlier one.
pub proof fn law_thinning_monotone(timestamp: u64, earlier: u64, later: u64)
    requires
        earlier <= later,
        keeps(timestamp, later),
    ensures
        keeps(timestamp, earlier),
{
    let t = timestamp as int;
    if t % 60 == 0 {
        assert(t % 10 == 0) by (nonlinear_arith)
            requires
                t % 60 == 0,
        {
            assert(t == 60 * (t / 60));
            assert(t == 10 * (6 * (t / 60)));
        }
    }
}

/// A reading kept an hour or more after it was taken lies on a whole minute,
/// one kept after ten minutes on a multiple of ten seconds.
pub proof fn law_old_readings_aligned(timestamp: u64, latest: u64)
    requires
        keeps(timestamp, latest),
    ensures
        age(timestamp, latest) >= MEDIUM_RESOLUTION_AGE ==> timestamp % COARSE_INTERVAL == 0,
        age(timestamp, latest) >= FULL_RESOLUTION_AGE ==> timestamp % MEDIUM_INTERVAL == 0,
{
    let t = timestamp as int;
    if t % 60 == 0 {
        assert(t % 10 == 0) by (nonlinear_arith)
            requires
                t % 60 == 0,
        {
            assert(t == 60 * (t / 60));
            assert(t == 10 * (6 * (t / 60)));
        }
    }
}


/// Every reading on its tier's grid is kept: all readings of the last ten
/// minutes, every reading up to an hour old that lies on a multiple of ten
/// seconds, and every older one that lies on a whole minute.
pub proof fn law_aligned_readings_kept(timestamp: u64, latest: u64)
    ensures
        age(timestamp, latest) < FULL_RESOLUTION_AGE ==> keeps(timestamp, latest),
        FULL_RESOLUTION_AGE <= age(timestamp, latest) < MEDIUM_RESOLUTION_AGE && timestamp
            % MEDIUM_INTERVAL == 0 ==> keeps(timestamp, latest),
        MEDIUM_RESOLUTION_AGE <= age(timestamp, latest) < u64::MAX && timestamp % COARSE_INTERVAL
            == 0 ==> keeps(timestamp, latest),
{
}

/// The tiers: ten minutes of full resolution, ten-second steps up to an
/// hour, and one-minute steps beyond; a reading's age is how much older it
/// is than the latest one, and zero for one that is newer.
pub proof fn law_tier_bounds(timestamp: u64, latest: u64)
    ensures
        FULL_RESOLUTION_AGE == 600,
        MEDIUM_RESOLUTION_AGE == 3600,
        MEDIUM_INTERVAL == 10,
        COARSE_INTERVAL == 60,
        latest >= timestamp ==> (age(timestamp, latest) == latest - timestamp),
        latest < timestamp ==> (age(timestamp, latest) == 0),
{
}

/// The latest reading of a brew is its last one, in time order.
pub proof fn law_latest_is_last(timestamps: Seq<u64>)
    ensures
        timestamps.len() > 0 ==> (latest_of(timestamps) == timestamps[timestamps.len() - 1]),
{
}

} // verus!
