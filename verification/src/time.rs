//! Millisecond time stamps.
use vstd::prelude::*;

verus! {

/// A point in time, or a duration, in milliseconds since the Unix epoch.
#[derive(Copy, Clone, Debug, PartialEq, Eq, PartialOrd, Ord, Hash)]
pub struct TimeStamp(pub u128);

impl TimeStamp {
    /// The sum of two time stamps.
    pub fn add(self, other: TimeStamp) -> (r: TimeStamp)
        requires
            self.0 + other.0 <= u128::MAX,
        ensures
            r.0 == self.0 + other.0,
    {
        TimeStamp(self.0 + other.0)
    }

    /// The difference of two time stamps, the first not being the earlier.
    pub fn sub(self, other: TimeStamp) -> (r: TimeStamp)
        requires
            self.0 >= other.0,
        ensures
            r.0 == self.0 - other.0,
    {
        TimeStamp(self.0 - other.0)
    }

    /// Whether this time stamp is earlier than `other`.
    pub fn before(&self, other: &TimeStamp) -> (r: bool)
        ensures
            r == (self.0 < other.0),
    {
        self.0 < other.0
    }
}

/// The cool-down of a binary actor: after a switch at `switched_at`, the
/// actor may not switch again until `time_out` has passed. Returns the time
/// left at `now`, or `None` when the actor may switch.
pub open spec fn cool_down_left(switched_at: u128, time_out: Option<TimeStamp>, now: u128) -> Option<
    u128,
> {
    let t = match time_out {
        Some(t) => t.0,
        None => 0,
    };
    if now - switched_at < t {
        Some((switched_at + t - now) as u128)
    } else {
        None
    }
}

/// Checks the cool-down of a binary actor that last switched at
/// `switched_at` (not after `now`): `Err` with the time still to wait, or
/// `Ok` when it may switch.
pub fn time_out_check(switched_at: TimeStamp, time_out: Option<TimeStamp>, now: TimeStamp) -> (r:
    Result<(), TimeStamp>)
    requires
        switched_at.0 <= now.0,
    ensures
        match r {
            Ok(()) => cool_down_left(switched_at.0, time_out, now.0) is None,
            Err(left) => cool_down_left(switched_at.0, time_out, now.0) == Some(left.0),
        },
{
    let elapsed = now.sub(switched_at);
    let limit = match time_out {
        Some(t) => t,
        None => TimeStamp(0),
    };
    if elapsed.before(&limit) {
        Err(limit.sub(elapsed))
    } else {
        Ok(())
    }
}


/// The cool-down: with a time-out `t`, an actor that switched `d` ago (`d`
/// less than `t`) must still wait `t - d`, and may switch once `d` reaches
/// `t`; without a time-out it may always switch.
pub proof fn law_cool_down(switched_at: u128, t: u128, now: u128)
    requires
        switched_at <= now,
    ensures
        now - switched_at < t ==> (cool_down_left(switched_at, Some(TimeStamp(t)), now) == Some(
            (t - (now - switched_at)) as u128,
        )),
        now - switched_at >= t ==> (cool_down_left(switched_at, Some(TimeStamp(t)), now)
            == None::<u128>),
        cool_down_left(switched_at, None, now) == None::<u128>,
{
}

} // verus!
