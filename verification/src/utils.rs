//! Helpers for thresholds that are taken from the channel value.

use crate::state::{amount_view, RateLimit};
use crate::timestamp::{plus_seconds, Timestamp};
use crate::uint256::{ratio, Uint256};
use vstd::prelude::*;

verus! {

/// The seconds within which the window of a daily quota ends: 24 hours.
pub const DAILY_WINDOW: u64 = 86400;

/// A percentage of the channel value, rounded down; `None` for a
/// percentage above one hundred.
pub fn percentage_of_channel_value(channel_value: Uint256, percentage: u8) -> (r: Option<Uint256>)
    ensures
        r is Some <==> percentage <= 100,
        r matches Some(share) ==> share@ == ratio(channel_value@, percentage as nat, 100),
{
    if percentage > 100 {
        return None;
    }
    Some(channel_value.percent_of(percentage as u32))
}

/// Whether the window of `rule` ends within 24 hours of `now`.
pub open spec fn ends_within_a_day(rule: RateLimit, now: nat) -> bool {
    plus_seconds(now, DAILY_WINDOW as nat) >= rule@.flow.period_end
}

/// Whether the rule at `index` is the first of `rate_limits` whose
/// window ends within 24 hours of `now`.
pub open spec fn first_daily_at(rate_limits: Seq<RateLimit>, index: int, now: nat) -> bool {
    &&& 0 <= index < rate_limits.len()
    &&& ends_within_a_day(rate_limits[index], now)
    &&& forall|j: int| 0 <= j < index ==> !ends_within_a_day(#[trigger] rate_limits[j], now)
}

/// The channel value that the first rule caches whose window ends within
/// 24 hours of `now`; `None` where there is no such rule, or where that
/// rule caches no value.
pub fn parse_first_daily_quota_channel_value(rate_limits: &[RateLimit], now: Timestamp) -> (r:
    Option<Uint256>)
    requires
        now.can_add_seconds(DAILY_WINDOW),
    ensures
        (exists|i: int| first_daily_at(rate_limits@, i, now@)) || (r is None && forall|j: int|
            0 <= j < rate_limits.len() ==> !ends_within_a_day(#[trigger] rate_limits[j], now@)),
        forall|i: int|
            first_daily_at(rate_limits@, i, now@) ==> amount_view(r) == rate_limits[i]@.quota.channel_value,
{
    let horizon = now.plus_seconds(DAILY_WINDOW);
    let mut i: usize = 0;
    while i < rate_limits.len()
        invariant
            i <= rate_limits.len(),
            horizon@ == plus_seconds(now@, DAILY_WINDOW as nat),
            forall|j: int| 0 <= j < i ==> !ends_within_a_day(#[trigger] rate_limits[j], now@),
        decreases rate_limits.len() - i,
    {
        if horizon.ge(&rate_limits[i].flow.period_end) {
            assert(first_daily_at(rate_limits@, i as int, now@));
            return rate_limits[i].quota.channel_value;
        }
        i += 1;
    }
    None
}

} // verus!
