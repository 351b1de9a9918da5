use vstd::prelude::*;

use crate::types::{ClaimKey, ErrorCode, RewardState, RewardStateView};

verus! {

/// Largest amount a single claim may request.
pub const MAX_REWARD_AMOUNT: u64 = 1000;

/// Largest amount one participant may receive within one calendar day.
pub const MAX_DAILY_REWARDS: u64 = 5000;

/// Largest age, in seconds, of a claim's timestamp at processing time.
pub const MAX_DATA_AGE: i64 = 300;

/// Length of a calendar day in seconds.
pub const SECONDS_PER_DAY: i64 = 86400;

/// One token in this many issued is burned.
pub const BURN_DIVISOR: u64 = 100;

/// The calendar day of epoch time `t`: `floor(t / 86400)`.
pub open spec fn day_of(t: i64) -> int {
    t as int / SECONDS_PER_DAY as int
}

/// A claim stamped `timestamp` is too old to be processed at `current_time`.
pub open spec fn is_stale(timestamp: i64, current_time: i64) -> bool {
    current_time - timestamp > MAX_DATA_AGE
}

/// The claim `key` is one the participant already had accepted within the
/// freshness window.
pub open spec fn is_replay(state: RewardStateView, key: ClaimKey) -> bool {
    state.recent_claims.contains(key)
}

/// The claims of `claims`, in order, that are not stale at `current_time`.
pub open spec fn fresh_claims(claims: Seq<ClaimKey>, current_time: i64) -> Seq<ClaimKey>
    decreases claims.len(),
{
    if claims.len() == 0 {
        Seq::empty()
    } else {
        let rest = fresh_claims(claims.drop_last(), current_time);
        if is_stale(claims.last().timestamp, current_time) {
            rest
        } else {
            rest.push(claims.last())
        }
    }
}

/// The participant's day total after admitting `amount` at `current_time`,
/// or `None` when the daily cap would be exceeded.
pub open spec fn admitted(state: RewardStateView, amount: u64, current_time: i64) -> Option<u64> {
    if day_of(state.last_claim) == day_of(current_time) {
        if state.daily_claimed + amount <= MAX_DAILY_REWARDS {
            Some((state.daily_claimed + amount) as u64)
        } else {
            None
        }
    } else {
        Some(amount)
    }
}

/// The calendar day of `t`, rounding down for times before the epoch.
pub fn calendar_day(t: i64) -> (r: i64)
    ensures
        r == day_of(t),
{
    match t.checked_div_euclid(SECONDS_PER_DAY) {
        Some(d) => d,
        None => 0,
    }
}

/// Rejects a claim whose timestamp is more than `MAX_DATA_AGE` seconds
/// before `current_time`; timestamps ahead of the clock are fresh.
pub fn check_fresh(timestamp: i64, current_time: i64) -> (r: Result<(), ErrorCode>)
    ensures
        r == (if is_stale(timestamp, current_time) {
            Err::<(), ErrorCode>(ErrorCode::StaleData)
        } else {
            Ok(())
        }),
{
    let age: i128 = current_time as i128 - timestamp as i128;
    if age > MAX_DATA_AGE as i128 {
        Err(ErrorCode::StaleData)
    } else {
        Ok(())
    }
}

/// Rejects the claim `key` when the participant already had it accepted
/// within the freshness window.
pub fn check_not_replayed(state: &RewardState, key: ClaimKey) -> (r: Result<(), ErrorCode>)
    ensures
        r == (if is_replay(state@, key) {
            Err::<(), ErrorCode>(ErrorCode::ReplayedClaim)
        } else {
            Ok(())
        }),
{
    let mut i: usize = 0;
    while i < state.recent_claims.len()
        invariant
            i <= state.recent_claims@.len(),
            forall|j: int| 0 <= j < i ==> state.recent_claims@[j] != key,
        decreases state.recent_claims@.len() - i,
    {
        if state.recent_claims[i] == key {
            return Err(ErrorCode::ReplayedClaim);
        }
        i = i + 1;
    }
    Ok(())
}

/// The accepted-claims list after accepting `key` at `current_time`: the
/// entries that are still fresh, in order, followed by `key`.
pub fn record_claim(claims: &Vec<ClaimKey>, key: ClaimKey, current_time: i64) -> (r: Vec<ClaimKey>)
    ensures
        r@ == fresh_claims(claims@, current_time).push(key),
{
    let mut kept: Vec<ClaimKey> = Vec::new();
    let mut i: usize = 0;
    while i < claims.len()
        invariant
            i <= claims@.len(),
            kept@ == fresh_claims(claims@.subrange(0, i as int), current_time),
        decreases claims@.len() - i,
    {
        let entry = claims[i];
        proof {
            let prefix = claims@.subrange(0, i + 1);
            assert(prefix.drop_last() =~= claims@.subrange(0, i as int));
            assert(prefix.last() == entry);
        }
        if check_fresh(entry.timestamp, current_time).is_ok() {
            kept.push(entry);
        }
        i = i + 1;
    }
    assert(claims@.subrange(0, claims@.len() as int) =~= claims@);
    kept.push(key);
    kept
}

/// Counts `amount` against the participant's daily quota at `current_time`
/// and returns the new day total. On the same calendar day as the last claim
/// the running total must stay within `MAX_DAILY_REWARDS`; on a new day the
/// total restarts at `amount`.
pub fn apply_daily_limit(state: &RewardState, amount: u64, current_time: i64) -> (r: Result<u64, ErrorCode>)
    ensures
        r == (match admitted(state@, amount, current_time) {
            Some(total) => Ok(total),
            None => Err(ErrorCode::DailyLimitExceeded),
        }),
{
    if calendar_day(state.last_claim) == calendar_day(current_time) {
        if state.daily_claimed <= MAX_DAILY_REWARDS && amount <= MAX_DAILY_REWARDS
            - state.daily_claimed {
            Ok(state.daily_claimed + amount)
        } else {
            Err(ErrorCode::DailyLimitExceeded)
        }
    } else {
        Ok(amount)
    }
}

/// The part of an issuance that is burned: `amount / 100`, rounded down.
pub fn burn_amount(amount: u64) -> (r: u64)
    ensures
        r == amount / BURN_DIVISOR,
        r <= amount,
{
    amount / BURN_DIVISOR
}

} // verus!
