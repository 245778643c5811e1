use vstd::prelude::*;
use crate::types::Error;

verus! {

/// Whether data last updated at `last_update` is too old at `now` to act on.
pub open spec fn is_stale(now: u64, last_update: u64, max_staleness: u64) -> bool {
    now - last_update > max_staleness
}

/// Whether the oracle may publish data stamped `timestamp` at `now`, after
/// its last update at `last_update`: never from the future, and strictly
/// later than what it published before.
pub open spec fn timestamp_accepted(timestamp: u64, now: u64, last_update: u64) -> bool {
    timestamp <= now && timestamp > last_update
}

/// Whether data last updated at `last_update` may still be acted on at `now`.
pub fn oracle_is_fresh(now: u64, last_update: u64, max_staleness: u64) -> (r: bool)
    ensures
        r == !is_stale(now, last_update, max_staleness),
{
    match last_update.checked_add(max_staleness) {
        None => true,
        Some(limit) => now <= limit,
    }
}

/// Checks the timestamp of an oracle update.
pub fn check_oracle_timestamp(timestamp: u64, now: u64, last_update: u64) -> (r: Result<(), Error>)
    ensures
        r == (if timestamp_accepted(timestamp, now, last_update) {
            Ok(())
        } else {
            Err(Error::InvalidTimestamp)
        }),
{
    if timestamp > now {
        return Err(Error::InvalidTimestamp);
    }
    if timestamp <= last_update {
        return Err(Error::InvalidTimestamp);
    }
    Ok(())
}

} // verus!
