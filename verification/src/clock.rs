//! The system clock, read as whole numbers since the Unix epoch.

use vstd::prelude::*;

verus! {

/// Reads the system clock through `SystemTime::elapsed` of the standard
/// library, taken on the Unix epoch: `Ok` with the milliseconds that have
/// passed since the epoch, or `Err` with the milliseconds by which the
/// clock stands before it. Nothing is claimed of the reading.
#[verifier::external_body]
fn epoch_offset_millis() -> (offset: Result<u128, u128>) {
    match std::time::UNIX_EPOCH.elapsed() {
        Ok(since) => Ok(since.as_millis()),
        Err(before) => Err(before.duration().as_millis()),
    }
}

/// The instant of a clock reading in milliseconds since the Unix epoch.
/// A reading is `Ok` with the milliseconds since the epoch or `Err` for a
/// clock that stands before it. There is no instant for a clock before
/// the epoch, and none for more milliseconds than an `i64` holds.
pub open spec fn millis_since_epoch(reading: Result<u128, u128>) -> Option<i64> {
    match reading {
        Ok(ms) => if ms <= i64::MAX {
            Some(ms as i64)
        } else {
            None
        },
        Err(_) => None,
    }
}

/// The instant of a clock reading in whole seconds since the Unix epoch,
/// rounded down. There is no instant for a clock before the epoch, and
/// none for more seconds than an `i64` holds.
pub open spec fn secs_since_epoch(reading: Result<u128, u128>) -> Option<i64> {
    match reading {
        Ok(ms) => if ms / 1000 <= i64::MAX {
            Some((ms / 1000) as i64)
        } else {
            None
        },
        Err(_) => None,
    }
}

/// Turns a clock reading into milliseconds since the epoch.
pub fn millis_of(reading: Result<u128, u128>) -> (ms: Option<i64>)
    ensures
        ms == millis_since_epoch(reading),
{
    match reading {
        Ok(ms) => if ms <= i64::MAX as u128 {
            Some(ms as i64)
        } else {
            None
        },
        Err(_) => None,
    }
}

/// Turns a clock reading into whole seconds since the epoch.
pub fn secs_of(reading: Result<u128, u128>) -> (secs: Option<i64>)
    ensures
        secs == secs_since_epoch(reading),
{
    match reading {
        Ok(ms) => {
            let whole = ms / 1000;
            if whole <= i64::MAX as u128 {
                Some(whole as i64)
            } else {
                None
            }
        },
        Err(_) => None,
    }
}

/// The current time in milliseconds since the Unix epoch; `None` where
/// the clock stands before the epoch or beyond what an `i64` holds.
pub fn now_millis() -> (ms: Option<i64>)
    ensures
        ms matches Some(t) ==> t >= 0,
{
    millis_of(epoch_offset_millis())
}

/// The current time in whole seconds since the Unix epoch; `None` where
/// the clock stands before the epoch or beyond what an `i64` holds.
pub fn now_secs() -> (secs: Option<i64>)
    ensures
        secs matches Some(s) ==> s >= 0,
{
    secs_of(epoch_offset_millis())
}

} // verus!
