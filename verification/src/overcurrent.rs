//! The watch on the motor current.

use crate::signals::{Pending, Signals};
use vstd::prelude::*;

verus! {

/// The raw converter reading from which on the current is too high.
pub const OVERCURRENT_THRESHOLD: u16 = 1024;

/// The time between two readings.
pub const OVERCURRENT_PERIOD_MS: u64 = 100;

/// Whether a reading counts as too much current. A reading that failed does not.
pub open spec fn too_high(reading: Option<u16>) -> bool {
    reading matches Some(value) && value >= OVERCURRENT_THRESHOLD
}

/// Looks at one reading of the converter, `None` where it could not be read, and
/// raises the overcurrent signal where it is too high; the result says so.
pub fn check_current(reading: Option<u16>, signals: &mut Signals) -> (raised: bool)
    ensures
        raised == too_high(reading),
        raised == (reading is Some && reading->0 >= 1024),
        final(signals)@ == (if raised {
            Pending { overcurrent: true, ..old(signals)@ }
        } else {
            old(signals)@
        }),
{
    if let Some(value) = reading {
        if value >= OVERCURRENT_THRESHOLD {
            signals.raise_overcurrent();
            return true;
        }
    }
    false
}

/// A reading is too high from 1024 on and not below; a missing one never is.
pub proof fn law_threshold(value: u16)
    ensures
        value >= 1024 ==> too_high(Some(value)),
        value < 1024 ==> !too_high(Some(value)),
        !too_high(None),
{
}

/// Where a reading is too high, every larger one is too.
pub proof fn law_larger_is_no_better(value: u16, larger: u16)
    requires
        value <= larger,
        too_high(Some(value)),
    ensures
        too_high(Some(larger)),
{
}

/// Ten readings are taken a second.
pub proof fn law_watch_timing()
    ensures
        OVERCURRENT_PERIOD_MS == 100,
{
}

} // verus!
