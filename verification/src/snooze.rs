//! The snooze clock: a single optional absolute deadline.
//!
//! While the current time lies strictly before the deadline, show requests
//! are suppressed. Expiry is lazy: once the current time reaches the
//! deadline the snooze is over, but the stored value persists until the
//! next `set_snooze` or `wake`.

use vstd::prelude::*;

verus! {

/// Holds at most one active snooze deadline, as a millisecond timestamp.
/// Setting a new deadline replaces the old one unconditionally; there is
/// no stacking.
#[verifier::ext_equal]
pub struct SnoozeClock {
    pub deadline: Option<u64>,
}

impl SnoozeClock {
    /// True exactly when a deadline is present and `now` lies strictly
    /// before it. An expired deadline is equivalent to no snooze at all.
    pub open spec fn is_snoozing_at(self, now: u64) -> bool {
        match self.deadline {
            Some(d) => now < d,
            None => false,
        }
    }

    /// A fresh clock: no deadline, so never snoozing.
    pub fn new() -> (r: SnoozeClock)
        ensures
            r == (SnoozeClock { deadline: None }),
    {
        SnoozeClock { deadline: None }
    }

    /// Replaces any existing deadline with `now + duration` (milliseconds).
    /// A zero duration is legal and yields an immediately expired snooze.
    pub fn set_snooze(&mut self, now: u64, duration: u64)
        requires
            now + duration <= u64::MAX,
        ensures
            *final(self) == (SnoozeClock { deadline: Some((now + duration) as u64) }),
    {
        self.deadline = Some(now + duration);
    }

    /// Clears the deadline unconditionally, whatever its value was.
    pub fn wake(&mut self)
        ensures
            *final(self) == (SnoozeClock { deadline: None }),
    {
        self.deadline = None;
    }

    /// Runtime query matching `is_snoozing_at` exactly.
    pub fn is_snoozing(&self, now: u64) -> (r: bool)
        ensures
            r == self.is_snoozing_at(now),
    {
        match self.deadline {
            Some(d) => now < d,
            None => false,
        }
    }
}

} // verus!
