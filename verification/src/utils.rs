//! How long a notice stays on the screen.

use vstd::prelude::*;
use std::time::Duration;

verus! {

/// The two lengths of a notice, so that notices stay consistent.
#[derive(Clone, Copy, Debug, PartialEq, Eq, Structural)]
pub enum NotificationDuration {
    Short,
    Long,
}

/// What `Duration::from_secs` returns: the duration of that many whole
/// seconds.
pub uninterp spec fn duration_of_seconds(secs: u64) -> Duration;

/// `Duration::from_secs`. The result depends on the number alone; the
/// contract gives it its name.
#[verifier::external_body]
fn duration_from_secs(secs: u64) -> (d: Duration)
    ensures
        d == duration_of_seconds(secs),
{
    Duration::from_secs(secs)
}

impl NotificationDuration {
    /// The length in seconds: one for a short notice, two for a long one.
    pub open spec fn spec_seconds(self) -> u64 {
        match self {
            NotificationDuration::Short => 1,
            NotificationDuration::Long => 2,
        }
    }

    /// The length in seconds.
    pub fn seconds(&self) -> (s: u64)
        ensures
            s == self.spec_seconds(),
    {
        match self {
            NotificationDuration::Short => 1,
            NotificationDuration::Long => 2,
        }
    }

    /// The length as a `Duration`: that of one second for a short notice,
    /// of two for a long one.
    pub fn as_duration(&self) -> (d: Duration)
        ensures
            d == duration_of_seconds(self.spec_seconds()),
    {
        duration_from_secs(self.seconds())
    }
}

} // verus!
