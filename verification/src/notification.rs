//! Desktop alerts: the cooldown that keeps them from flooding the user, and their texts.

use vstd::prelude::*;
use crate::num::u64_to_string;
use crate::text::{concat, decimal};

verus! {

/// Seconds that must pass between two alerts.
pub const COOLDOWN_SECS: u64 = 5;

/// Alert decisions; the toast itself is shown by the caller.
pub struct NotificationEngine;

/// An alert at `now` when the last one was shown at `last`: the new last alert time, and whether
/// the alert is shown (at least five seconds after the last one).
pub open spec fn alert_step(last: u64, now: u64) -> (u64, bool) {
    if now >= last + 5 { (now, true) } else { (last, false) }
}

impl NotificationEngine {
    /// Whether an alert may be shown at `now` (seconds since the epoch) when the last one was shown
    /// at `last`: at least five seconds later. When it may, `now` becomes the last alert time.
    pub fn can_notify(last: u64, now: u64) -> (allowed: bool)
        requires
            last + COOLDOWN_SECS <= u64::MAX,
        ensures
            allowed == alert_step(last, now).1,
    {
        now >= last + COOLDOWN_SECS
    }

    /// The first line of the summary alert for a batch.
    pub fn summary_text(count: usize) -> (s: String)
        ensures
            s@ == "Detected "@ + decimal(count as nat) + " security violations in the recent batch."@,
    {
        let n = u64_to_string(count as u64);
        let a = concat("Detected ", n.as_str());
        concat(a.as_str(), " security violations in the recent batch.")
    }
}

/// Two alerts are never shown less than five seconds apart: once an alert is shown at `t`, an
/// alert at any `now` before `t + 5` is refused and leaves `t` as the last alert time.
pub proof fn law_cooldown(last: u64, t: u64, now: u64)
    requires
        alert_step(last, t).1,
        t <= now < t + 5,
    ensures
        alert_step(alert_step(last, t).0, now) == (t, false),
{
}

} // verus!
