//! Live posture counters: records processed, signals found, parse quality and the per-tick pulse.

use vstd::prelude::*;
use crate::models::ParsingQuality;
use crate::text::owned;
use crate::time::{Timestamp, seconds_between, secs_between};

verus! {

/// The number of ticks the pulse history keeps.
pub const PULSE_WINDOW: usize = 60;

/// Counters of the sentinel, and the records processed in each of the last sixty ticks.
pub struct PostureMonitor {
    total_processed: u64,
    signals_found: u64,
    sources_active: usize,
    start_time: Timestamp,
    lines_skipped: u64,
    timestamp_fallbacks: u64,
    status_message: String,
    pulse_history: Vec<u64>,
    last_count: u64,
}

/// The monitor's state: (processed, signals, active sources, lines skipped, timestamp fallbacks,
/// status message, pulse history oldest first, processed count at the last tick).
pub type PostureView = (u64, u64, usize, u64, u64, Seq<char>, Seq<u64>, u64);

impl View for PostureMonitor {
    type V = (u64, u64, usize, u64, u64, Seq<char>, Seq<u64>, u64);

    closed spec fn view(&self) -> (u64, u64, usize, u64, u64, Seq<char>, Seq<u64>, u64) {
        (self.total_processed, self.signals_found, self.sources_active, self.lines_skipped,
            self.timestamp_fallbacks, self.status_message@, self.pulse_history@, self.last_count)
    }
}

/// What a snapshot of the monitor reports (the success rate is a ratio the caller computes from
/// the processed and skipped counts).
#[derive(Debug)]
pub struct PostureSnapshot {
    pub total_processed: u64,
    pub signals_found: u64,
    pub sources_active: usize,
    pub uptime_secs: u64,
    pub eps: u64,
    pub pulse_data: Vec<u64>,
    pub status: String,
    pub lines_skipped: u64,
    pub timestamp_fallbacks: u64,
}

/// `a + b` wrapping around, as an atomic `fetch_add` does.
pub open spec fn wrap_add(a: u64, b: u64) -> u64 {
    (if a + b <= 18446744073709551615 { a + b } else { a + b - 18446744073709551616 }) as u64
}

pub open spec fn wrap_add_usize(a: usize, b: usize) -> usize {
    (if a + b <= usize::MAX { a + b } else { a + b - usize::MAX - 1 }) as usize
}

/// The monitor's state after counting a line of quality `q`: a success is processed, a timestamp
/// fallback is processed and counted as a fallback, a malformed line is skipped; a degraded line
/// changes no counter. Counters wrap around at the `u64` limit.
pub open spec fn quality_step(v: PostureView, q: ParsingQuality) -> PostureView {
    match q {
        ParsingQuality::Success => (wrap_add(v.0, 1), v.1, v.2, v.3, v.4, v.5, v.6, v.7),
        ParsingQuality::PartialTimestamp => (wrap_add(v.0, 1), v.1, v.2, v.3, wrap_add(v.4, 1), v.5, v.6, v.7),
        ParsingQuality::Malformed => (v.0, v.1, v.2, wrap_add(v.3, 1), v.4, v.5, v.6, v.7),
        ParsingQuality::Degraded => v,
    }
}

/// One operation of the monitor as it bears on the processed and fallback counts: counting a line
/// of some quality, or any other operation, which leaves both counts as they were.
pub open spec fn monitor_step(a: PostureView, b: PostureView) -> bool {
    (exists|q: ParsingQuality| b == #[trigger] quality_step(a, q)) || (b.0 == a.0 && b.4 == a.4)
}

/// The `i`-th state of a run follows from the one before it by one operation.
pub open spec fn stepped(vs: Seq<PostureView>, i: int) -> bool {
    monitor_step(vs[i - 1], vs[i])
}

/// Whole seconds since the start, never negative (`Instant::elapsed().as_secs()`).
pub open spec fn uptime(start: Timestamp, now: Timestamp) -> int {
    if seconds_between(now, start) < 0 { 0 } else { seconds_between(now, start) }
}

impl PostureMonitor {
    #[verifier::type_invariant]
    closed spec fn inv(&self) -> bool {
        self.pulse_history@.len() == 60
    }

    /// When the monitor started.
    pub closed spec fn started(&self) -> Timestamp {
        self.start_time
    }

    /// A monitor started at `start`: zero counters, "Sentinel Live", sixty empty ticks.
    pub fn new(start: Timestamp) -> (m: PostureMonitor)
        ensures
            m@ == (0u64, 0u64, 0usize, 0u64, 0u64, "Sentinel Live"@, Seq::new(60, |i: int| 0u64), 0u64),
            m.started() == start,
    {
        let mut history: Vec<u64> = Vec::new();
        let mut i: usize = 0;
        while i < PULSE_WINDOW
            invariant
                0 <= i <= 60,
                history@ == Seq::new(i as nat, |j: int| 0u64),
            decreases 60 - i,
        {
            history.push(0);
            i += 1;
            assert(history@ =~= Seq::new(i as nat, |j: int| 0u64));
        }
        PostureMonitor {
            total_processed: 0,
            signals_found: 0,
            sources_active: 0,
            start_time: start,
            lines_skipped: 0,
            timestamp_fallbacks: 0,
            status_message: owned("Sentinel Live"),
            pulse_history: history,
            last_count: 0,
        }
    }

    /// Counts a parsed line by its quality: a success is processed, a timestamp fallback is
    /// processed and counted as a fallback, a malformed line is skipped; a degraded line changes
    /// no counter.
    pub fn record_quality(&mut self, quality: &ParsingQuality)
        ensures
            final(self)@ == quality_step(old(self)@, *quality),
            final(self).started() == old(self).started(),
    {
        proof { use_type_invariant(&*self); }
        match quality {
            ParsingQuality::Success => {
                self.total_processed = self.total_processed.wrapping_add(1);
            }
            ParsingQuality::PartialTimestamp => {
                self.total_processed = self.total_processed.wrapping_add(1);
                self.timestamp_fallbacks = self.timestamp_fallbacks.wrapping_add(1);
            }
            ParsingQuality::Malformed => {
                self.lines_skipped = self.lines_skipped.wrapping_add(1);
            }
            ParsingQuality::Degraded => {}
        }
    }

    /// Adds `count` signals.
    pub fn increment_signals(&mut self, count: u64)
        ensures
            final(self)@ == (old(self)@.0, wrap_add(old(self)@.1, count), old(self)@.2, old(self)@.3, old(self)@.4,
                old(self)@.5, old(self)@.6, old(self)@.7),
            final(self).started() == old(self).started(),
    {
        proof { use_type_invariant(&*self); }
        self.signals_found = self.signals_found.wrapping_add(count);
    }

    /// Adds `count` active sources.
    pub fn increment_sources(&mut self, count: usize)
        ensures
            final(self)@ == (old(self)@.0, old(self)@.1, wrap_add_usize(old(self)@.2, count), old(self)@.3,
                old(self)@.4, old(self)@.5, old(self)@.6, old(self)@.7),
            final(self).started() == old(self).started(),
    {
        proof { use_type_invariant(&*self); }
        self.sources_active = self.sources_active.wrapping_add(count);
    }

    /// Sets the status message.
    pub fn set_status(&mut self, msg: String)
        ensures
            final(self)@ == (old(self)@.0, old(self)@.1, old(self)@.2, old(self)@.3, old(self)@.4, msg@,
                old(self)@.6, old(self)@.7),
            final(self).started() == old(self).started(),
    {
        proof { use_type_invariant(&*self); }
        self.status_message = msg;
    }

    /// Reports that the catch-up read is complete.
    pub fn mark_caught_up(&mut self)
        ensures
            final(self)@ == (old(self)@.0, old(self)@.1, old(self)@.2, old(self)@.3, old(self)@.4,
                "🏁 Catch-up Complete. Tailing..."@, old(self)@.6, old(self)@.7),
            final(self).started() == old(self).started(),
    {
        proof { use_type_invariant(&*self); }
        self.status_message = owned("🏁 Catch-up Complete. Tailing...");
    }

    /// Ends a tick: the records processed since the last tick enter the pulse history, whose
    /// oldest tick leaves.
    pub fn tick(&mut self)
        ensures
            final(self)@ == (old(self)@.0, old(self)@.1, old(self)@.2, old(self)@.3, old(self)@.4, old(self)@.5,
                old(self)@.6.drop_first().push(
                    (if old(self)@.0 >= old(self)@.7 { old(self)@.0 - old(self)@.7 } else { 0 }) as u64),
                old(self)@.0),
            final(self)@.6.len() == 60,
            final(self).started() == old(self).started(),
    {
        proof { use_type_invariant(&*self); }
        let current = self.total_processed;
        let last = self.last_count;
        let processed = current.saturating_sub(last);
        let mut history: Vec<u64> = Vec::new();
        let mut i: usize = 1;
        while i < self.pulse_history.len()
            invariant
                1 <= i <= 60,
                self.pulse_history@.len() == 60,
                history@ == self.pulse_history@.subrange(1, i as int),
            decreases 60 - i,
        {
            history.push(self.pulse_history[i]);
            i += 1;
            assert(history@ =~= self.pulse_history@.subrange(1, i as int));
        }
        history.push(processed);
        assert(history@ =~= self.pulse_history@.drop_first().push(processed));
        let status = owned(self.status_message.as_str());
        *self = PostureMonitor {
            total_processed: current,
            signals_found: self.signals_found,
            sources_active: self.sources_active,
            start_time: self.start_time,
            lines_skipped: self.lines_skipped,
            timestamp_fallbacks: self.timestamp_fallbacks,
            status_message: status,
            pulse_history: history,
            last_count: current,
        };
    }

    /// The counters at `now`: uptime in whole seconds and events per second over it.
    pub fn get_snapshot(&self, now: Timestamp) -> (s: PostureSnapshot)
        ensures
            s.total_processed == self@.0,
            s.signals_found == self@.1,
            s.sources_active == self@.2,
            s.lines_skipped == self@.3,
            s.timestamp_fallbacks == self@.4,
            s.status@ == self@.5,
            s.pulse_data@ == self@.6,
            s.uptime_secs == (if uptime(self.started(), now) <= 18446744073709551615 { uptime(self.started(), now) } else { 18446744073709551615 }),
            s.eps == (if s.uptime_secs > 0 { self@.0 / s.uptime_secs } else { 0 }),
    {
        let secs = secs_between(&now, &self.start_time);
        let up: u64 = if secs < 0 { 0 } else if secs > 18446744073709551615i128 { 18446744073709551615u64 } else { secs as u64 };
        let eps = if up > 0 { self.total_processed / up } else { 0 };
        let mut pulse: Vec<u64> = Vec::new();
        let mut i: usize = 0;
        while i < self.pulse_history.len()
            invariant
                0 <= i <= self.pulse_history@.len(),
                pulse@ == self.pulse_history@.subrange(0, i as int),
            decreases self.pulse_history@.len() - i,
        {
            pulse.push(self.pulse_history[i]);
            i += 1;
            assert(pulse@ =~= self.pulse_history@.subrange(0, i as int));
        }
        assert(pulse@ =~= self.pulse_history@);
        PostureSnapshot {
            total_processed: self.total_processed,
            signals_found: self.signals_found,
            sources_active: self.sources_active,
            uptime_secs: up,
            eps,
            pulse_data: pulse,
            status: owned(self.status_message.as_str()),
            lines_skipped: self.lines_skipped,
            timestamp_fallbacks: self.timestamp_fallbacks,
        }
    }
}

/// In a run of operations from a fresh monitor that counts fewer lines than the `u64` limit, the
/// timestamp fallbacks never exceed the processed lines, and the processed lines never exceed the
/// number of operations.
pub proof fn law_fallbacks_within_processed(vs: Seq<PostureView>)
    requires
        vs.len() >= 1,
        vs[0].0 == 0 && vs[0].4 == 0,
        vs.len() <= u64::MAX,
        forall|i: int| 0 < i < vs.len() ==> #[trigger] stepped(vs, i),
    ensures
        forall|i: int| 0 <= i < vs.len() ==> (#[trigger] vs[i]).4 <= vs[i].0 && vs[i].0 <= i,
    decreases vs.len(),
{
    if vs.len() > 1 {
        let p = vs.drop_last();
        assert forall|i: int| 0 < i < p.len() implies #[trigger] stepped(p, i) by {
            assert(stepped(vs, i));
        }
        law_fallbacks_within_processed(p);
        let n = vs.len() - 1;
        assert(stepped(vs, n));
        assert(p[n - 1] == vs[n - 1]);
        assert(vs[n - 1].4 <= vs[n - 1].0 && vs[n - 1].0 <= n - 1);
        assert forall|i: int| 0 <= i < vs.len() implies (#[trigger] vs[i]).4 <= vs[i].0 && vs[i].0 <= i by {
            if i < n {
                assert(p[i] == vs[i]);
            }
        }
    }
}

/// The pulse history keeps exactly sixty ticks, whatever is recorded or ticked.
pub proof fn law_pulse_window(history: Seq<u64>, processed: u64)
    requires
        history.len() == 60,
    ensures
        history.drop_first().push(processed).len() == 60,
{
}

} // verus!
