//! The accumulate-and-report cycle at the heart of every wrapper.
//!
//! A sampler counts the bytes of the current window and knows when the
//! window began. Time is a reading of a clock in nanoseconds, handed in with
//! every step, so that what the sampler does is a function of its arguments.

use vstd::prelude::*;
use crate::Bps;
use crate::Interval;
use crate::NANOS_PER_SEC;

verus! {

/// The state of one sampler.
#[derive(Copy, Clone, Debug, PartialEq, Eq, Structural)]
pub struct Sampler {
    /// Bytes seen since the last report.
    pub accumulated: u64,
    /// The clock reading at which the current window began.
    pub window_start: u128,
    /// The least time between two reports.
    pub window: Interval,
}

/// `n`, or the largest `u64` where `n` exceeds it.
pub open spec fn clip(n: int) -> u64
    recommends
        n >= 0,
{
    if n > u64::MAX {
        u64::MAX
    } else {
        n as u64
    }
}

/// Whole bytes per second when `bytes` bytes took `nanos` nanoseconds: the
/// quotient rounded down, and the largest `u64` where it exceeds that.
pub open spec fn rate(bytes: u64, nanos: nat) -> u64
    recommends
        nanos > 0,
{
    clip(bytes * NANOS_PER_SEC / nanos as int)
}

/// The bytes of all `steps` together.
pub open spec fn total_bytes(steps: Seq<(u64, u128)>) -> int
    decreases steps.len(),
{
    if steps.len() == 0 {
        0
    } else {
        total_bytes(steps.drop_last()) + steps.last().0
    }
}

impl Sampler {
    /// The time that the current window has lasted when the clock reads
    /// `now`; zero where the clock reads less than at the window's start.
    pub open spec fn elapsed(self, now: u128) -> nat {
        if now >= self.window_start {
            (now - self.window_start) as nat
        } else {
            0
        }
    }

    /// Whether a step at clock reading `now` closes the window: some time
    /// has passed, and at least the configured window.
    pub open spec fn due(self, now: u128) -> bool {
        self.elapsed(now) > 0 && self.elapsed(now) >= self.window.nanos
    }

    /// What a step of `bytes` bytes at clock reading `now` reports.
    pub open spec fn report(self, bytes: u64, now: u128) -> Option<Bps> {
        if self.due(now) {
            Some(Bps(rate(clip(self.accumulated + bytes), self.elapsed(now))))
        } else {
            None
        }
    }

    /// The sampler after a step of `bytes` bytes at clock reading `now`.
    pub open spec fn after(self, bytes: u64, now: u128) -> Sampler {
        if self.due(now) {
            Sampler { accumulated: 0, window_start: now, window: self.window }
        } else {
            Sampler {
                accumulated: clip(self.accumulated + bytes),
                window_start: self.window_start,
                window: self.window,
            }
        }
    }

    /// The sampler after `steps`, each a byte count and a clock reading, in
    /// order.
    pub open spec fn run(self, steps: Seq<(u64, u128)>) -> Sampler
        decreases steps.len(),
    {
        if steps.len() == 0 {
            self
        } else {
            self.run(steps.drop_last()).after(steps.last().0, steps.last().1)
        }
    }

    /// The rates reported in the course of `steps`, oldest first.
    pub open spec fn reports(self, steps: Seq<(u64, u128)>) -> Seq<Bps>
        decreases steps.len(),
    {
        if steps.len() == 0 {
            Seq::empty()
        } else {
            let before = self.reports(steps.drop_last());
            match self.run(steps.drop_last()).report(steps.last().0, steps.last().1) {
                Some(rate) => before.push(rate),
                None => before,
            }
        }
    }

    /// A sampler with nothing counted, whose first window begins at clock
    /// reading `now`.
    pub fn new(window: Interval, now: u128) -> (sampler: Sampler)
        ensures
            sampler == (Sampler { accumulated: 0, window_start: now, window }),
    {
        Sampler { accumulated: 0, window_start: now, window }
    }

    /// Counts `bytes` bytes at clock reading `now`. Where the window has
    /// lasted its time, returns the rate of all bytes counted in it, these
    /// included, and begins a new window at `now` with nothing counted.
    /// Otherwise returns `None`.
    pub fn record(&mut self, bytes: u64, now: u128) -> (report: Option<Bps>)
        ensures
            *final(self) == old(self).after(bytes, now),
            report == old(self).report(bytes, now),
    {
        let sum: u64 = self.accumulated.saturating_add(bytes);
        let elapsed: u128 = if now >= self.window_start {
            now - self.window_start
        } else {
            0
        };
        if elapsed > 0 && elapsed >= self.window.nanos {
            let per_second: u128 = sum as u128 * NANOS_PER_SEC / elapsed;
            let capped: u64 = if per_second > u64::MAX as u128 {
                u64::MAX
            } else {
                per_second as u64
            };
            self.accumulated = 0;
            self.window_start = now;
            Some(Bps(capped))
        } else {
            self.accumulated = sum;
            None
        }
    }
}

/// A report leaves nothing counted and begins the next window at the clock
/// reading of the step that fired it.
pub proof fn lemma_report_resets(sampler: Sampler, bytes: u64, now: u128)
    requires
        sampler.due(now),
    ensures
        sampler.report(bytes, now) is Some,
        sampler.after(bytes, now).accumulated == 0,
        sampler.after(bytes, now).window_start == now,
        sampler.after(bytes, now).window == sampler.window,
{
}

/// While no step closes the window, nothing is reported, the window stays
/// where it began, and the count is the sum of all bytes fed in, held at the
/// largest `u64` where the sum exceeds it.
pub proof fn lemma_quiet_window(sampler: Sampler, steps: Seq<(u64, u128)>)
    requires
        forall|i: int| 0 <= i < steps.len() ==> !sampler.due(#[trigger] steps[i].1),
    ensures
        sampler.reports(steps) == Seq::<Bps>::empty(),
        sampler.run(steps).window_start == sampler.window_start,
        sampler.run(steps).window == sampler.window,
        sampler.run(steps).accumulated == clip(sampler.accumulated + total_bytes(steps)),
        sampler.accumulated + total_bytes(steps) <= u64::MAX ==> sampler.run(steps).accumulated
            == sampler.accumulated + total_bytes(steps),
    decreases steps.len(),
{
    if steps.len() > 0 {
        let earlier = steps.drop_last();
        assert forall|i: int| 0 <= i < earlier.len() implies !sampler.due(
            #[trigger] earlier[i].1,
        ) by {
            assert(earlier[i] == steps[i]);
        }
        lemma_quiet_window(sampler, earlier);
        let before = sampler.run(earlier);
        let last = steps.last();
        assert(last == steps[steps.len() - 1]);
        assert(!sampler.due(last.1));
        assert(before.due(last.1) == sampler.due(last.1));
    }
}

/// Once a report has fired at clock reading `at`, no further report fires
/// while the clock reads less than a full window more than `at`, whatever is
/// fed in and however often: time alone closes a window.
pub proof fn lemma_quiet_after_report(
    sampler: Sampler,
    bytes: u64,
    at: u128,
    steps: Seq<(u64, u128)>,
)
    requires
        sampler.due(at),
        forall|i: int| 0 <= i < steps.len() ==> (#[trigger] steps[i]).1 < at + sampler.window.nanos,
    ensures
        sampler.after(bytes, at).reports(steps) == Seq::<Bps>::empty(),
        sampler.after(bytes, at).run(steps).window_start == at,
        sampler.after(bytes, at).run(steps).accumulated == clip(total_bytes(steps)),
{
    let fresh = sampler.after(bytes, at);
    assert forall|i: int| 0 <= i < steps.len() implies !fresh.due(#[trigger] steps[i].1) by {
        assert(steps[i].1 < at + sampler.window.nanos);
    }
    lemma_quiet_window(fresh, steps);
}

/// The rate that closes a window counts every byte fed in since the window
/// began, those of the closing step included.
pub proof fn lemma_report_counts_window(
    sampler: Sampler,
    steps: Seq<(u64, u128)>,
    bytes: u64,
    now: u128,
)
    requires
        forall|i: int| 0 <= i < steps.len() ==> !sampler.due(#[trigger] steps[i].1),
        sampler.due(now),
    ensures
        sampler.run(steps).report(bytes, now) == Some(
            Bps(
                rate(
                    clip(sampler.accumulated + total_bytes(steps) + bytes),
                    sampler.elapsed(now),
                ),
            ),
        ),
{
    lemma_quiet_window(sampler, steps);
}

/// A step of zero bytes that closes no window leaves the sampler as it was,
/// and whether a step closes the window does not depend on its bytes.
pub proof fn lemma_zero_bytes(sampler: Sampler, bytes: u64, now: u128)
    ensures
        !sampler.due(now) ==> sampler.after(0, now) == sampler,
        sampler.report(0, now) is Some <==> sampler.report(bytes, now) is Some,
        sampler.after(0, now).window_start == sampler.after(bytes, now).window_start,
{
}

} // verus!
