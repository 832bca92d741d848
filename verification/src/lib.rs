//! Throughput metering for iterators, readers and writers.
//!
//! A stream is wrapped together with a sink. Every item pulled and every
//! chunk read or written is counted, and once per update interval the bytes
//! seen per second are handed to the sink. What passes through the wrapper is
//! left as it was.
//!
//! - [`sampler`] holds the cycle of counting and reporting, as a function of
//!   byte counts and clock readings, and what is proved of it.
//! - [`clock`] reads the time, and [`sink`] says where rates can go.
//! - [`iter`], [`read`] and [`write`] wrap the three kinds of stream.
//! - [`format`] writes a rate out as text.
//!
//! Rates are whole bytes per second: the bytes of a window times a thousand
//! million, over the nanoseconds that the window took, rounded down.

use vstd::prelude::*;

use crate::clock::Clock;
use crate::sampler::clip;
use crate::sampler::rate;
use crate::sampler::Sampler;
use crate::sink::Sink;

pub mod clock;
pub mod format;
pub mod iter;
pub mod read;
pub mod sampler;
pub mod sink;
pub mod write;

verus! {

/// Nanoseconds in a second.
pub const NANOS_PER_SEC: u128 = 1_000_000_000;

/// Nanoseconds in a millisecond.
pub const NANOS_PER_MILLI: u128 = 1_000_000;

/// Bytes per second.
#[derive(Copy, Clone, Debug, Hash, Ord, PartialOrd, Eq, PartialEq, Structural)]
pub struct Bps(pub u64);

impl Default for Bps {
    fn default() -> (rate: Bps)
        ensures
            rate == Bps(0),
    {
        Bps(0)
    }
}

impl Bps {
    /// The rate as text: a magnitude with two fractional digits, scaled to the
    /// largest of B/s, KiB/s, MiB/s, GiB/s and TiB/s that does not exceed it.
    pub fn to_string(&self) -> (text: String)
        ensures
            text@ == format::rendered(self.0),
    {
        format::render(self.0)
    }
}

/// A span of time in whole nanoseconds.
#[derive(Copy, Clone, Debug, Hash, Ord, PartialOrd, Eq, PartialEq, Structural)]
pub struct Interval {
    pub nanos: u128,
}

impl Interval {
    /// The span of `secs` seconds.
    pub fn from_secs(secs: u64) -> (interval: Interval)
        ensures
            interval.nanos == secs * NANOS_PER_SEC,
    {
        Interval { nanos: secs as u128 * NANOS_PER_SEC }
    }

    /// The span of `millis` milliseconds.
    pub fn from_millis(millis: u64) -> (interval: Interval)
        ensures
            interval.nanos == millis * NANOS_PER_MILLI,
    {
        Interval { nanos: millis as u128 * NANOS_PER_MILLI }
    }
}

/// The settings of one pipeline: how long a sampler waits between two
/// reports. Every pipeline owns its settings, so that changing one leaves
/// all others as they were.
pub struct Config {
    interval: Interval,
}

impl Config {
    /// The update interval that these settings hold.
    pub closed spec fn interval(&self) -> Interval {
        self.interval
    }

    /// Fresh settings, with an update interval of one second.
    pub fn new() -> (config: Config)
        ensures
            config.interval() == (Interval { nanos: NANOS_PER_SEC }),
    {
        Config { interval: Interval { nanos: NANOS_PER_SEC } }
    }
}

impl Default for Config {
    fn default() -> (config: Config)
        ensures
            config.interval() == (Interval { nanos: NANOS_PER_SEC }),
    {
        Config::new()
    }
}

/// Gets the update interval of `config`.
pub fn get(config: &Config) -> (interval: Interval)
    ensures
        interval == config.interval(),
{
    config.interval
}

/// Sets the update interval of `config`. Samplers made from it afterwards
/// use the new interval; no interval is refused, and with one of zero a
/// sampler reports at every step at which its clock has moved.
pub fn set(config: &mut Config, interval: Interval)
    ensures
        final(config).interval() == interval,
{
    config.interval = interval;
}

/// What a step of `bytes` bytes at clock reading `now` makes of a sampler
/// and its sink: the sampler takes the step, and the sink is handed the rate
/// that the step reports, or left alone where it reports none.
pub open spec fn sampled<S: Sink>(
    sampler: Sampler,
    slot: S,
    sampler_after: Sampler,
    slot_after: S,
    bytes: u64,
    now: u128,
) -> bool {
    &&& sampler_after == sampler.after(bytes, now)
    &&& match sampler.report(bytes, now) {
        Some(rate) => slot_after.ready() && slot_after.reported() == slot.reported().push(rate),
        None => slot_after == slot,
    }
}

/// What a step of `bytes` bytes makes of a sampler and its sink when a clock
/// is read for it: [`sampled`], whatever the clock reads.
pub open spec fn stepped<S: Sink>(
    sampler: Sampler,
    slot: S,
    sampler_after: Sampler,
    slot_after: S,
    bytes: u64,
) -> bool {
    exists|now: u128| #[trigger] sampled(sampler, slot, sampler_after, slot_after, bytes, now)
}

/// A step for which a clock is read ends in one of two ways, and the sampler
/// shows which. Either no window closed: the bytes were added to the count,
/// the window began where it did, and the sink was left alone. Or one
/// closed: nothing is counted, the new window began later than the old one,
/// by the configured window at the least, and the sink was handed one rate,
/// that of all bytes counted over the time between the two beginnings.
pub proof fn lemma_stepped<S: Sink>(
    sampler: Sampler,
    slot: S,
    sampler_after: Sampler,
    slot_after: S,
    bytes: u64,
)
    requires
        stepped(sampler, slot, sampler_after, slot_after, bytes),
    ensures
        sampler_after.window == sampler.window,
        sampler_after.window_start == sampler.window_start ==> {
            &&& sampler_after.accumulated == clip(sampler.accumulated + bytes)
            &&& slot_after == slot
        },
        sampler_after.window_start != sampler.window_start ==> {
            &&& sampler_after.accumulated == 0
            &&& sampler_after.window_start > sampler.window_start
            &&& sampler_after.window_start - sampler.window_start >= sampler.window.nanos
            &&& slot_after.reported() == slot.reported().push(
                Bps(
                    rate(
                        clip(sampler.accumulated + bytes),
                        (sampler_after.window_start - sampler.window_start) as nat,
                    ),
                ),
            )
        },
{
    let now = choose|now: u128| #[trigger]
        sampled(sampler, slot, sampler_after, slot_after, bytes, now);
    assert(sampled(sampler, slot, sampler_after, slot_after, bytes, now));
}

/// Takes a step of `bytes` bytes at clock reading `now`, and hands the rate
/// to `slot` where the step reports one.
pub fn sample_at<S: Sink>(bytes: u64, now: u128, sampler: &mut Sampler, slot: &mut S)
    requires
        old(slot).ready(),
    ensures
        sampled(*old(sampler), *old(slot), *final(sampler), *final(slot), bytes, now),
{
    match sampler.record(bytes, now) {
        Some(rate) => slot.on_rate(rate),
        None => {},
    }
}

/// Counts `new` bytes and reads `clock`; where the window has lasted its
/// time, hands the rate to `slot` and begins a new window. The step is taken
/// at whatever the clock read.
pub fn bytes_per_second<S: Sink>(new: usize, sampler: &mut Sampler, clock: &Clock, slot: &mut S)
    requires
        old(slot).ready(),
    ensures
        final(slot).ready(),
        stepped(*old(sampler), *old(slot), *final(sampler), *final(slot), new as u64),
{
    let now: u128 = clock.now();
    sample_at(new as u64, now, sampler, slot);
}

} // verus!
