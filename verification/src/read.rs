//! Metering for readers.
//!
//! The wrapper holds the reader and counts what each read returned. The read
//! itself is made by whoever owns the wrapper, on the reader it holds; its
//! outcome is then handed to [`Reader::read`], which counts the bytes of a
//! read that succeeded and hands the outcome back as it came.

use vstd::prelude::*;
use std::sync::mpsc::Sender;
use crate::bytes_per_second;
use crate::clock::Clock;
use crate::get;
use crate::lemma_stepped;
use crate::sampler::Sampler;
use crate::sink::Forward;
use crate::sink::Sink;
use crate::stepped;
use crate::Bps;
use crate::Config;

verus! {

/// A reader together with what meters it.
pub struct Reader<R, S> {
    /// The reader that the bytes come from.
    pub reader: R,
    /// Where the rates go.
    pub slot: S,
    /// The count of the current window.
    pub sampler: Sampler,
    /// The clock that the sampler is read against.
    pub clock: Clock,
}

impl<R, S: Sink> Reader<R, S> {
    /// Takes the outcome of a read, plain or vectored, on the wrapped reader.
    /// The bytes of a read that succeeded are counted, a read of no bytes
    /// too; a read that failed is not counted. The outcome is handed back
    /// unchanged.
    pub fn read<E>(&mut self, outcome: Result<usize, E>) -> (same: Result<usize, E>)
        requires
            old(self).slot.ready(),
        ensures
            same == outcome,
            final(self).slot.ready(),
            final(self).reader == old(self).reader,
            final(self).clock == old(self).clock,
            match outcome {
                Ok(bytes) => stepped(
                    old(self).sampler,
                    old(self).slot,
                    final(self).sampler,
                    final(self).slot,
                    bytes as u64,
                ),
                Err(_) => final(self).sampler == old(self).sampler && final(self).slot == old(
                    self,
                ).slot,
            },
    {
        match outcome {
            Ok(bytes) => {
                bytes_per_second(bytes, &mut self.sampler, &self.clock, &mut self.slot);
                Ok(bytes)
            },
            Err(error) => Err(error),
        }
    }
}

/// A read of no bytes adds nothing to the count, yet it is a step like any
/// other: where the window has lasted its time it closes the window, and
/// otherwise it leaves sampler and sink as they were.
pub proof fn lemma_empty_read<R, S: Sink>(before: Reader<R, S>, after: Reader<R, S>)
    requires
        stepped(before.sampler, before.slot, after.sampler, after.slot, 0),
    ensures
        after.sampler.window_start == before.sampler.window_start ==> after.sampler
            == before.sampler && after.slot == before.slot,
        after.sampler.window_start != before.sampler.window_start ==> {
            &&& after.sampler.accumulated == 0
            &&& after.sampler.window_start - before.sampler.window_start
                >= before.sampler.window.nanos
            &&& after.slot.reported().len() == before.slot.reported().len() + 1
        },
{
    lemma_stepped(before.sampler, before.slot, after.sampler, after.slot, 0);
}

/// Wraps `reader` so that the throughput of what is read from it is handed
/// to `sink`, once per update interval of `config`.
pub fn slot<R, S: Sink>(reader: R, sink: S, config: &Config) -> (wrapped: Reader<R, S>)
    requires
        sink.ready(),
    ensures
        wrapped.reader == reader,
        wrapped.slot == sink,
        wrapped.sampler == (Sampler {
            accumulated: 0,
            window_start: 0,
            window: config.interval(),
        }),
{
    Reader { reader, slot: sink, sampler: Sampler::new(get(config), 0), clock: Clock::start() }
}

/// Wraps `reader` so that the throughput of what is read from it is sent
/// through `sender`, once per update interval of `config`.
pub fn send<R>(reader: R, sender: Sender<Bps>, config: &Config) -> (wrapped: Reader<R, Forward>)
    ensures
        wrapped.reader == reader,
        wrapped.slot.sender() == sender,
        wrapped.slot.reported() == Seq::<Bps>::empty(),
        wrapped.sampler == (Sampler {
            accumulated: 0,
            window_start: 0,
            window: config.interval(),
        }),
{
    slot(reader, Forward::new(sender), config)
}

} // verus!
