//! Metering for writers.
//!
//! The wrapper holds the writer and counts what each write returned. The write
//! itself is made by whoever owns the wrapper, on the writer it holds; its
//! outcome is then handed to [`Writer::write`], which counts the bytes of a
//! write that succeeded and hands the outcome back as it came.

use vstd::prelude::*;
use std::sync::mpsc::Sender;
use crate::bytes_per_second;
use crate::clock::Clock;
use crate::get;
use crate::sampler::Sampler;
use crate::sink::Forward;
use crate::sink::Sink;
use crate::stepped;
use crate::Bps;
use crate::Config;

verus! {

/// A writer together with what meters it.
pub struct Writer<W, S> {
    /// The writer that the bytes go to.
    pub writer: W,
    /// Where the rates go.
    pub slot: S,
    /// The count of the current window.
    pub sampler: Sampler,
    /// The clock that the sampler is read against.
    pub clock: Clock,
}

impl<W, S: Sink> Writer<W, S> {
    /// Takes the outcome of a write, plain or vectored, on the wrapped writer.
    /// The bytes of a write that succeeded are counted, a write of no bytes
    /// too; a write that failed is not counted. The outcome is handed back
    /// unchanged.
    pub fn write<E>(&mut self, outcome: Result<usize, E>) -> (same: Result<usize, E>)
        requires
            old(self).slot.ready(),
        ensures
            same == outcome,
            final(self).slot.ready(),
            final(self).writer == old(self).writer,
            final(self).clock == old(self).clock,
            match outcome {
                Ok(bytes) => stepped(
                    old(self).sampler,
                    old(self).slot,
                    final(self).sampler,
                    final(self).slot,
                    bytes as u64,
                ),
                Err(_) => final(self).sampler == old(self).sampler && final(self).slot == old(
                    self,
                ).slot,
            },
    {
        match outcome {
            Ok(bytes) => {
                bytes_per_second(bytes, &mut self.sampler, &self.clock, &mut self.slot);
                Ok(bytes)
            },
            Err(error) => Err(error),
        }
    }
}

/// Wraps `writer` so that the throughput of what is written to it is handed
/// to `sink`, once per update interval of `config`.
pub fn slot<W, S: Sink>(writer: W, sink: S, config: &Config) -> (wrapped: Writer<W, S>)
    requires
        sink.ready(),
    ensures
        wrapped.writer == writer,
        wrapped.slot == sink,
        wrapped.sampler == (Sampler {
            accumulated: 0,
            window_start: 0,
            window: config.interval(),
        }),
{
    Writer { writer, slot: sink, sampler: Sampler::new(get(config), 0), clock: Clock::start() }
}

/// Wraps `writer` so that the throughput of what is written to it is sent
/// through `sender`, once per update interval of `config`.
pub fn send<W>(writer: W, sender: Sender<Bps>, config: &Config) -> (wrapped: Writer<W, Forward>)
    ensures
        wrapped.writer == writer,
        wrapped.slot.sender() == sender,
        wrapped.slot.reported() == Seq::<Bps>::empty(),
        wrapped.sampler == (Sampler {
            accumulated: 0,
            window_start: 0,
            window: config.interval(),
        }),
{
    slot(writer, Forward::new(sender), config)
}

} // verus!
