//! Metering for iterators.
//!
//! The wrapper pulls from the iterator it holds and hands every item on as
//! it came. Each item counts as many bytes as a value of its type takes up
//! in memory.

use vstd::prelude::*;
use vstd::layout::size_of;
use vstd::std_specs::iter::IteratorSpec;
use std::sync::mpsc::Sender;
use crate::bytes_per_second;
use crate::clock::Clock;
use crate::get;
use crate::stepped;
use crate::sampler::Sampler;
use crate::sink::Forward;
use crate::sink::Sink;
use crate::Bps;
use crate::Config;

verus! {

/// An iterator together with what meters it.
pub struct Iter<I, S> {
    /// The iterator that the items come from.
    pub iter: I,
    /// Where the rates go.
    pub slot: S,
    /// The count of the current window.
    pub sampler: Sampler,
    /// The clock that the sampler is read against.
    pub clock: Clock,
}

impl<I: Iterator, S: Sink> Iter<I, S> {
    /// Counts `item` and hands it back.
    pub fn observe(&mut self, item: I::Item) -> (same: I::Item)
        requires
            old(self).slot.ready(),
        ensures
            same == item,
            final(self).slot.ready(),
            final(self).iter == old(self).iter,
            final(self).clock == old(self).clock,
            stepped(
                old(self).sampler,
                old(self).slot,
                final(self).sampler,
                final(self).slot,
                size_of::<I::Item>() as u64,
            ),
    {
        let bytes: usize = core::mem::size_of::<I::Item>();
        bytes_per_second(bytes, &mut self.sampler, &self.clock, &mut self.slot);
        item
    }

    /// Pulls the next item from the iterator, counts it, and hands it on.
    /// The end of the iterator is handed on uncounted.
    pub fn next(&mut self) -> (item: Option<I::Item>)
        requires
            old(self).slot.ready(),
        ensures
            final(self).slot.ready(),
            final(self).clock == old(self).clock,
            final(self).iter.obeys_prophetic_iter_laws() == old(
                self,
            ).iter.obeys_prophetic_iter_laws(),
            old(self).iter.obeys_prophetic_iter_laws() ==> {
                &&& final(self).iter.will_return_none() == old(self).iter.will_return_none()
                &&& final(self).iter.decrease() is Some == old(self).iter.decrease() is Some
                &&& if old(self).iter.remaining().len() > 0 {
                    &&& item == Some(old(self).iter.remaining()[0])
                    &&& final(self).iter.remaining() == old(self).iter.remaining().drop_first()
                    &&& final(self).iter.decrease() is Some ==> decreases_to!(old(self).iter.decrease()->0 => final(self).iter.decrease()->0)
                } else {
                    &&& item is None
                    &&& final(self).iter.remaining() == old(self).iter.remaining()
                    &&& final(self).iter.will_return_none()
                }
            },
            match item {
                Some(_) => stepped(
                    old(self).sampler,
                    old(self).slot,
                    final(self).sampler,
                    final(self).slot,
                    size_of::<I::Item>() as u64,
                ),
                None => final(self).sampler == old(self).sampler && final(self).slot == old(
                    self,
                ).slot,
            },
    {
        match self.iter.next() {
            Some(item) => Some(self.observe(item)),
            None => None,
        }
    }

    /// Pulls all that is left of the iterator and returns it in order: the
    /// very items that the iterator had left to give. Along the way the
    /// sink is handed at most one rate for each item.
    pub fn drain(&mut self) -> (items: Vec<I::Item>)
        requires
            old(self).slot.ready(),
            old(self).iter.obeys_prophetic_iter_laws(),
            old(self).iter.decrease() is Some,
        ensures
            items@ == old(self).iter.remaining(),
            final(self).iter.remaining().len() == 0,
            final(self).slot.ready(),
            final(self).clock == old(self).clock,
            old(self).slot.reported().is_prefix_of(final(self).slot.reported()),
            final(self).slot.reported().len() <= old(self).slot.reported().len() + items.len(),
    {
        let mut items: Vec<I::Item> = Vec::new();
        loop
            invariant
                self.slot.ready(),
                self.iter.obeys_prophetic_iter_laws(),
                self.iter.decrease() is Some,
                self.clock == old(self).clock,
                items@ + self.iter.remaining() == old(self).iter.remaining(),
                old(self).slot.reported().is_prefix_of(self.slot.reported()),
                self.slot.reported().len() <= old(self).slot.reported().len() + items.len(),
            decreases self.iter.decrease()->0,
        {
            let ghost left = self.iter.remaining();
            let ghost told = self.slot.reported();
            match self.next() {
                Some(item) => {
                    items.push(item);
                    assert(items@ + self.iter.remaining() =~= items@.drop_last() + left);
                    assert(told.is_prefix_of(self.slot.reported()));
                },
                None => {
                    assert(items@ =~= old(self).iter.remaining());
                    return items;
                },
            }
        }
    }
}

/// Wraps `iter` so that the throughput of what is pulled from it is handed
/// to `sink`, once per update interval of `config`.
pub fn slot<I: Iterator, S: Sink>(iter: I, sink: S, config: &Config) -> (wrapped: Iter<I, S>)
    requires
        sink.ready(),
    ensures
        wrapped.iter == iter,
        wrapped.slot == sink,
        wrapped.sampler == (Sampler {
            accumulated: 0,
            window_start: 0,
            window: config.interval(),
        }),
{
    Iter { iter, slot: sink, sampler: Sampler::new(get(config), 0), clock: Clock::start() }
}

/// Wraps `iter` so that the throughput of what is pulled from it is sent
/// through `sender`, once per update interval of `config`.
pub fn send<I: Iterator>(iter: I, sender: Sender<Bps>, config: &Config) -> (wrapped: Iter<
    I,
    Forward,
>)
    ensures
        wrapped.iter == iter,
        wrapped.slot.sender() == sender,
        wrapped.slot.reported() == Seq::<Bps>::empty(),
        wrapped.sampler == (Sampler {
            accumulated: 0,
            window_start: 0,
            window: config.interval(),
        }),
{
    slot(iter, Forward::new(sender), config)
}

} // verus!
