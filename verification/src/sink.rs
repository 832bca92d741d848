//! Where reported rates go.

use vstd::prelude::*;
use std::sync::mpsc::Sender;
use crate::Bps;

verus! {

/// A consumer of reported rates.
pub trait Sink {
    /// The rates handed to this sink so far, oldest first.
    spec fn reported(&self) -> Seq<Bps>;

    /// Whether the sink can be handed a rate. A sink that is ready stays so.
    spec fn ready(&self) -> bool;

    /// Hands `rate` to the sink.
    fn on_rate(&mut self, rate: Bps)
        requires
            old(self).ready(),
        ensures
            final(self).ready(),
            final(self).reported() == old(self).reported().push(rate),
    ;
}

/// A vector keeps every rate it is handed, in order.
impl Sink for Vec<Bps> {
    open spec fn reported(&self) -> Seq<Bps> {
        self@
    }

    open spec fn ready(&self) -> bool {
        true
    }

    fn on_rate(&mut self, rate: Bps) {
        self.push(rate);
    }
}

/// A sink that calls a function with every rate.
pub struct Callback<F> {
    call: F,
    calls: Ghost<Seq<Bps>>,
}

impl<F: FnMut(Bps)> Callback<F> {
    /// The function that the sink calls.
    pub closed spec fn function(&self) -> F {
        self.call
    }

    /// Wraps `call`, which must accept every rate.
    pub fn new(call: F) -> (sink: Callback<F>)
        requires
            forall|rate: Bps| call_requires(call, (rate,)),
        ensures
            sink.function() == call,
            sink.ready(),
            sink.reported() == Seq::<Bps>::empty(),
    {
        Callback { call, calls: Ghost(Seq::empty()) }
    }
}

impl<F: FnMut(Bps)> Sink for Callback<F> {
    /// The rates that the function was called with.
    closed spec fn reported(&self) -> Seq<Bps> {
        self.calls@
    }

    closed spec fn ready(&self) -> bool {
        forall|rate: Bps| call_requires(self.call, (rate,))
    }

    fn on_rate(&mut self, rate: Bps)
        ensures
            final(self).function() == old(self).function(),
    {
        (self.call)(rate);
        self.calls = Ghost(self.calls@.push(rate));
    }
}

/// `std::sync::mpsc::Sender`, the sending half of a channel, declared so
/// that a sink can hold one. Nothing of what it holds is visible here.
#[verifier::external_type_specification]
#[verifier::external_body]
#[verifier::reject_recursive_types(T)]
pub struct ExSender<T>(Sender<T>);

/// Calls `std::sync::mpsc::Sender::send` with `rate` and drops what it
/// returns. Nothing is claimed of the call: whether the rate arrives depends
/// on the receiving half.
#[verifier::external_body]
fn offer(sender: &Sender<Bps>, rate: Bps) {
    let _ = sender.send(rate);
}

/// A sink that sends every rate through a channel. A rate that cannot be
/// delivered, because the receiving half is gone, is dropped without notice.
pub struct Forward {
    sender: Sender<Bps>,
    offered: Ghost<Seq<Bps>>,
}

impl Forward {
    /// The sending half that the sink sends through.
    pub closed spec fn sender(&self) -> Sender<Bps> {
        self.sender
    }

    /// A sink that sends through `sender`.
    pub fn new(sender: Sender<Bps>) -> (sink: Forward)
        ensures
            sink.sender() == sender,
            sink.reported() == Seq::<Bps>::empty(),
    {
        Forward { sender, offered: Ghost(Seq::empty()) }
    }
}

impl Sink for Forward {
    /// The rates offered to the channel, delivered or not.
    closed spec fn reported(&self) -> Seq<Bps> {
        self.offered@
    }

    open spec fn ready(&self) -> bool {
        true
    }

    fn on_rate(&mut self, rate: Bps)
        ensures
            final(self).sender() == old(self).sender(),
    {
        offer(&self.sender, rate);
        self.offered = Ghost(self.offered@.push(rate));
    }
}

} // verus!
