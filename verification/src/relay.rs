//! The worker that takes texts out of the queue and sends them to the chat
//! platform.

use crate::queue::{after_pop, next_out, RelayQueue};
use vstd::prelude::*;

verus! {

/// What the worker has to do next.
#[derive(Clone, PartialEq, Eq, Debug)]
pub enum RelayAction {
    /// Send `text` to `channel`. The text has left the queue: a send that
    /// fails is reported and not tried again.
    Send { channel: u64, text: String },
    /// Nothing is pending: wait, then ask again.
    Wait,
}

/// A [`RelayAction`] as plain values.
pub enum RelayActionView {
    Send { channel: u64, text: Seq<char> },
    Wait,
}

impl View for RelayAction {
    type V = RelayActionView;

    open spec fn view(&self) -> RelayActionView {
        match *self {
            RelayAction::Send { channel, text } => RelayActionView::Send { channel, text: text@ },
            RelayAction::Wait => RelayActionView::Wait,
        }
    }
}

/// What a worker for `channel` does when these texts are pending.
pub open spec fn relay_action(channel: u64, pending: Seq<Seq<char>>) -> RelayActionView {
    match next_out(pending) {
        Some(text) => RelayActionView::Send { channel, text },
        None => RelayActionView::Wait,
    }
}

/// The single worker that drains the queue into one channel of the chat
/// platform.
#[derive(Clone, Copy, PartialEq, Eq, Debug)]
pub struct OutboundRelayWorker {
    channel: u64,
}

impl OutboundRelayWorker {
    /// A worker that sends to `channel`.
    pub fn new(channel: u64) -> (worker: OutboundRelayWorker)
        ensures
            worker.target() == channel,
    {
        OutboundRelayWorker { channel }
    }

    /// The channel that this worker sends to.
    pub closed spec fn target(&self) -> u64 {
        self.channel
    }

    /// The channel that this worker sends to.
    pub fn channel(&self) -> (channel: u64)
        ensures
            channel == self.target(),
    {
        self.channel
    }

    /// Takes the next text out of the queue, if there is one, and says what
    /// to do with it.
    pub fn next(&self, queue: &mut RelayQueue) -> (action: RelayAction)
        ensures
            action@ == relay_action(self.target(), old(queue)@),
            final(queue)@ == after_pop(old(queue)@),
    {
        match queue.pop() {
            Some(text) => RelayAction::Send { channel: self.channel, text },
            None => RelayAction::Wait,
        }
    }
}

} // verus!
