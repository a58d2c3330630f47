//! One direction of the channel pair: an unbounded first-in-first-out queue of
//! messages with one sending end and one receiving end.

use crate::message::{Message, MessageView};
use std::collections::VecDeque;
use vstd::prelude::*;

verus! {

/// Why a send failed.
#[derive(Clone, Copy, Debug, PartialEq, Eq, Structural)]
pub enum SendError {
    /// The receiving end has been dropped.
    PeerClosed,
}

/// Why a receive handed out no message.
#[derive(Clone, Copy, Debug, PartialEq, Eq, Structural)]
pub enum ReceiveError {
    /// The timeout has elapsed and no message is there.
    TimedOut,
    /// No message is there yet and the timeout has not elapsed: the caller
    /// goes on waiting.
    StillWaiting,
}

/// What a channel is: the messages in flight, whether the receiving end is
/// alive, and the record of everything it has accepted and handed out.
pub struct ChannelView {
    /// The messages accepted and not yet handed out, oldest first.
    pub pending: Seq<MessageView>,
    /// Whether the receiving end is still there.
    pub open: bool,
    /// Every message ever accepted, in the order of the sends.
    pub sent: Seq<MessageView>,
    /// Every message ever handed out, in the order of the receives.
    pub delivered: Seq<MessageView>,
}

impl ChannelView {
    /// A channel that has seen no traffic.
    pub open spec fn fresh() -> ChannelView {
        ChannelView {
            pending: Seq::empty(),
            open: true,
            sent: Seq::empty(),
            delivered: Seq::empty(),
        }
    }

    /// What was sent is what was delivered followed by what is in flight:
    /// nothing is lost, duplicated or reordered.
    pub open spec fn inv(self) -> bool {
        self.sent == self.delivered + self.pending
    }

    /// What a send answers: it fails exactly when the receiving end is gone.
    pub open spec fn send_outcome(self) -> Result<(), SendError> {
        if self.open {
            Ok(())
        } else {
            Err(SendError::PeerClosed)
        }
    }

    /// The channel after a send of `message`: the message joins the end of
    /// the queue, unless the receiving end is gone, when nothing changes.
    pub open spec fn after_send(self, message: MessageView) -> ChannelView {
        if self.open {
            ChannelView {
                pending: self.pending.push(message),
                sent: self.sent.push(message),
                ..self
            }
        } else {
            self
        }
    }

    /// What a receive answers after `waited_ms` of a wait that may last
    /// `timeout_ms`: the oldest message if there is one; if there is none,
    /// `TimedOut` once the timeout has elapsed and `StillWaiting` before.
    pub open spec fn receive_outcome(self, timeout_ms: u64, waited_ms: u64) -> Result<
        MessageView,
        ReceiveError,
    > {
        if self.pending.len() > 0 {
            Ok(self.pending[0])
        } else if waited_ms >= timeout_ms {
            Err(ReceiveError::TimedOut)
        } else {
            Err(ReceiveError::StillWaiting)
        }
    }

    /// The channel after a receive: the oldest message, if there is one, has
    /// left the queue.
    pub open spec fn after_receive(self) -> ChannelView {
        if self.pending.len() > 0 {
            ChannelView {
                pending: self.pending.drop_first(),
                delivered: self.delivered.push(self.pending[0]),
                ..self
            }
        } else {
            self
        }
    }

    /// The channel after its receiving end has been dropped.
    pub open spec fn after_close(self) -> ChannelView {
        ChannelView { open: false, ..self }
    }

    /// Delivery preserves send order: the messages handed out so far are
    /// exactly the first messages sent, in the order in which they were sent.
    pub proof fn lemma_delivery_preserves_send_order(self)
        requires
            self.inv(),
        ensures
            self.delivered.is_prefix_of(self.sent),
            self.delivered.len() + self.pending.len() == self.sent.len(),
            forall|i: int| 0 <= i < self.delivered.len() ==> self.delivered[i] == self.sent[i],
            forall|i: int|
                0 <= i < self.pending.len() ==> self.pending[i] == self.sent[self.delivered.len()
                    + i],
    {
    }

    /// Every operation keeps the record consistent.
    pub proof fn lemma_operations_preserve_inv(self, message: MessageView)
        requires
            self.inv(),
        ensures
            Self::fresh().inv(),
            self.after_send(message).inv(),
            self.after_receive().inv(),
            self.after_close().inv(),
    {
        assert(self.after_receive().sent =~= self.after_receive().delivered
            + self.after_receive().pending);
    }
}

/// The view of what a receive returned.
pub open spec fn received_view(r: Result<Message, ReceiveError>) -> Result<
    MessageView,
    ReceiveError,
> {
    match r {
        Ok(message) => Ok(message@),
        Err(e) => Err(e),
    }
}

/// One direction of the channel pair.
pub struct Channel {
    queue: VecDeque<Message>,
    receiver_open: bool,
    sent: Ghost<Seq<MessageView>>,
    delivered: Ghost<Seq<MessageView>>,
}

impl View for Channel {
    type V = ChannelView;

    closed spec fn view(&self) -> ChannelView {
        ChannelView {
            pending: self.queue@.map_values(|m: Message| m@),
            open: self.receiver_open,
            sent: self.sent@,
            delivered: self.delivered@,
        }
    }
}

impl Channel {
    /// A channel with both ends alive and nothing in flight.
    pub fn new() -> (channel: Channel)
        ensures
            channel@ == ChannelView::fresh(),
            channel@.inv(),
    {
        Channel {
            queue: VecDeque::new(),
            receiver_open: true,
            sent: Ghost(Seq::empty()),
            delivered: Ghost(Seq::empty()),
        }
    }

    /// Enqueues `message` without blocking. Fails with `PeerClosed`, and
    /// changes nothing, exactly when the receiving end has been dropped.
    pub fn send(&mut self, message: Message) -> (r: Result<(), SendError>)
        requires
            old(self)@.inv(),
        ensures
            r == old(self)@.send_outcome(),
            final(self)@ == old(self)@.after_send(message@),
            final(self)@.inv(),
    {
        if !self.receiver_open {
            return Err(SendError::PeerClosed);
        }
        self.sent = Ghost(self.sent@.push(message@));
        self.queue.push_back(message);
        proof {
            assert(self@.pending =~= old(self)@.pending.push(message@));
        }
        Ok(())
    }

    /// Ends a wait for a message, or says that it goes on. `waited_ms` is how
    /// long the caller has waited so far. The oldest message is handed out
    /// if there is one; if there is none, the answer is `TimedOut` as soon as
    /// `timeout_ms` has elapsed, and `StillWaiting` before that. So no wait
    /// lasts longer than its timeout, whether or not the peer ever sends.
    pub fn receive_with_timeout(&mut self, timeout_ms: u64, waited_ms: u64) -> (r: Result<
        Message,
        ReceiveError,
    >)
        requires
            old(self)@.inv(),
        ensures
            received_view(r) == old(self)@.receive_outcome(timeout_ms, waited_ms),
            final(self)@ == old(self)@.after_receive(),
            final(self)@.inv(),
            waited_ms >= timeout_ms ==> r != Err::<Message, ReceiveError>(
                ReceiveError::StillWaiting,
            ),
    {
        match self.queue.pop_front() {
            Some(message) => {
                self.delivered = Ghost(self.delivered@.push(message@));
                proof {
                    assert(self@.pending =~= old(self)@.pending.drop_first());
                    assert(self@.sent =~= self@.delivered + self@.pending);
                }
                Ok(message)
            },
            None => {
                if waited_ms >= timeout_ms {
                    Err(ReceiveError::TimedOut)
                } else {
                    Err(ReceiveError::StillWaiting)
                }
            },
        }
    }

    /// Drops the receiving end: from now on every send fails.
    pub fn close_receiver(&mut self)
        requires
            old(self)@.inv(),
        ensures
            final(self)@ == old(self)@.after_close(),
            final(self)@.inv(),
    {
        self.receiver_open = false;
    }

    /// Whether the receiving end is still there.
    pub fn is_open(&self) -> (open: bool)
        ensures
            open == self@.open,
    {
        self.receiver_open
    }

    /// The number of messages in flight.
    pub fn len(&self) -> (n: usize)
        ensures
            n == self@.pending.len(),
    {
        self.queue.len()
    }

    /// Whether no message is in flight.
    pub fn is_empty(&self) -> (empty: bool)
        ensures
            empty == (self@.pending.len() == 0),
    {
        self.queue.len() == 0
    }
}

} // verus!
