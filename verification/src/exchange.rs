//! The exchange: the shutdown flag, the two channels and the two actors,
//! wired together.
//!
//! Actor `A` sends on the channel from `A` to `B` and receives on the channel
//! from `B` to `A`; actor `B` has the two ends the other way round. Both
//! actors read the one flag that the exchange holds. The exchange is moved
//! forward one action of one actor at a time, in whatever order its driver
//! chooses, so that what is shown of `advance` holds of every interleaving.

use crate::actor::{
    Action, ActionView, Actor, ActorState, ActorView, Config, Event, EventView, Fault, Phase,
};
use crate::channel::{Channel, ChannelView, ReceiveError};
use crate::message::{greeting_message, ActorId};
use crate::shutdown::ShutdownFlag;
use vstd::prelude::*;

verus! {

/// What a call of `advance` did.
#[derive(Debug, PartialEq, Eq)]
pub enum Advance {
    /// The actor is in a receive, no message is there, and the timeout has
    /// not elapsed; or the actor is asleep and the backoff has not elapsed.
    /// Nothing was done, the wait goes on.
    Waiting,
    /// The actor's action was carried out and ended in this event, which the
    /// actor has heard.
    Happened(Event),
    /// The actor has stopped: nothing was done.
    Finished,
}

/// What a call of `advance` did, with any message seen by its view.
pub enum AdvanceView {
    Waiting,
    Happened(EventView),
    Finished,
}

impl View for Advance {
    type V = AdvanceView;

    open spec fn view(&self) -> AdvanceView {
        match *self {
            Advance::Waiting => AdvanceView::Waiting,
            Advance::Happened(event) => AdvanceView::Happened(event@),
            Advance::Finished => AdvanceView::Finished,
        }
    }
}

/// The view of what `advance` returned.
pub open spec fn advance_view(r: Result<Advance, Fault>) -> Result<AdvanceView, Fault> {
    match r {
        Ok(advance) => Ok(advance@),
        Err(fault) => Err(fault),
    }
}

/// One actor with the two channel ends that it owns.
pub struct Side {
    pub actor: ActorView,
    /// The channel that the actor sends on.
    pub outbound: ChannelView,
    /// The channel that the actor receives on.
    pub inbound: ChannelView,
}

impl Side {
    /// The event in which the actor's outstanding action ends, if it ends
    /// now, after `waited_ms` of waiting and with the flag as `stopped` says.
    /// A receive with nothing to deliver goes on until its timeout has
    /// elapsed, and a sleep goes on until the backoff has elapsed; an actor
    /// that has stopped has no action left.
    pub open spec fn outcome(self, stopped: bool, waited_ms: u64) -> Option<EventView> {
        match self.actor.phase {
            Phase::CheckingFlag | Phase::RecheckingFlag => Some(EventView::Flag { stopped }),
            Phase::Sending => Some(
                if self.outbound.open {
                    EventView::Sent
                } else {
                    EventView::PeerClosed
                },
            ),
            Phase::Receiving | Phase::Draining => match self.inbound.receive_outcome(
                self.actor.config.timeout_ms,
                waited_ms,
            ) {
                Ok(message) => Some(EventView::Received(message)),
                Err(ReceiveError::TimedOut) => Some(EventView::TimedOut),
                Err(ReceiveError::StillWaiting) => None,
            },
            Phase::BackingOff => if waited_ms >= self.actor.config.backoff_ms {
                Some(EventView::Woke)
            } else {
                None
            },
            Phase::Stopped => None,
        }
    }

    /// What `advance` answers.
    pub open spec fn report(self, stopped: bool, waited_ms: u64) -> Result<AdvanceView, Fault> {
        match self.outcome(stopped, waited_ms) {
            Some(event) => match self.actor.transition(event) {
                Ok(_) => Ok(AdvanceView::Happened(event)),
                Err(fault) => Err(fault),
            },
            None => if self.actor.phase == Phase::Stopped {
                Ok(AdvanceView::Finished)
            } else {
                Ok(AdvanceView::Waiting)
            },
        }
    }

    /// The side after `advance`. The action is carried out on the channels,
    /// the actor hears the event, and an actor that has stopped drops its
    /// receiving end. Where the action does not end yet, or the actor cannot
    /// go on, nothing changes.
    pub open spec fn next(self, stopped: bool, waited_ms: u64) -> Side {
        match self.outcome(stopped, waited_ms) {
            Some(event) => match self.actor.transition(event) {
                Ok(actor) => {
                    let outbound = if self.actor.phase == Phase::Sending {
                        self.outbound.after_send(
                            greeting_message(self.actor.id, (self.actor.sent + 1) as nat),
                        )
                    } else {
                        self.outbound
                    };
                    let inbound = if self.actor.phase == Phase::Receiving || self.actor.phase
                        == Phase::Draining {
                        self.inbound.after_receive()
                    } else {
                        self.inbound
                    };
                    Side {
                        actor,
                        outbound,
                        inbound: if actor.phase == Phase::Stopped {
                            inbound.after_close()
                        } else {
                            inbound
                        },
                    }
                },
                Err(_) => self,
            },
            None => self,
        }
    }
}

/// What an exchange is.
pub struct ExchangeView {
    /// Whether shutdown has been requested.
    pub stopped: bool,
    pub a: ActorView,
    pub b: ActorView,
    /// The channel that `A` sends on and `B` receives on.
    pub a_to_b: ChannelView,
    /// The channel that `B` sends on and `A` receives on.
    pub b_to_a: ChannelView,
}

impl ExchangeView {
    /// An exchange in which nothing has happened yet.
    pub open spec fn fresh(config: Config) -> ExchangeView {
        ExchangeView {
            stopped: false,
            a: ActorView::fresh(ActorId::A, config),
            b: ActorView::fresh(ActorId::B, config),
            a_to_b: ChannelView::fresh(),
            b_to_a: ChannelView::fresh(),
        }
    }

    /// The actor `who`.
    pub open spec fn actor(self, who: ActorId) -> ActorView {
        match who {
            ActorId::A => self.a,
            ActorId::B => self.b,
        }
    }

    /// The channel that `who` sends on.
    pub open spec fn outbound(self, who: ActorId) -> ChannelView {
        match who {
            ActorId::A => self.a_to_b,
            ActorId::B => self.b_to_a,
        }
    }

    /// The channel that `who` receives on: the one that its peer sends on.
    pub open spec fn inbound(self, who: ActorId) -> ChannelView {
        self.outbound(who.peer_of())
    }

    /// The actor `who` with its two channel ends.
    pub open spec fn side(self, who: ActorId) -> Side {
        Side { actor: self.actor(who), outbound: self.outbound(who), inbound: self.inbound(who) }
    }

    /// The exchange with the side of `who` replaced.
    pub open spec fn with_side(self, who: ActorId, side: Side) -> ExchangeView {
        match who {
            ActorId::A => ExchangeView {
                a: side.actor,
                a_to_b: side.outbound,
                b_to_a: side.inbound,
                ..self
            },
            ActorId::B => ExchangeView {
                b: side.actor,
                b_to_a: side.outbound,
                a_to_b: side.inbound,
                ..self
            },
        }
    }

    /// The exchange after `advance(who, waited_ms)`.
    pub open spec fn next(self, who: ActorId, waited_ms: u64) -> ExchangeView {
        self.with_side(who, self.side(who).next(self.stopped, waited_ms))
    }

    /// What `advance(who, waited_ms)` answers.
    pub open spec fn report(self, who: ActorId, waited_ms: u64) -> Result<AdvanceView, Fault> {
        self.side(who).report(self.stopped, waited_ms)
    }

    /// The exchange after a request for shutdown.
    pub open spec fn after_shutdown_request(self) -> ExchangeView {
        ExchangeView { stopped: true, ..self }
    }

    /// How the actor `who` and its channel ends belong together: the record
    /// of its sending channel holds exactly the messages it counts as sent,
    /// each with its own identity and its place in the sequence as its
    /// number; it has received exactly what its receiving channel has handed
    /// out; and its receiving end is there for as long as it has not stopped.
    pub open spec fn wired(self, who: ActorId) -> bool {
        let actor = self.actor(who);
        let outbound = self.outbound(who);
        let inbound = self.inbound(who);
        &&& actor.id == who
        &&& actor.inv()
        &&& outbound.inv()
        &&& outbound.sent.len() == actor.sent
        &&& forall|i: int|
            0 <= i < outbound.sent.len() ==> #[trigger] outbound.sent[i] == greeting_message(
                who,
                (i + 1) as nat,
            )
        &&& inbound.delivered.len() == actor.received
        &&& inbound.open == (actor.phase != Phase::Stopped)
    }

    /// What holds of an exchange at all times.
    pub open spec fn inv(self) -> bool {
        &&& self.wired(ActorId::A)
        &&& self.wired(ActorId::B)
        &&& self.a.config == self.b.config
        &&& !self.stopped ==> self.a.state() == ActorState::Running && self.b.state()
            == ActorState::Running
    }

    /// Whether both actors have stopped.
    pub open spec fn finished(self) -> bool {
        self.a.phase == Phase::Stopped && self.b.phase == Phase::Stopped
    }
}

/// The exchange itself.
pub struct Exchange {
    flag: ShutdownFlag,
    actor_a: Actor,
    actor_b: Actor,
    a_to_b: Channel,
    b_to_a: Channel,
}

impl View for Exchange {
    type V = ExchangeView;

    closed spec fn view(&self) -> ExchangeView {
        ExchangeView {
            stopped: self.flag.is_stopped(),
            a: self.actor_a@,
            b: self.actor_b@,
            a_to_b: self.a_to_b@,
            b_to_a: self.b_to_a@,
        }
    }
}

/// Carries out the outstanding action of one actor on its two channels.
fn drive(
    flag: &ShutdownFlag,
    actor: &mut Actor,
    outbound: &mut Channel,
    inbound: &mut Channel,
    waited_ms: u64,
) -> (r: Result<Advance, Fault>)
    requires
        old(outbound)@.inv(),
        old(inbound)@.inv(),
    ensures
        ({
            let before = Side {
                actor: old(actor)@,
                outbound: old(outbound)@,
                inbound: old(inbound)@,
            };
            let after = Side {
                actor: final(actor)@,
                outbound: final(outbound)@,
                inbound: final(inbound)@,
            };
            &&& after == before.next(flag.is_stopped(), waited_ms)
            &&& advance_view(r) == before.report(flag.is_stopped(), waited_ms)
        }),
{
    let event = match actor.pending() {
        Action::CheckShutdown => Event::Flag { stopped: flag.get() },
        Action::Send(message) => match outbound.send(message) {
            Ok(()) => Event::Sent,
            Err(_) => Event::PeerClosed,
        },
        Action::Receive { timeout_ms } => match inbound.receive_with_timeout(
            timeout_ms,
            waited_ms,
        ) {
            Ok(message) => Event::Received(message),
            Err(ReceiveError::TimedOut) => Event::TimedOut,
            Err(ReceiveError::StillWaiting) => {
                return Ok(Advance::Waiting);
            },
        },
        Action::Sleep { millis } => if waited_ms >= millis {
            Event::Woke
        } else {
            return Ok(Advance::Waiting);
        },
        Action::Halt { sent: _ } => {
            return Ok(Advance::Finished);
        },
    };
    match actor.step(&event) {
        Ok(_) => {
            match actor.state() {
                ActorState::Stopped => {
                    inbound.close_receiver();
                },
                _ => {},
            }
            Ok(Advance::Happened(event))
        },
        Err(fault) => Err(fault),
    }
}

impl Exchange {
    /// An exchange in which nothing has happened yet: the flag is running,
    /// both channels are empty, and both actors are about to enter their
    /// loops with the pacing that `config` gives.
    pub fn new(config: Config) -> (exchange: Exchange)
        ensures
            exchange@ == ExchangeView::fresh(config),
            exchange@.inv(),
    {
        let exchange = Exchange {
            flag: ShutdownFlag::new(),
            actor_a: Actor::new(ActorId::A, config),
            actor_b: Actor::new(ActorId::B, config),
            a_to_b: Channel::new(),
            b_to_a: Channel::new(),
        };
        exchange
    }

    /// Requests shutdown of both actors. The result is `true` exactly when
    /// this is the first request, which is when the one-time notice is due.
    /// Nothing but the flag changes.
    pub fn request_shutdown(&mut self) -> (notice: bool)
        requires
            old(self)@.inv(),
        ensures
            final(self)@ == old(self)@.after_shutdown_request(),
            notice == !old(self)@.stopped,
            final(self)@.inv(),
    {
        self.flag.set()
    }

    /// Whether shutdown has been requested.
    pub fn shutdown_requested(&self) -> (stopped: bool)
        ensures
            stopped == self@.stopped,
    {
        self.flag.get()
    }

    /// Everything there is to know about the actor `who`.
    pub fn snapshot(&self, who: ActorId) -> (actor: ActorView)
        ensures
            actor == self@.actor(who),
    {
        match who {
            ActorId::A => self.actor_a.snapshot(),
            ActorId::B => self.actor_b.snapshot(),
        }
    }

    /// The action that the actor `who` is asking for.
    pub fn pending(&self, who: ActorId) -> (action: Action)
        ensures
            action@ == self@.actor(who).request(),
    {
        match who {
            ActorId::A => self.actor_a.pending(),
            ActorId::B => self.actor_b.pending(),
        }
    }

    /// Whether a message is waiting for the actor `who`.
    pub fn has_mail(&self, who: ActorId) -> (mail: bool)
        ensures
            mail == (self@.inbound(who).pending.len() > 0),
    {
        match who {
            ActorId::A => !self.b_to_a.is_empty(),
            ActorId::B => !self.a_to_b.is_empty(),
        }
    }

    /// Whether both actors have stopped.
    pub fn is_finished(&self) -> (finished: bool)
        ensures
            finished == self@.finished(),
    {
        let a_stopped = match self.actor_a.state() {
            ActorState::Stopped => true,
            _ => false,
        };
        let b_stopped = match self.actor_b.state() {
            ActorState::Stopped => true,
            _ => false,
        };
        a_stopped && b_stopped
    }

    /// Carries out the action that the actor `who` is asking for, tells the
    /// actor how it went, and says what happened. `waited_ms` is how long the
    /// driver has waited since the actor asked. It matters to a receive,
    /// which goes on (`Advance::Waiting`) while no message is there and the
    /// timeout has not elapsed, and to a sleep, which goes on until the
    /// backoff has elapsed. The other actor is not touched. On a fault
    /// nothing changes.
    pub fn advance(&mut self, who: ActorId, waited_ms: u64) -> (r: Result<Advance, Fault>)
        requires
            old(self)@.inv(),
        ensures
            final(self)@ == old(self)@.next(who, waited_ms),
            advance_view(r) == old(self)@.report(who, waited_ms),
            final(self)@.inv(),
    {
        proof {
            old(self)@.lemma_next_preserves_inv(who, waited_ms);
        }
        match who {
            ActorId::A => drive(
                &self.flag,
                &mut self.actor_a,
                &mut self.a_to_b,
                &mut self.b_to_a,
                waited_ms,
            ),
            ActorId::B => drive(
                &self.flag,
                &mut self.actor_b,
                &mut self.b_to_a,
                &mut self.a_to_b,
                waited_ms,
            ),
        }
    }
}

/// What holds of every exchange, whatever the order in which it is advanced.
impl ExchangeView {
    /// A fresh exchange is as it should be.
    pub proof fn lemma_fresh_inv(config: Config)
        ensures
            Self::fresh(config).inv(),
    {
    }

    /// A request for shutdown leaves the exchange as it should be.
    pub proof fn lemma_shutdown_request_preserves_inv(self)
        requires
            self.inv(),
        ensures
            self.after_shutdown_request().inv(),
    {
    }

    /// A second request for shutdown changes nothing: the exchange after two
    /// requests is the exchange after one, and only a request that finds the
    /// flag running owes the notice.
    pub proof fn lemma_shutdown_request_is_idempotent(self)
        ensures
            self.after_shutdown_request().after_shutdown_request()
                == self.after_shutdown_request(),
            self.after_shutdown_request().stopped,
            self.stopped ==> self.after_shutdown_request() == self,
    {
    }

    /// Whatever actor is advanced, after whatever wait, the exchange stays as
    /// it should be.
    pub proof fn lemma_next_preserves_inv(self, who: ActorId, waited_ms: u64)
        requires
            self.inv(),
        ensures
            self.next(who, waited_ms).inv(),
    {
        let side = self.side(who);
        let message = greeting_message(who, (side.actor.sent + 1) as nat);
        side.outbound.lemma_operations_preserve_inv(message);
        side.inbound.lemma_operations_preserve_inv(message);
    }

    /// Only the side that is advanced moves: the flag stays as it is and the
    /// other actor stays as it is. Of the other actor's channel ends, its
    /// sending end may lose its oldest message to the actor that was
    /// advanced and may find the receiving end gone; nothing else changes.
    pub proof fn lemma_advance_moves_one_side(self, who: ActorId, waited_ms: u64)
        ensures
            self.next(who, waited_ms).stopped == self.stopped,
            self.next(who, waited_ms).actor(who.peer_of()) == self.actor(who.peer_of()),
            self.next(who, waited_ms).inbound(who).sent == self.inbound(who).sent,
            self.next(who, waited_ms).outbound(who).delivered == self.outbound(who).delivered,
            self.next(who, waited_ms).outbound(who).open == self.outbound(who).open,
            self.report(who, waited_ms) is Err ==> self.next(who, waited_ms) == self,
    {
    }

    /// Each direction is first in, first out, and numbered without a gap.
    /// What `who` has sent is on record in the order of the sends, and the
    /// message in place `i` of the record, counted from zero, carries the
    /// sequence number `i + 1`. What the peer has received is the beginning
    /// of that record: the first message sent is the first received, and so
    /// on, with none left out and none twice.
    pub proof fn lemma_first_sent_is_first_received(self, who: ActorId)
        requires
            self.inv(),
        ensures
            ({
                let channel = self.outbound(who);
                let sender = self.actor(who);
                let receiver = self.actor(who.peer_of());
                &&& channel.sent.len() == sender.sent
                &&& channel.delivered.len() == receiver.received
                &&& receiver.received <= sender.sent
                &&& channel.delivered.is_prefix_of(channel.sent)
                &&& channel.sent == channel.delivered + channel.pending
                &&& forall|i: int|
                    0 <= i < channel.sent.len() ==> #[trigger] channel.sent[i] == greeting_message(
                        who,
                        (i + 1) as nat,
                    )
                &&& forall|i: int|
                    0 <= i < channel.delivered.len() ==> #[trigger] channel.delivered[i]
                        == greeting_message(who, (i + 1) as nat)
            }),
    {
        self.outbound(who).lemma_delivery_preserves_send_order();
    }

    /// No wait outlasts its bound, whether or not the peer ever sends: once
    /// the driver has waited as long as the actor's action can take, which
    /// for a receive is the timeout and for a sleep the backoff, `advance`
    /// does not answer `Waiting`. It answers `Waiting` only before that, for
    /// a sleep or for a receive that has nothing to deliver, and then it
    /// changes nothing. It answers `Finished` exactly for an actor that has
    /// stopped.
    pub proof fn lemma_no_wait_outlasts_its_bound(self, who: ActorId, waited_ms: u64)
        ensures
            waited_ms >= self.actor(who).wait() ==> self.report(who, waited_ms) != Ok::<
                AdvanceView,
                Fault,
            >(AdvanceView::Waiting),
            self.report(who, waited_ms) == Ok::<AdvanceView, Fault>(AdvanceView::Waiting) ==> {
                &&& waited_ms < self.actor(who).wait()
                &&& self.actor(who).request() is Receive || self.actor(who).request() is Sleep
                &&& self.actor(who).request() is Receive ==> self.inbound(who).pending.len() == 0
                &&& self.next(who, waited_ms) == self
            },
            self.report(who, waited_ms) == Ok::<AdvanceView, Fault>(AdvanceView::Finished)
                <==> self.actor(who).phase == Phase::Stopped,
            self.actor(who).wait() <= self.actor(who).config.cycle_bound(),
    {
    }

    /// Whether the flag was set before either actor sent anything, and
    /// nothing has been sent since.
    pub open spec fn silent(self) -> bool {
        &&& self.stopped
        &&& self.a.sent == 0
        &&& self.b.sent == 0
        &&& self.a.events_to_stop() <= 2
        &&& self.b.events_to_stop() <= 2
    }

    /// If the flag is set before either actor has sent its first message,
    /// the two actors exchange nothing and both stop. However the exchange is
    /// advanced from there, it stays silent: no message is ever sent, on
    /// record or in flight. Each actor needs two actions to stop, the reading
    /// of the flag and its one final receive, and that receive is the only
    /// wait: it is over after one timeout, which is within one timeout and
    /// one backoff.
    pub proof fn lemma_stopped_before_start(self, config: Config, who: ActorId, waited_ms: u64)
        requires
            self.inv(),
            self.silent(),
        ensures
            Self::fresh(config).after_shutdown_request().inv(),
            Self::fresh(config).after_shutdown_request().silent(),
            self.next(who, waited_ms).inv(),
            self.next(who, waited_ms).silent(),
            self.a_to_b.sent.len() == 0 && self.b_to_a.sent.len() == 0,
            self.a_to_b.pending.len() == 0 && self.b_to_a.pending.len() == 0,
            self.report(who, waited_ms) is Ok,
            self.report(who, waited_ms)->Ok_0 is Happened ==> self.next(
                who,
                waited_ms,
            ).actor(who).events_to_stop() + 1 == self.actor(who).events_to_stop(),
            waited_ms >= self.actor(who).config.timeout_ms ==> !(self.report(who, waited_ms)->Ok_0
                is Waiting),
            self.actor(who).wait() <= self.actor(who).config.timeout_ms,
            self.actor(who).config.timeout_ms <= self.actor(who).config.cycle_bound(),
            self.finished() <==> self.a.events_to_stop() + self.b.events_to_stop() == 0,
    {
        Self::lemma_fresh_inv(config);
        Self::fresh(config).lemma_shutdown_request_preserves_inv();
        self.lemma_next_preserves_inv(who, waited_ms);
    }

    /// While the flag is running, both actors run and keep sending. Advancing
    /// an actor never ends in a fault and never finds the peer gone; unless
    /// the actor is still waiting for a message, the step either is the
    /// acceptance of its next message, which raises its count by one, or
    /// brings that acceptance nearer, by count of actions and by the time
    /// left to wait. So the count of each actor goes up within five of its
    /// actions, after waits of no more than one timeout and one backoff in
    /// all. This is stated for actors that have a sequence number left.
    pub proof fn lemma_running_exchange_keeps_sending(self, who: ActorId, waited_ms: u64)
        requires
            self.inv(),
            !self.stopped,
            self.actor(who).sent < u64::MAX,
        ensures
            ({
                let before = self.actor(who);
                let after = self.next(who, waited_ms).actor(who);
                let report = self.report(who, waited_ms);
                &&& before.state() == ActorState::Running
                &&& after.state() == ActorState::Running
                &&& report is Ok
                &&& report->Ok_0 != AdvanceView::Happened(EventView::PeerClosed)
                &&& !(report->Ok_0 is Finished)
                &&& waited_ms >= before.wait() ==> report->Ok_0 is Happened
                &&& report->Ok_0 is Happened && before.phase == Phase::Sending ==> after.sent
                    == before.sent + 1
                &&& report->Ok_0 is Happened && before.phase != Phase::Sending ==> {
                    &&& after.sent == before.sent
                    &&& after.events_to_send() < before.events_to_send()
                    &&& before.wait() + after.wait_to_send() <= before.wait_to_send()
                }
                &&& 1 <= before.events_to_send() <= 5
                &&& before.wait_to_send() <= before.config.cycle_bound()
            }),
    {
    }

    /// Once the flag is set, both actors come to a stop, because both read
    /// the same flag. Advancing an actor never ends in a fault; unless the
    /// actor is still waiting for a message, which it does for one timeout at
    /// most, every step brings it nearer to its end, by count of actions and
    /// by the time left to wait; and the flag stays set. The end is never
    /// more than five actions away. The actor leaves the running state after
    /// waits of one timeout and one backoff at most, and stops after one
    /// timeout more.
    pub proof fn lemma_stopped_exchange_winds_down(self, who: ActorId, waited_ms: u64)
        requires
            self.inv(),
            self.stopped,
        ensures
            ({
                let before = self.actor(who);
                let after = self.next(who, waited_ms).actor(who);
                let report = self.report(who, waited_ms);
                &&& self.next(who, waited_ms).stopped
                &&& report is Ok
                &&& waited_ms >= before.wait() ==> !(report->Ok_0 is Waiting)
                &&& report->Ok_0 is Happened ==> after.events_to_stop() < before.events_to_stop()
                &&& report->Ok_0 is Happened ==> before.wait() + after.wait_to_stop()
                    <= before.wait_to_stop()
                &&& report->Ok_0 is Happened && after.state() == ActorState::Running
                    ==> before.wait() + after.wait_to_notice() <= before.wait_to_notice()
                &&& before.wait_to_notice() <= before.config.cycle_bound()
                &&& before.wait_to_stop() <= before.config.cycle_bound()
                    + before.config.timeout_ms
                &&& report->Ok_0 is Finished <==> before.phase == Phase::Stopped
                &&& before.events_to_stop() <= 5
                &&& before.events_to_stop() == 0 <==> before.phase == Phase::Stopped
            }),
    {
    }
}

} // verus!
