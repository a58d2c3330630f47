//! The actor: one of the two symmetric workers, as a state machine.
//!
//! An actor never blocks and never touches a channel, a clock or the shutdown
//! flag itself. It says what has to be done next (an [`Action`]), is told how
//! that went (an [`Event`]), and decides what follows. Whoever drives it
//! performs the actions.

use crate::message::{greeting_message, ActorId, Message, MessageView};
use vstd::prelude::*;

verus! {

/// The two intervals that pace an actor, in milliseconds.
#[derive(Clone, Copy, Debug, PartialEq, Eq, Structural)]
pub struct Config {
    /// How long a receive may wait for a message.
    pub timeout_ms: u64,
    /// How long the actor sleeps at the end of every round of its loop.
    pub backoff_ms: u64,
}

impl Config {
    /// The longest that one round of the loop can wait: one receive and one
    /// backoff sleep.
    pub open spec fn cycle_bound(self) -> nat {
        (self.timeout_ms + self.backoff_ms) as nat
    }

    /// The reference pacing: a timeout of one second and a backoff of half a
    /// second.
    pub fn reference() -> (config: Config)
        ensures
            config == (Config { timeout_ms: 1000, backoff_ms: 500 }),
    {
        Config { timeout_ms: 1000, backoff_ms: 500 }
    }
}

/// The life of an actor: it runs, then drains, then has stopped.
#[derive(Clone, Copy, Debug, PartialEq, Eq, Structural)]
pub enum ActorState {
    Running,
    Draining,
    Stopped,
}

/// Where an actor stands: what it has asked for and is waiting to hear about.
#[derive(Clone, Copy, Debug, PartialEq, Eq, Structural)]
pub enum Phase {
    /// At the top of the loop, waiting for a reading of the shutdown flag.
    CheckingFlag,
    /// Waiting to hear whether the message it handed over was accepted.
    Sending,
    /// Waiting for a message from the peer, or for the timeout.
    Receiving,
    /// After a timeout, waiting for a second reading of the shutdown flag.
    RecheckingFlag,
    /// Sleeping out the backoff at the end of the round.
    BackingOff,
    /// Shutdown was seen: waiting for the one final receive attempt to end.
    Draining,
    /// Done. Nothing more is asked for and nothing more is accepted.
    Stopped,
}

impl Phase {
    /// The state of the actor's life that the phase belongs to.
    pub open spec fn state(self) -> ActorState {
        match self {
            Phase::Draining => ActorState::Draining,
            Phase::Stopped => ActorState::Stopped,
            _ => ActorState::Running,
        }
    }
}

/// What happened to the action that an actor asked for.
#[derive(Debug, PartialEq, Eq)]
pub enum Event {
    /// The shutdown flag was read.
    Flag { stopped: bool },
    /// The channel accepted the message.
    Sent,
    /// The send failed: the peer's receiving end is gone.
    PeerClosed,
    /// A message arrived within the timeout.
    Received(Message),
    /// The timeout elapsed and no message arrived.
    TimedOut,
    /// The sleep is over.
    Woke,
}

/// An event, with the message it may carry seen as a [`MessageView`].
pub enum EventView {
    Flag { stopped: bool },
    Sent,
    PeerClosed,
    Received(MessageView),
    TimedOut,
    Woke,
}

impl View for Event {
    type V = EventView;

    open spec fn view(&self) -> EventView {
        match *self {
            Event::Flag { stopped } => EventView::Flag { stopped },
            Event::Sent => EventView::Sent,
            Event::PeerClosed => EventView::PeerClosed,
            Event::Received(message) => EventView::Received(message@),
            Event::TimedOut => EventView::TimedOut,
            Event::Woke => EventView::Woke,
        }
    }
}

/// What an actor asks its driver to do next.
#[derive(Debug, PartialEq, Eq)]
pub enum Action {
    /// Read the shutdown flag; answer with `Event::Flag`.
    CheckShutdown,
    /// Send this message on the actor's sending end; answer with
    /// `Event::Sent` or `Event::PeerClosed`.
    Send(Message),
    /// Wait on the actor's receiving end for at most this long; answer with
    /// `Event::Received` or `Event::TimedOut`.
    Receive { timeout_ms: u64 },
    /// Sleep for this long; answer with `Event::Woke`.
    Sleep { millis: u64 },
    /// The actor has stopped: give the shutdown notice and end, with this as
    /// the final count of messages sent. No event answers it.
    Halt { sent: u64 },
}

/// An action, with the message it may carry seen as a [`MessageView`].
pub enum ActionView {
    CheckShutdown,
    Send(MessageView),
    Receive { timeout_ms: u64 },
    Sleep { millis: u64 },
    Halt { sent: u64 },
}

impl View for Action {
    type V = ActionView;

    open spec fn view(&self) -> ActionView {
        match *self {
            Action::CheckShutdown => ActionView::CheckShutdown,
            Action::Send(message) => ActionView::Send(message@),
            Action::Receive { timeout_ms } => ActionView::Receive { timeout_ms },
            Action::Sleep { millis } => ActionView::Sleep { millis },
            Action::Halt { sent } => ActionView::Halt { sent },
        }
    }
}

/// A fault inside an actor. None is recovered from: the driver passes it on
/// to the supervisor.
#[derive(Clone, Copy, Debug, PartialEq, Eq, Structural)]
pub enum Fault {
    /// The event does not answer the action that the actor asked for.
    UnexpectedEvent,
    /// The actor has used up its sequence numbers and cannot stamp another
    /// message.
    SequenceExhausted,
}

/// Everything there is to know about an actor.
#[derive(Clone, Copy, Debug, PartialEq, Eq, Structural)]
pub struct ActorView {
    /// Which of the two actors.
    pub id: ActorId,
    /// Its pacing.
    pub config: Config,
    /// Where it stands.
    pub phase: Phase,
    /// The number of messages that the channel has accepted from it. The
    /// message it sends next carries this number plus one.
    pub sent: u64,
    /// The number of messages it has received, which stops counting at
    /// `u64::MAX`.
    pub received: u64,
}

impl ActorView {
    /// An actor about to enter its loop, with nothing sent or received.
    pub open spec fn fresh(id: ActorId, config: Config) -> ActorView {
        ActorView { id, config, phase: Phase::CheckingFlag, sent: 0, received: 0 }
    }

    /// While a send is under way there is a sequence number for it.
    pub open spec fn inv(self) -> bool {
        self.phase == Phase::Sending ==> self.sent < u64::MAX
    }

    /// The state of the actor's life.
    pub open spec fn state(self) -> ActorState {
        self.phase.state()
    }

    /// The action that the actor is asking for.
    pub open spec fn request(self) -> ActionView {
        match self.phase {
            Phase::CheckingFlag | Phase::RecheckingFlag => ActionView::CheckShutdown,
            Phase::Sending => ActionView::Send(
                greeting_message(self.id, (self.sent + 1) as nat),
            ),
            Phase::Receiving | Phase::Draining => ActionView::Receive {
                timeout_ms: self.config.timeout_ms,
            },
            Phase::BackingOff => ActionView::Sleep { millis: self.config.backoff_ms },
            Phase::Stopped => ActionView::Halt { sent: self.sent },
        }
    }

    /// The actor in another phase, all else unchanged.
    pub open spec fn at(self, phase: Phase) -> ActorView {
        ActorView { phase, ..self }
    }

    /// The actor after one more message has arrived.
    pub open spec fn with_one_received(self) -> ActorView {
        ActorView {
            received: if self.received < u64::MAX {
                (self.received + 1) as u64
            } else {
                self.received
            },
            ..self
        }
    }

    /// The actor once it has heard `event`, or the fault if it cannot take
    /// the event.
    ///
    /// - At the top of the loop a stopped flag leads to draining; a running
    ///   flag leads to the send of the next message.
    /// - An accepted send is counted and leads to the receive; a send that
    ///   fails because the peer is gone stops the actor at once.
    /// - A message received leads to the backoff; a timeout leads to a second
    ///   look at the flag, which leads to the backoff if the flag is still
    ///   running and to draining if not.
    /// - After the backoff the loop starts over.
    /// - Draining ends the actor whatever the final receive brought.
    /// - An event that does not answer the outstanding action is a fault, and
    ///   so is any event once the actor has stopped.
    pub open spec fn transition(self, event: EventView) -> Result<ActorView, Fault> {
        match (self.phase, event) {
            (Phase::CheckingFlag, EventView::Flag { stopped }) => {
                if stopped {
                    Ok(self.at(Phase::Draining))
                } else if self.sent == u64::MAX {
                    Err(Fault::SequenceExhausted)
                } else {
                    Ok(self.at(Phase::Sending))
                }
            },
            (Phase::Sending, EventView::Sent) => Ok(
                ActorView { sent: (self.sent + 1) as u64, phase: Phase::Receiving, ..self },
            ),
            (Phase::Sending, EventView::PeerClosed) => Ok(self.at(Phase::Stopped)),
            (Phase::Receiving, EventView::Received(_)) => Ok(
                self.with_one_received().at(Phase::BackingOff),
            ),
            (Phase::Receiving, EventView::TimedOut) => Ok(self.at(Phase::RecheckingFlag)),
            (Phase::RecheckingFlag, EventView::Flag { stopped }) => {
                if stopped {
                    Ok(self.at(Phase::Draining))
                } else {
                    Ok(self.at(Phase::BackingOff))
                }
            },
            (Phase::BackingOff, EventView::Woke) => Ok(self.at(Phase::CheckingFlag)),
            (Phase::Draining, EventView::Received(_)) => Ok(
                self.with_one_received().at(Phase::Stopped),
            ),
            (Phase::Draining, EventView::TimedOut) => Ok(self.at(Phase::Stopped)),
            _ => Err(Fault::UnexpectedEvent),
        }
    }
}

/// What holds of every actor, whoever drives it.
impl ActorView {
    /// The longest that the action which the actor is asking for can take:
    /// a receive is over after the timeout, a sleep after the backoff, and
    /// nothing else waits at all.
    pub open spec fn wait(self) -> nat {
        match self.request() {
            ActionView::Receive { timeout_ms } => timeout_ms as nat,
            ActionView::Sleep { millis } => millis as nat,
            _ => 0,
        }
    }

    /// How far along its life the actor is.
    pub open spec fn age(self) -> nat {
        match self.state() {
            ActorState::Running => 0,
            ActorState::Draining => 1,
            ActorState::Stopped => 2,
        }
    }

    /// The number of events, at most, until a running actor hears that its
    /// next message was sent, while the flag reads running and the peer is
    /// there.
    pub open spec fn events_to_send(self) -> nat {
        match self.phase {
            Phase::Sending => 1,
            Phase::CheckingFlag => 2,
            Phase::BackingOff => 3,
            Phase::RecheckingFlag => 4,
            _ => 5,
        }
    }

    /// The time, at most, that a running actor waits before it hands over its
    /// next message, while the flag reads running.
    pub open spec fn wait_to_send(self) -> nat {
        match self.phase {
            Phase::Receiving => self.config.cycle_bound(),
            Phase::RecheckingFlag | Phase::BackingOff => self.config.backoff_ms as nat,
            _ => 0,
        }
    }

    /// The time, at most, that a running actor waits before it next reads the
    /// flag.
    pub open spec fn wait_to_notice(self) -> nat {
        match self.phase {
            Phase::Sending | Phase::Receiving => self.config.cycle_bound(),
            Phase::BackingOff => self.config.backoff_ms as nat,
            _ => 0,
        }
    }

    /// The number of events, at most, until the actor has stopped, once the
    /// flag reads stopped.
    pub open spec fn events_to_stop(self) -> nat {
        match self.phase {
            Phase::Stopped => 0,
            Phase::Draining => 1,
            Phase::CheckingFlag | Phase::RecheckingFlag => 2,
            Phase::BackingOff => 3,
            Phase::Receiving => 4,
            Phase::Sending => 5,
        }
    }

    /// The time, at most, that the actor waits before it has stopped, once
    /// the flag reads stopped: whatever is left of its round, and then the
    /// one final receive.
    pub open spec fn wait_to_stop(self) -> nat {
        match self.phase {
            Phase::Stopped => 0,
            Phase::Draining | Phase::CheckingFlag | Phase::RecheckingFlag => {
                self.config.timeout_ms as nat
            },
            Phase::BackingOff => self.config.cycle_bound(),
            Phase::Receiving | Phase::Sending => (self.config.cycle_bound()
                + self.config.timeout_ms) as nat,
        }
    }

    /// The number of rounds that the actor has seen through to the end of
    /// their sleep, at most: the messages sent, less one for as long as the
    /// sleep that follows the last of them has not ended.
    pub open spec fn rounds_slept(self) -> int {
        match self.phase {
            Phase::CheckingFlag | Phase::Sending => self.sent as int,
            _ => self.sent - 1,
        }
    }

    /// Whether `event` is one that can come while the flag reads `stopped`.
    pub open spec fn flag_reads(event: EventView, stopped: bool) -> bool {
        event matches EventView::Flag { stopped: seen } ==> seen == stopped
    }

    /// The actor after it has heard `events` one after the other, or the
    /// first fault on the way.
    pub open spec fn run(self, events: Seq<EventView>) -> Result<ActorView, Fault>
        decreases events.len(),
    {
        if events.len() == 0 {
            Ok(self)
        } else {
            match self.transition(events[0]) {
                Ok(next) => next.run(events.drop_first()),
                Err(fault) => Err(fault),
            }
        }
    }

    /// The messages that the channel accepted from the actor while it heard
    /// `events`, oldest first.
    pub open spec fn accepted(self, events: Seq<EventView>) -> Seq<MessageView>
        decreases events.len(),
    {
        if events.len() == 0 {
            Seq::empty()
        } else {
            match self.transition(events[0]) {
                Ok(next) => {
                    let later = next.accepted(events.drop_first());
                    if self.phase == Phase::Sending && events[0] == EventView::Sent {
                        seq![greeting_message(self.id, (self.sent + 1) as nat)] + later
                    } else {
                        later
                    }
                },
                Err(_) => Seq::empty(),
            }
        }
    }

    /// No event breaks the actor: what `transition` gives is an actor again,
    /// with the same identity and the same pacing.
    pub proof fn lemma_transition_preserves_inv(self, event: EventView)
        requires
            self.inv(),
        ensures
            self.transition(event) matches Ok(next) ==> next.inv() && next.id == self.id
                && next.config == self.config,
    {
    }

    /// The counter of sent messages goes up by exactly one when a send is
    /// accepted and stays as it is on every other event, so it never goes
    /// down; and the message handed over during a send carries the counter
    /// plus one. The counter of received messages never goes down either.
    pub proof fn lemma_sent_counts_accepted_sends(self, event: EventView)
        requires
            self.inv(),
        ensures
            self.phase == Phase::Sending ==> self.request() == ActionView::Send(
                greeting_message(self.id, (self.sent + 1) as nat),
            ),
            self.transition(event) matches Ok(next) ==> {
                &&& (self.phase == Phase::Sending && event == EventView::Sent) ==> next.sent
                    == self.sent + 1
                &&& !(self.phase == Phase::Sending && event == EventView::Sent) ==> next.sent
                    == self.sent
                &&& next.received >= self.received
            },
    {
    }

    /// Over any run without a fault, the messages that the channel accepted
    /// carry consecutive sequence numbers, starting one above the count at
    /// the start of the run: none is skipped and none comes twice. The count
    /// at the end of the run is the count at its start plus their number.
    pub proof fn lemma_sequence_numbers_are_consecutive(self, events: Seq<EventView>)
        requires
            self.inv(),
            self.run(events) is Ok,
        ensures
            self.run(events)->Ok_0.inv(),
            self.run(events)->Ok_0.id == self.id,
            self.run(events)->Ok_0.sent == self.sent + self.accepted(events).len(),
            forall|i: int|
                0 <= i < self.accepted(events).len() ==> #[trigger] self.accepted(events)[i]
                    == greeting_message(self.id, (self.sent + 1 + i) as nat),
        decreases events.len(),
    {
        if events.len() > 0 {
            let next = self.transition(events[0])->Ok_0;
            next.lemma_sequence_numbers_are_consecutive(events.drop_first());
        }
    }

    /// An actor's life only moves forward, from running to draining to
    /// stopped, and an actor that has stopped takes no event at all.
    pub proof fn lemma_life_moves_forward(self, event: EventView)
        ensures
            self.transition(event) matches Ok(next) ==> self.age() <= next.age(),
            self.phase == Phase::Stopped ==> self.transition(event) == Err::<ActorView, Fault>(
                Fault::UnexpectedEvent,
            ),
            self.phase == Phase::Stopped ==> self.request() == (ActionView::Halt {
                sent: self.sent,
            }),
    {
    }

    /// If the flag reads stopped before an actor has sent anything, the actor
    /// sends nothing at all: it goes straight to its one final receive, which
    /// waits no longer than the timeout, and then stops with a count of zero,
    /// whatever that receive brought.
    pub proof fn lemma_stopped_before_first_send(
        id: ActorId,
        config: Config,
        last: EventView,
    )
        requires
            last is Received || last is TimedOut,
        ensures
            ({
                let start = ActorView::fresh(id, config);
                let draining = start.at(Phase::Draining);
                let stopped = draining.transition(last)->Ok_0;
                &&& start.inv()
                &&& start.request() == ActionView::CheckShutdown
                &&& start.transition(EventView::Flag { stopped: true }) == Ok::<ActorView, Fault>(
                    draining,
                )
                &&& draining.request() == (ActionView::Receive { timeout_ms: config.timeout_ms })
                &&& draining.wait() <= config.cycle_bound()
                &&& draining.transition(last) is Ok
                &&& stopped.phase == Phase::Stopped
                &&& stopped.sent == 0
                &&& stopped.request() == (ActionView::Halt { sent: 0 })
            }),
    {
    }

    /// While the flag reads running and the peer is there, a running actor
    /// keeps running and keeps sending. Every event either is the acceptance
    /// of its next message or brings that acceptance nearer, by count of
    /// events and by the time that is left to wait; the acceptance is never
    /// more than five events away, and the waiting on the way to it is never
    /// more than one timeout and one backoff.
    pub proof fn lemma_running_actor_keeps_sending(self, event: EventView)
        requires
            self.inv(),
            self.state() == ActorState::Running,
            Self::flag_reads(event, false),
            event != EventView::PeerClosed,
            self.transition(event) is Ok,
        ensures
            ({
                let next = self.transition(event)->Ok_0;
                &&& next.state() == ActorState::Running
                &&& self.phase == Phase::Sending ==> next.sent == self.sent + 1
                &&& self.phase != Phase::Sending ==> {
                    &&& next.sent == self.sent
                    &&& next.events_to_send() < self.events_to_send()
                    &&& self.wait() + next.wait_to_send() <= self.wait_to_send()
                }
            }),
            1 <= self.events_to_send() <= 5,
            self.wait_to_send() <= self.config.cycle_bound(),
    {
    }

    /// While the flag reads running and the peer is there, any five events
    /// in a row that a running actor hears include the acceptance of a
    /// message: its count of sent messages is higher after them than before.
    pub proof fn lemma_five_events_include_a_send(self, events: Seq<EventView>)
        requires
            self.inv(),
            self.state() == ActorState::Running,
            events.len() == 5,
            forall|i: int|
                0 <= i < 5 ==> Self::flag_reads(#[trigger] events[i], false) && events[i]
                    != EventView::PeerClosed,
            self.run(events) is Ok,
        ensures
            self.run(events)->Ok_0.sent > self.sent,
    {
        reveal_with_fuel(ActorView::run, 6);
        assert(events.drop_first()[0] == events[1]);
        assert(events.drop_first().drop_first()[0] == events[2]);
        assert(events.drop_first().drop_first().drop_first()[0] == events[3]);
        assert(events.drop_first().drop_first().drop_first().drop_first()[0] == events[4]);
    }

    /// Nothing but the end of a sleep lets an actor start another round: the
    /// count of rounds slept goes up by one when a sleep ends and on no other
    /// event, so that between two messages of an actor there is always one
    /// sleep.
    pub proof fn lemma_every_round_ends_with_a_sleep(self, event: EventView)
        requires
            self.inv(),
        ensures
            self.transition(event) matches Ok(next) ==> {
                &&& self.phase == Phase::BackingOff ==> next.rounds_slept() == self.rounds_slept()
                    + 1
                &&& self.phase != Phase::BackingOff ==> next.rounds_slept()
                    <= self.rounds_slept()
            },
            self.sent - 1 <= self.rounds_slept() <= self.sent,
    {
    }

    /// Cancellation is noticed within one timeout and one backoff: on its way
    /// to the next reading of the flag a running actor waits no longer than
    /// that, and every event on the way uses up its share of that time.
    pub proof fn lemma_cancellation_latency(self, event: EventView)
        requires
            self.inv(),
            self.state() == ActorState::Running,
            self.transition(event) is Ok,
        ensures
            ({
                let next = self.transition(event)->Ok_0;
                next.state() == ActorState::Running ==> {
                    ||| self.request() == ActionView::CheckShutdown
                    ||| self.wait() + next.wait_to_notice() <= self.wait_to_notice()
                }
            }),
            self.request() == ActionView::CheckShutdown ==> self.wait_to_notice() == 0,
            self.wait_to_notice() <= self.config.cycle_bound(),
    {
    }

    /// Once the flag reads stopped, every event brings the actor nearer to
    /// its end, by count of events and by the time that is left to wait. The
    /// end is never more than five events away, and the waiting on the way to
    /// it is never more than what is left of the round and one timeout more.
    /// A reading of the flag ends the running state at once, and draining
    /// ends with the first event, after a wait of one timeout at most.
    pub proof fn lemma_stopped_flag_ends_the_actor(self, event: EventView)
        requires
            self.inv(),
            Self::flag_reads(event, true),
            self.transition(event) is Ok,
        ensures
            ({
                let next = self.transition(event)->Ok_0;
                &&& next.events_to_stop() < self.events_to_stop()
                &&& self.wait() + next.wait_to_stop() <= self.wait_to_stop()
                &&& event is Flag ==> next.phase == Phase::Draining
                &&& self.phase == Phase::Draining ==> next.phase == Phase::Stopped && self.wait()
                    == self.config.timeout_ms
            }),
            self.events_to_stop() <= 5,
            self.wait_to_stop() <= self.config.cycle_bound() + self.config.timeout_ms,
    {
    }
}

/// One of the two actors.
pub struct Actor {
    core: ActorView,
}

impl View for Actor {
    type V = ActorView;

    closed spec fn view(&self) -> ActorView {
        self.core
    }
}

impl Actor {
    #[verifier::type_invariant]
    spec fn well_formed(self) -> bool {
        self.core.inv()
    }

    /// An actor about to enter its loop.
    pub fn new(id: ActorId, config: Config) -> (actor: Actor)
        ensures
            actor@ == ActorView::fresh(id, config),
            actor@.inv(),
    {
        Actor {
            core: ActorView { id, config, phase: Phase::CheckingFlag, sent: 0, received: 0 },
        }
    }

    /// An actor that takes up where `snapshot` stands. There is none, and the
    /// result is `None`, exactly when the snapshot shows a send under way with
    /// no sequence number left for it.
    pub fn resume(snapshot: ActorView) -> (actor: Option<Actor>)
        ensures
            match actor {
                Some(actor) => actor@ == snapshot && snapshot.inv(),
                None => !snapshot.inv(),
            },
    {
        let sending = match snapshot.phase {
            Phase::Sending => true,
            _ => false,
        };
        if sending && snapshot.sent == u64::MAX {
            None
        } else {
            Some(Actor { core: snapshot })
        }
    }

    /// Everything there is to know about the actor.
    pub fn snapshot(&self) -> (view: ActorView)
        ensures
            view == self@,
            view.inv(),
    {
        proof {
            use_type_invariant(self);
        }
        self.core
    }

    /// Which of the two actors this is.
    pub fn id(&self) -> (id: ActorId)
        ensures
            id == self@.id,
    {
        self.core.id
    }

    /// The state of the actor's life.
    pub fn state(&self) -> (state: ActorState)
        ensures
            state == self@.state(),
    {
        match self.core.phase {
            Phase::Draining => ActorState::Draining,
            Phase::Stopped => ActorState::Stopped,
            _ => ActorState::Running,
        }
    }

    /// The number of messages that the channel has accepted from this actor.
    pub fn sent(&self) -> (sent: u64)
        ensures
            sent == self@.sent,
    {
        self.core.sent
    }

    /// The number of messages that this actor has received.
    pub fn received(&self) -> (received: u64)
        ensures
            received == self@.received,
    {
        self.core.received
    }

    /// The action that the actor is asking for. It asks for the same action
    /// until it hears of an event.
    pub fn pending(&self) -> (action: Action)
        ensures
            action@ == self@.request(),
    {
        proof {
            use_type_invariant(self);
        }
        match self.core.phase {
            Phase::CheckingFlag | Phase::RecheckingFlag => Action::CheckShutdown,
            Phase::Sending => Action::Send(Message::greeting(self.core.id, self.core.sent + 1)),
            Phase::Receiving | Phase::Draining => Action::Receive {
                timeout_ms: self.core.config.timeout_ms,
            },
            Phase::BackingOff => Action::Sleep { millis: self.core.config.backoff_ms },
            Phase::Stopped => Action::Halt { sent: self.core.sent },
        }
    }

    /// Tells the actor what happened to the action it asked for, and returns
    /// the action it asks for next. The actor moves as `ActorView::transition`
    /// says. On a fault it stays as it was.
    pub fn step(&mut self, event: &Event) -> (r: Result<Action, Fault>)
        ensures
            match old(self)@.transition(event@) {
                Ok(next) => final(self)@ == next && r is Ok && r->Ok_0@ == next.request(),
                Err(fault) => final(self)@ == old(self)@ && r is Err && r->Err_0 == fault,
            },
            final(self)@.inv(),
    {
        proof {
            use_type_invariant(&*self);
        }
        let now = self.core;
        let next: ActorView = match (now.phase, event) {
            (Phase::CheckingFlag, Event::Flag { stopped }) => {
                if *stopped {
                    ActorView { phase: Phase::Draining, ..now }
                } else if now.sent == u64::MAX {
                    return Err(Fault::SequenceExhausted);
                } else {
                    ActorView { phase: Phase::Sending, ..now }
                }
            },
            (Phase::Sending, Event::Sent) => ActorView {
                sent: now.sent + 1,
                phase: Phase::Receiving,
                ..now
            },
            (Phase::Sending, Event::PeerClosed) => ActorView { phase: Phase::Stopped, ..now },
            (Phase::Receiving, Event::Received(_)) => ActorView {
                received: if now.received < u64::MAX {
                    now.received + 1
                } else {
                    now.received
                },
                phase: Phase::BackingOff,
                ..now
            },
            (Phase::Receiving, Event::TimedOut) => ActorView {
                phase: Phase::RecheckingFlag,
                ..now
            },
            (Phase::RecheckingFlag, Event::Flag { stopped }) => {
                if *stopped {
                    ActorView { phase: Phase::Draining, ..now }
                } else {
                    ActorView { phase: Phase::BackingOff, ..now }
                }
            },
            (Phase::BackingOff, Event::Woke) => ActorView { phase: Phase::CheckingFlag, ..now },
            (Phase::Draining, Event::Received(_)) => ActorView {
                received: if now.received < u64::MAX {
                    now.received + 1
                } else {
                    now.received
                },
                phase: Phase::Stopped,
                ..now
            },
            (Phase::Draining, Event::TimedOut) => ActorView { phase: Phase::Stopped, ..now },
            _ => {
                return Err(Fault::UnexpectedEvent);
            },
        };
        self.core = next;
        Ok(self.pending())
    }
}

} // verus!
