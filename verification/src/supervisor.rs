//! The supervisor: what is done at startup, what is waited for, and how the
//! process ends.
//!
//! Like an actor, the supervisor decides and leaves the doing to its driver:
//! it hands out a [`Directive`] and is told of a [`Report`].

use crate::message::ActorId;
use vstd::prelude::*;

verus! {

/// How the process ends.
#[derive(Clone, Copy, Debug, PartialEq, Eq, Structural)]
pub enum ExitStatus {
    /// Both actors have stopped.
    Success,
    /// The interrupt handler could not be installed. No actor was started.
    HandlerInstallFailure,
    /// An actor ended in a fault. Nothing makes up for that.
    ActorFault,
}

impl ExitStatus {
    /// The exit code that stands for the status: zero for success, and the
    /// code of an aborted process for the rest.
    pub open spec fn code_of(self) -> u8 {
        match self {
            ExitStatus::Success => 0,
            _ => 101,
        }
    }

    /// The exit code of the process.
    pub fn code(self) -> (code: u8)
        ensures
            code == self.code_of(),
            code == 0 <==> self == ExitStatus::Success,
    {
        match self {
            ExitStatus::Success => 0,
            _ => 101,
        }
    }
}

/// What the supervisor is told.
#[derive(Clone, Copy, Debug, PartialEq, Eq, Structural)]
pub enum Report {
    /// The interrupt handler is in place.
    HandlerInstalled,
    /// The interrupt handler could not be installed.
    HandlerFailed,
    /// This actor has stopped and its thread has ended, with this as its
    /// final count of messages sent.
    ActorStopped { who: ActorId, sent: u64 },
    /// This actor's thread ended in a fault.
    ActorFaulted { who: ActorId },
}

/// What the supervisor asks for.
#[derive(Clone, Copy, Debug, PartialEq, Eq, Structural)]
pub enum Directive {
    /// Install the interrupt handler, which requests shutdown.
    InstallHandler,
    /// Start both actors, then wait for them.
    StartActors,
    /// Go on waiting for the actor that has not ended yet.
    KeepWaiting,
    /// End the process with this status.
    Exit(ExitStatus),
}

/// Where the supervisor stands.
#[derive(Clone, Copy, Debug, PartialEq, Eq, Structural)]
pub enum Stage {
    /// The handler is being installed. No actor has been started.
    Installing,
    /// Both actors were started and not both have stopped.
    Supervising,
    /// The process is to end.
    Exited(ExitStatus),
}

/// Everything there is to know about a supervisor.
#[derive(Clone, Copy, Debug, PartialEq, Eq, Structural)]
pub struct SupervisorView {
    pub stage: Stage,
    /// The final count of actor `A`, once it has stopped.
    pub final_a: Option<u64>,
    /// The final count of actor `B`, once it has stopped.
    pub final_b: Option<u64>,
}

impl SupervisorView {
    /// A supervisor at the start of a run.
    pub open spec fn fresh() -> SupervisorView {
        SupervisorView { stage: Stage::Installing, final_a: None, final_b: None }
    }

    /// The final count of the actor `who`, once it has stopped.
    pub open spec fn final_count(self, who: ActorId) -> Option<u64> {
        match who {
            ActorId::A => self.final_a,
            ActorId::B => self.final_b,
        }
    }

    /// The supervisor with the final count of `who` on record.
    pub open spec fn with_final_count(self, who: ActorId, sent: u64) -> SupervisorView {
        match who {
            ActorId::A => SupervisorView { final_a: Some(sent), ..self },
            ActorId::B => SupervisorView { final_b: Some(sent), ..self },
        }
    }

    /// What the supervisor asks for.
    pub open spec fn directive(self) -> Directive {
        match self.stage {
            Stage::Installing => Directive::InstallHandler,
            Stage::Supervising => if self.final_a is Some || self.final_b is Some {
                Directive::KeepWaiting
            } else {
                Directive::StartActors
            },
            Stage::Exited(status) => Directive::Exit(status),
        }
    }

    /// The supervisor after `report`, or `None` if the report has no place
    /// where the supervisor stands.
    ///
    /// - A handler that could not be installed ends the process before any
    ///   actor is started.
    /// - With the handler in place both actors are started.
    /// - An actor that stops leaves its final count. The process ends with
    ///   success when both actors have stopped, and not before.
    /// - An actor that ends in a fault ends the process with a failure.
    /// - An actor stops once, and nothing is heard after the end.
    pub open spec fn after(self, report: Report) -> Option<SupervisorView> {
        match (self.stage, report) {
            (Stage::Installing, Report::HandlerInstalled) => Some(
                SupervisorView { stage: Stage::Supervising, ..self },
            ),
            (Stage::Installing, Report::HandlerFailed) => Some(
                SupervisorView {
                    stage: Stage::Exited(ExitStatus::HandlerInstallFailure),
                    ..self
                },
            ),
            (Stage::Supervising, Report::ActorStopped { who, sent }) => {
                if self.final_count(who) is Some {
                    None
                } else if self.final_count(who.peer_of()) is Some {
                    Some(
                        SupervisorView {
                            stage: Stage::Exited(ExitStatus::Success),
                            ..self.with_final_count(who, sent)
                        },
                    )
                } else {
                    Some(self.with_final_count(who, sent))
                }
            },
            (Stage::Supervising, Report::ActorFaulted { who }) => {
                if self.final_count(who) is Some {
                    None
                } else {
                    Some(SupervisorView { stage: Stage::Exited(ExitStatus::ActorFault), ..self })
                }
            },
            _ => None,
        }
    }

    /// What holds of a supervisor at all times: no actor has stopped before
    /// the actors were started, and the run has ended with success exactly
    /// when both have stopped.
    pub open spec fn inv(self) -> bool {
        &&& self.stage == Stage::Installing ==> self.final_a is None && self.final_b is None
        &&& self.stage == Stage::Exited(ExitStatus::HandlerInstallFailure) ==> self.final_a
            is None && self.final_b is None
        &&& self.stage == Stage::Exited(ExitStatus::Success) <==> self.final_a is Some
            && self.final_b is Some
    }

    /// Whether the actors have been started.
    pub open spec fn actors_started(self) -> bool {
        match self.stage {
            Stage::Installing => false,
            Stage::Supervising => true,
            Stage::Exited(status) => status != ExitStatus::HandlerInstallFailure,
        }
    }

    /// No report breaks the supervisor.
    pub proof fn lemma_after_preserves_inv(self, report: Report)
        requires
            self.inv(),
        ensures
            Self::fresh().inv(),
            self.after(report) matches Some(next) ==> next.inv(),
    {
    }

    /// No actor is started unless the handler is in place: the actors are
    /// started by the report that the handler was installed and by nothing
    /// else, and a handler that fails leads straight to the end, with a
    /// status whose exit code is not zero.
    pub proof fn lemma_no_actor_without_handler(self, report: Report)
        requires
            self.inv(),
        ensures
            self.after(report) matches Some(next) ==> {
                &&& next.directive() == Directive::StartActors ==> self.stage == Stage::Installing
                    && report == Report::HandlerInstalled
                &&& !self.actors_started() && next.actors_started() ==> report
                    == Report::HandlerInstalled
                &&& self.stage == Stage::Installing && report == Report::HandlerFailed
                    ==> next.directive() == Directive::Exit(ExitStatus::HandlerInstallFailure)
                    && !next.actors_started()
            },
            ExitStatus::HandlerInstallFailure.code_of() != 0,
    {
    }

    /// The process ends with success exactly when the second of the two
    /// actors is reported to have stopped. Each actor's final count is kept
    /// as it was reported, and nothing is heard after the end.
    pub proof fn lemma_success_needs_both_actors(self, report: Report)
        requires
            self.inv(),
        ensures
            self.after(report) matches Some(next) ==> {
                &&& next.stage == Stage::Exited(ExitStatus::Success) <==> (report
                    matches Report::ActorStopped { who, sent } && self.final_count(who.peer_of())
                    is Some)
                &&& report matches Report::ActorStopped { who, sent } ==> next.final_count(who)
                    == Some(sent) && next.final_count(who.peer_of()) == self.final_count(
                    who.peer_of(),
                )
                &&& !(report is ActorStopped) ==> next.final_a == self.final_a && next.final_b
                    == self.final_b
            },
            self.stage is Exited ==> self.after(report) is None,
    {
    }
}

/// A report that has no place where the supervisor stands.
#[derive(Clone, Copy, Debug, PartialEq, Eq, Structural)]
pub struct Misplaced {
    pub report: Report,
}

/// The supervisor of one run of the exchange.
pub struct Supervisor {
    core: SupervisorView,
}

impl View for Supervisor {
    type V = SupervisorView;

    closed spec fn view(&self) -> SupervisorView {
        self.core
    }
}

impl Supervisor {
    #[verifier::type_invariant]
    spec fn well_formed(self) -> bool {
        self.core.inv()
    }

    /// A supervisor at the start of a run, about to install the handler.
    pub fn new() -> (supervisor: Supervisor)
        ensures
            supervisor@ == SupervisorView::fresh(),
    {
        Supervisor {
            core: SupervisorView { stage: Stage::Installing, final_a: None, final_b: None },
        }
    }

    /// Everything there is to know about the supervisor.
    pub fn snapshot(&self) -> (view: SupervisorView)
        ensures
            view == self@,
            view.inv(),
    {
        proof {
            use_type_invariant(self);
        }
        self.core
    }

    /// Where the supervisor stands.
    pub fn stage(&self) -> (stage: Stage)
        ensures
            stage == self@.stage,
    {
        self.core.stage
    }

    /// The final count of messages sent by the actor `who`, once it has
    /// stopped.
    pub fn final_count(&self, who: ActorId) -> (count: Option<u64>)
        ensures
            count == self@.final_count(who),
    {
        match who {
            ActorId::A => self.core.final_a,
            ActorId::B => self.core.final_b,
        }
    }

    /// What the supervisor asks for.
    pub fn directive(&self) -> (directive: Directive)
        ensures
            directive == self@.directive(),
    {
        match self.core.stage {
            Stage::Installing => Directive::InstallHandler,
            Stage::Supervising => if self.core.final_a.is_some() || self.core.final_b.is_some() {
                Directive::KeepWaiting
            } else {
                Directive::StartActors
            },
            Stage::Exited(status) => Directive::Exit(status),
        }
    }

    /// Tells the supervisor what happened and returns what it asks for next.
    /// The supervisor moves as `SupervisorView::after` says; a report that
    /// has no place where it stands is handed back and changes nothing.
    pub fn step(&mut self, report: Report) -> (r: Result<Directive, Misplaced>)
        ensures
            match old(self)@.after(report) {
                Some(next) => final(self)@ == next && r == Ok::<Directive, Misplaced>(
                    next.directive(),
                ),
                None => final(self)@ == old(self)@ && r == Err::<Directive, Misplaced>(
                    Misplaced { report },
                ),
            },
            final(self)@.inv(),
    {
        proof {
            use_type_invariant(&*self);
        }
        let now = self.core;
        let next = match (now.stage, report) {
            (Stage::Installing, Report::HandlerInstalled) => SupervisorView {
                stage: Stage::Supervising,
                ..now
            },
            (Stage::Installing, Report::HandlerFailed) => SupervisorView {
                stage: Stage::Exited(ExitStatus::HandlerInstallFailure),
                ..now
            },
            (Stage::Supervising, Report::ActorStopped { who, sent }) => {
                let (own, other) = match who {
                    ActorId::A => (now.final_a, now.final_b),
                    ActorId::B => (now.final_b, now.final_a),
                };
                if own.is_some() {
                    return Err(Misplaced { report });
                }
                let stage = if other.is_some() {
                    Stage::Exited(ExitStatus::Success)
                } else {
                    Stage::Supervising
                };
                match who {
                    ActorId::A => SupervisorView { stage, final_a: Some(sent), ..now },
                    ActorId::B => SupervisorView { stage, final_b: Some(sent), ..now },
                }
            },
            (Stage::Supervising, Report::ActorFaulted { who }) => {
                let own = match who {
                    ActorId::A => now.final_a,
                    ActorId::B => now.final_b,
                };
                if own.is_some() {
                    return Err(Misplaced { report });
                }
                SupervisorView { stage: Stage::Exited(ExitStatus::ActorFault), ..now }
            },
            _ => {
                return Err(Misplaced { report });
            },
        };
        self.core = next;
        Ok(self.directive())
    }
}

} // verus!
