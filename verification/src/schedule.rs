//! Runs of the exchange: what holds after any number of moves, in any order.
//!
//! A driver moves the exchange by advancing one actor or the other, after
//! waits of its choosing, and by requesting shutdown. Nothing here runs;
//! these are the statements about every such run.

use crate::actor::{ActorState, Config, Phase};
use crate::exchange::{AdvanceView, ExchangeView};
use crate::message::ActorId;
use vstd::prelude::*;

verus! {

/// One move of a driver.
pub enum Move {
    /// `advance(who, waited_ms)`.
    Advance { who: ActorId, waited_ms: u64 },
    /// `request_shutdown()`.
    RequestShutdown,
}

/// The number of moves among `moves` that advance `who` after a wait of at
/// least the timeout and at least the backoff of `config`: the moves in which
/// the driver has waited long enough for whatever `who` is doing.
pub open spec fn patient_advances(moves: Seq<Move>, who: ActorId, config: Config) -> nat
    decreases moves.len(),
{
    if moves.len() == 0 {
        0
    } else {
        let rest = patient_advances(moves.drop_first(), who, config);
        match moves[0] {
            Move::Advance { who: moved, waited_ms } => if moved == who && waited_ms
                >= config.timeout_ms && waited_ms >= config.backoff_ms {
                rest + 1
            } else {
                rest
            },
            Move::RequestShutdown => rest,
        }
    }
}

/// Whether no move among `moves` requests shutdown.
pub open spec fn flag_left_alone(moves: Seq<Move>) -> bool {
    forall|i: int| 0 <= i < moves.len() ==> !(#[trigger] moves[i] is RequestShutdown)
}

impl ExchangeView {
    /// The exchange after one move.
    pub open spec fn after_move(self, m: Move) -> ExchangeView {
        match m {
            Move::Advance { who, waited_ms } => self.next(who, waited_ms),
            Move::RequestShutdown => self.after_shutdown_request(),
        }
    }

    /// The exchange after `moves`, made one after the other.
    pub open spec fn after_moves(self, moves: Seq<Move>) -> ExchangeView
        decreases moves.len(),
    {
        if moves.len() == 0 {
            self
        } else {
            self.after_move(moves[0]).after_moves(moves.drop_first())
        }
    }

    /// How far the actor `who` has come: five for every message sent, and one
    /// for every action on the way to the next.
    pub open spec fn progress(self, who: ActorId) -> int {
        5 * self.actor(who).sent + 5 - self.actor(who).events_to_send()
    }

    /// One move keeps the exchange as it should be. The flag, once set, stays
    /// set; no count of sent messages goes down, and none goes up by more
    /// than one; the pacing stays what it was.
    pub proof fn lemma_move_is_sound(self, m: Move, who: ActorId)
        requires
            self.inv(),
        ensures
            self.after_move(m).inv(),
            self.stopped ==> self.after_move(m).stopped,
            !(m is RequestShutdown) ==> self.after_move(m).stopped == self.stopped,
            self.actor(who).sent <= self.after_move(m).actor(who).sent <= self.actor(who).sent
                + 1,
            self.after_move(m).actor(who).config == self.actor(who).config,
            self.actor(who).phase == Phase::Stopped ==> self.after_move(m).actor(who)
                == self.actor(who),
    {
        match m {
            Move::Advance { who: moved, waited_ms } => {
                self.lemma_next_preserves_inv(moved, waited_ms);
            },
            Move::RequestShutdown => {
                self.lemma_shutdown_request_preserves_inv();
            },
        }
    }

    /// Every exchange that a run can reach is as it should be, whatever the
    /// moves and their order: so each direction stays first in, first out,
    /// and numbered without a gap, at all times. Along the way the flag,
    /// once set, stays set; no count of sent messages goes down; and an
    /// actor that has stopped stays as it is.
    pub proof fn lemma_every_run_is_sound(self, moves: Seq<Move>, who: ActorId)
        requires
            self.inv(),
        ensures
            self.after_moves(moves).inv(),
            self.stopped ==> self.after_moves(moves).stopped,
            flag_left_alone(moves) ==> self.after_moves(moves).stopped == self.stopped,
            self.actor(who).sent <= self.after_moves(moves).actor(who).sent <= self.actor(
                who,
            ).sent + moves.len(),
            self.after_moves(moves).actor(who).config == self.actor(who).config,
            self.actor(who).phase == Phase::Stopped ==> self.after_moves(moves).actor(who)
                == self.actor(who),
        decreases moves.len(),
    {
        if moves.len() > 0 {
            self.lemma_move_is_sound(moves[0], who);
            self.after_move(moves[0]).lemma_every_run_is_sound(moves.drop_first(), who);
        }
    }

    /// If the flag is set before either actor has sent its first message,
    /// then in every run from there no message is ever sent, and each actor
    /// has stopped as soon as it has been advanced twice after a wait that is
    /// long enough: once to read the flag, once to end its final receive.
    pub proof fn lemma_silent_run_ends_in_silence(self, moves: Seq<Move>, who: ActorId)
        requires
            self.inv(),
            self.silent(),
        ensures
            self.after_moves(moves).inv(),
            self.after_moves(moves).silent(),
            self.after_moves(moves).a.sent == 0 && self.after_moves(moves).b.sent == 0,
            self.after_moves(moves).a_to_b.sent.len() == 0,
            self.after_moves(moves).b_to_a.sent.len() == 0,
            patient_advances(moves, who, self.actor(who).config) >= 2
                ==> self.after_moves(moves).actor(who).phase == Phase::Stopped,
        decreases moves.len(),
    {
        self.lemma_stopped_run_ends(moves, who);
        if moves.len() > 0 {
            match moves[0] {
                Move::Advance { who: moved, waited_ms } => {
                    self.lemma_stopped_before_start(self.a.config, moved, waited_ms);
                },
                Move::RequestShutdown => {},
            }
            self.after_move(moves[0]).lemma_silent_run_ends_in_silence(moves.drop_first(), who);
        }
    }

    /// Once the flag is set, both actors stop, because both read the same
    /// flag: in every run from there, an actor has stopped as soon as it has
    /// been advanced five times after a wait that is long enough, wherever it
    /// stood when the flag was set and whatever its peer does.
    pub proof fn lemma_stopped_run_ends(self, moves: Seq<Move>, who: ActorId)
        requires
            self.inv(),
            self.stopped,
        ensures
            self.after_moves(moves).stopped,
            self.after_moves(moves).actor(who).events_to_stop() <= self.actor(
                who,
            ).events_to_stop(),
            patient_advances(moves, who, self.actor(who).config) <= self.actor(
                who,
            ).events_to_stop() ==> self.after_moves(moves).actor(who).events_to_stop()
                + patient_advances(moves, who, self.actor(who).config) <= self.actor(
                who,
            ).events_to_stop(),
            patient_advances(moves, who, self.actor(who).config) >= self.actor(
                who,
            ).events_to_stop() ==> self.after_moves(moves).actor(who).phase == Phase::Stopped,
            patient_advances(moves, who, self.actor(who).config) >= 5
                ==> self.after_moves(moves).actor(who).phase == Phase::Stopped,
        decreases moves.len(),
    {
        if moves.len() > 0 {
            self.lemma_move_is_sound(moves[0], who);
            match moves[0] {
                Move::Advance { who: moved, waited_ms } => {
                    self.lemma_stopped_exchange_winds_down(moved, waited_ms);
                },
                Move::RequestShutdown => {},
            }
            self.after_move(moves[0]).lemma_stopped_run_ends(moves.drop_first(), who);
        }
    }

    /// While the flag is left running, both actors keep sending: in every
    /// run without a request for shutdown, every advance of an actor after a
    /// wait that is long enough takes the actor one action further, and every
    /// fifth such action at the latest is the acceptance of a message. So an
    /// actor that is advanced five times with such waits has a higher count
    /// of sent messages than before. This is stated for runs in which the
    /// actor does not run out of sequence numbers.
    pub proof fn lemma_running_run_keeps_sending(self, moves: Seq<Move>, who: ActorId)
        requires
            self.inv(),
            !self.stopped,
            flag_left_alone(moves),
            self.actor(who).sent + moves.len() < u64::MAX,
        ensures
            !self.after_moves(moves).stopped,
            self.after_moves(moves).progress(who) >= self.progress(who) + patient_advances(
                moves,
                who,
                self.actor(who).config,
            ),
            patient_advances(moves, who, self.actor(who).config) >= 5
                ==> self.after_moves(moves).actor(who).sent > self.actor(who).sent,
        decreases moves.len(),
    {
        if moves.len() > 0 {
            self.lemma_move_is_sound(moves[0], who);
            match moves[0] {
                Move::Advance { who: moved, waited_ms } => {
                    if moved == who {
                        self.lemma_running_exchange_keeps_sending(moved, waited_ms);
                    }
                },
                Move::RequestShutdown => {},
            }
            self.after_move(moves[0]).lemma_running_run_keeps_sending(moves.drop_first(), who);
        }
    }

    /// The time that `who` spends waiting in the course of `moves`: for every
    /// advance of `who` that ends an action, the wait that the driver
    /// reports for it.
    pub open spec fn time_waited(self, moves: Seq<Move>, who: ActorId) -> nat
        decreases moves.len(),
    {
        if moves.len() == 0 {
            0
        } else {
            let later = self.after_move(moves[0]).time_waited(moves.drop_first(), who);
            match moves[0] {
                Move::Advance { who: moved, waited_ms } => if moved == who && self.report(
                    who,
                    waited_ms,
                ) matches Ok(AdvanceView::Happened(_)) {
                    waited_ms as nat + later
                } else {
                    later
                },
                Move::RequestShutdown => later,
            }
        }
    }

    /// Whether the driver of `who` is punctual in the course of `moves`: it
    /// never advances `who` later than the action that `who` asked for can
    /// take, that is, later than the timeout for a receive and later than the
    /// backoff for a sleep, and it advances every other action at once.
    pub open spec fn punctual(self, moves: Seq<Move>, who: ActorId) -> bool
        decreases moves.len(),
    {
        moves.len() > 0 ==> {
            &&& moves[0] matches Move::Advance { who: moved, waited_ms } ==> moved == who
                ==> waited_ms <= self.actor(who).wait()
            &&& self.after_move(moves[0]).punctual(moves.drop_first(), who)
        }
    }

    /// Shutdown takes bounded time. In every run after the flag was set, an
    /// actor with a punctual driver waits, all in all, no longer than what
    /// was left of its round and one timeout for its final receive; for as
    /// long as it is still running it has waited no longer than one timeout
    /// and one backoff; and if the flag was set before anything was sent, it
    /// waits no longer than one timeout, which is within one timeout and one
    /// backoff.
    pub proof fn lemma_stopped_run_takes_bounded_time(self, moves: Seq<Move>, who: ActorId)
        requires
            self.inv(),
            self.stopped,
            self.punctual(moves, who),
        ensures
            self.time_waited(moves, who) + self.after_moves(moves).actor(who).wait_to_stop()
                <= self.actor(who).wait_to_stop(),
            self.actor(who).wait_to_stop() <= self.actor(who).config.cycle_bound() + self.actor(
                who,
            ).config.timeout_ms,
            self.after_moves(moves).actor(who).state() == ActorState::Running
                ==> self.time_waited(moves, who) + self.after_moves(moves).actor(
                who,
            ).wait_to_notice() <= self.actor(who).wait_to_notice(),
            self.actor(who).wait_to_notice() <= self.actor(who).config.cycle_bound(),
            self.silent() ==> self.time_waited(moves, who) <= self.actor(who).config.timeout_ms
                <= self.actor(who).config.cycle_bound(),
        decreases moves.len(),
    {
        if moves.len() > 0 {
            let then = self.after_move(moves[0]);
            let rest = moves.drop_first();
            self.lemma_move_is_sound(moves[0], who);
            match moves[0] {
                Move::Advance { who: moved, waited_ms } => {
                    self.lemma_stopped_exchange_winds_down(moved, waited_ms);
                },
                Move::RequestShutdown => {},
            }
            then.lemma_stopped_run_takes_bounded_time(rest, who);
            then.lemma_life_never_turns_back(rest, who);
        }
    }

    /// In no run does an actor go back to an earlier state of its life.
    pub proof fn lemma_life_never_turns_back(self, moves: Seq<Move>, who: ActorId)
        requires
            self.inv(),
        ensures
            self.actor(who).age() <= self.after_moves(moves).actor(who).age(),
        decreases moves.len(),
    {
        if moves.len() > 0 {
            self.lemma_move_is_sound(moves[0], who);
            self.after_move(moves[0]).lemma_life_never_turns_back(moves.drop_first(), who);
        }
    }

    /// While the flag is left running, every actor sends in time. In every
    /// run without a request for shutdown, an actor with a punctual driver
    /// waits no longer than one timeout and one backoff before its count of
    /// sent messages goes up: an actor that has waited longer than that has
    /// sent a message meanwhile. This is stated for runs in which the actor
    /// does not run out of sequence numbers.
    pub proof fn lemma_running_run_sends_in_time(self, moves: Seq<Move>, who: ActorId)
        requires
            self.inv(),
            !self.stopped,
            flag_left_alone(moves),
            self.punctual(moves, who),
            self.actor(who).sent + moves.len() < u64::MAX,
        ensures
            self.after_moves(moves).actor(who).sent == self.actor(who).sent
                ==> self.time_waited(moves, who) + self.after_moves(moves).actor(
                who,
            ).wait_to_send() <= self.actor(who).wait_to_send(),
            self.actor(who).wait_to_send() <= self.actor(who).config.cycle_bound(),
            self.time_waited(moves, who) > self.actor(who).config.cycle_bound()
                ==> self.after_moves(moves).actor(who).sent > self.actor(who).sent,
        decreases moves.len(),
    {
        if moves.len() > 0 {
            let then = self.after_move(moves[0]);
            let rest = moves.drop_first();
            self.lemma_move_is_sound(moves[0], who);
            match moves[0] {
                Move::Advance { who: moved, waited_ms } => {
                    if moved == who {
                        self.lemma_running_exchange_keeps_sending(moved, waited_ms);
                    }
                },
                Move::RequestShutdown => {},
            }
            then.lemma_running_run_sends_in_time(rest, who);
            then.lemma_every_run_is_sound(rest, who);
        }
    }

    /// The backoff bounds the rate of the exchange. In every run, whoever
    /// drives it, an actor has waited one backoff for every round that it has
    /// seen through; so the messages that it sends in the course of a run are
    /// at most one more than the backoffs that fit in the time it has waited.
    pub proof fn lemma_backoff_bounds_the_rate(self, moves: Seq<Move>, who: ActorId)
        requires
            self.inv(),
        ensures
            self.actor(who).config.backoff_ms * (self.after_moves(moves).actor(who).rounds_slept()
                - self.actor(who).rounds_slept()) <= self.time_waited(moves, who),
            self.actor(who).config.backoff_ms * (self.after_moves(moves).actor(who).sent
                - self.actor(who).sent - 1) <= self.time_waited(moves, who),
        decreases moves.len(),
    {
        let backoff = self.actor(who).config.backoff_ms as int;
        let before = self.actor(who).rounds_slept();
        let after = self.after_moves(moves).actor(who).rounds_slept();
        if moves.len() == 0 {
            assert(backoff * (after - before) == 0) by (nonlinear_arith)
                requires
                    after == before,
            ;
        } else {
            let then = self.after_move(moves[0]);
            let rest = moves.drop_first();
            let between = then.actor(who).rounds_slept();
            let spent = self.time_waited(moves, who) - then.time_waited(rest, who);
            self.lemma_move_is_sound(moves[0], who);
            match moves[0] {
                Move::Advance { who: moved, waited_ms } => {
                    if moved == who && self.side(who).outcome(self.stopped, waited_ms) is Some {
                        self.actor(who).lemma_every_round_ends_with_a_sleep(
                            self.side(who).outcome(self.stopped, waited_ms).unwrap(),
                        );
                    }
                },
                Move::RequestShutdown => {},
            }
            then.lemma_backoff_bounds_the_rate(rest, who);
            assert(backoff * (between - before) <= spent) by (nonlinear_arith)
                requires
                    0 <= backoff,
                    0 <= spent,
                    between - before <= 1,
                    between - before == 1 ==> backoff <= spent,
            ;
            assert(backoff * (after - before) == backoff * (after - between) + backoff * (between
                - before)) by (nonlinear_arith);
        }
        let sent = self.after_moves(moves).actor(who).sent - self.actor(who).sent - 1;
        assert(backoff * sent <= backoff * (after - before)) by (nonlinear_arith)
            requires
                0 <= backoff,
                sent <= after - before,
        ;
    }
}

} // verus!
