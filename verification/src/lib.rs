//! A verified core for two actors that exchange text messages over a pair of
//! one-directional channels and stop together when a shared shutdown flag is
//! set.
//!
//! Nothing in this library blocks, sleeps, prints or starts a thread. Each
//! part decides and leaves the doing to its driver:
//!
//! - [`shutdown`]: the flag, a one-way switch that owes one notice.
//! - [`message`]: actor identities, messages and their texts.
//! - [`channel`]: one direction of the pair, first in, first out.
//! - [`actor`]: the worker as a state machine from events to actions.
//! - [`exchange`]: flag, channels and actors wired together, moved one action
//!   at a time.
//! - [`schedule`]: what holds of every run of the exchange.
//! - [`supervisor`]: startup, waiting and the end of the process.
//!
//! Beside the core stand the types of an item store and the replies of the
//! service in front of it ([`models`], [`handlers`]).

pub mod actor;
pub mod channel;
pub mod exchange;
pub mod handlers;
pub mod message;
pub mod models;
pub mod schedule;
pub mod shutdown;
pub mod supervisor;
