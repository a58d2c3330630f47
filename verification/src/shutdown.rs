//! The shutdown flag: a one-way switch from `running` to `stopped`.

use vstd::prelude::*;

verus! {

/// The cancellation flag that both actors observe.
///
/// It starts out running and can only ever move to stopped: the field is
/// private and `set` is the only function that writes it.
pub struct ShutdownFlag {
    stopped: bool,
}

impl ShutdownFlag {
    /// Whether shutdown has been requested.
    pub closed spec fn is_stopped(self) -> bool {
        self.stopped
    }

    /// The flag that a call of `set` leaves behind.
    pub closed spec fn after_set(self) -> ShutdownFlag {
        ShutdownFlag { stopped: true }
    }

    /// Whether a call of `set` on this flag is the one that owes the notice.
    pub open spec fn notice_on_set(self) -> bool {
        !self.is_stopped()
    }

    /// A fresh flag, in the running state.
    pub fn new() -> (flag: ShutdownFlag)
        ensures
            !flag.is_stopped(),
    {
        ShutdownFlag { stopped: false }
    }

    /// Requests shutdown. The result is `true` exactly when this call made the
    /// transition from running to stopped, which is when the one-time notice
    /// is due. On a flag that is already stopped nothing changes.
    pub fn set(&mut self) -> (notice: bool)
        ensures
            *final(self) == old(self).after_set(),
            final(self).is_stopped(),
            notice == old(self).notice_on_set(),
    {
        let notice = !self.stopped;
        self.stopped = true;
        notice
    }

    /// Reads the flag without blocking.
    pub fn get(&self) -> (stopped: bool)
        ensures
            stopped == self.is_stopped(),
    {
        self.stopped
    }

    /// There is nothing more to a flag than whether it is set.
    pub proof fn lemma_flag_is_its_state(self, other: ShutdownFlag)
        ensures
            self.is_stopped() == other.is_stopped() <==> self == other,
    {
    }

    /// Once set, the flag stays set: setting leaves every flag stopped, and a
    /// stopped flag is left exactly as it was.
    pub proof fn lemma_set_is_one_way(flag: ShutdownFlag)
        ensures
            flag.after_set().is_stopped(),
            flag.is_stopped() ==> flag.after_set() == flag,
    {
    }

    /// Setting the flag twice in a row has the effect of setting it once: the
    /// flag after the second call is the flag after the first, and the second
    /// call owes no notice, so a single notice is given in all.
    pub proof fn lemma_set_is_idempotent(flag: ShutdownFlag)
        ensures
            flag.after_set().after_set() == flag.after_set(),
            !flag.after_set().notice_on_set(),
    {
    }
}

} // verus!
