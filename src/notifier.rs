use vstd::prelude::*;

verus! {

/// Interval of the fallback poll, which guards against lost or coalesced
/// receive notifications.
pub const FALLBACK_POLL_MS: u64 = 20;

/// What the thread that waits on the receive notification does next.
#[derive(Clone, Copy, Debug, PartialEq, Eq, Structural)]
pub enum WakeAction {
    /// Send a `PollRead` command to the worker, then wait again.
    EnqueuePoll,
    /// Leave the loop: tear the wait primitive down and exit.
    Exit,
}

/// The cancellation state that the worker's release path and the notifier
/// threads share under one lock.
#[derive(Debug)]
pub struct CancelFlag {
    /// Set once shutdown has been asked for, by either side.
    pub cancelled: bool,
    /// Set once the wait primitive has been destroyed.
    pub torn_down: bool,
}

impl CancelFlag {
    /// A destroyed primitive is never waited on again, so teardown implies
    /// cancellation.
    pub open spec fn wf(&self) -> bool {
        self.torn_down ==> self.cancelled
    }

    /// Outcome of `release`.
    pub open spec fn release_step(pre: CancelFlag, post: CancelFlag, signal: bool) -> bool {
        &&& signal == !pre.cancelled
        &&& post.cancelled
        &&& post.torn_down == pre.torn_down
    }

    /// Outcome of `finish`.
    pub open spec fn finish_step(pre: CancelFlag, post: CancelFlag, teardown: bool) -> bool {
        &&& teardown == !pre.torn_down
        &&& post.cancelled
        &&& post.torn_down
    }

    pub fn new() -> (r: CancelFlag)
        ensures
            r.wf(),
            !r.cancelled,
            !r.torn_down,
    {
        CancelFlag { cancelled: false, torn_down: false }
    }

    pub fn is_cancelled(&self) -> (r: bool)
        ensures
            r == self.cancelled,
    {
        self.cancelled
    }

    /// Release of the wake handle: cancels, and says whether the blocked
    /// thread must be woken by signalling the primitive. That is so exactly
    /// when nothing had cancelled before, so a second release, or a
    /// release after the waiting thread tore the primitive down, signals
    /// nothing.
    pub fn release(&mut self) -> (signal: bool)
        requires
            old(self).wf(),
        ensures
            final(self).wf(),
            Self::release_step(*old(self), *final(self), signal),
    {
        if self.cancelled {
            false
        } else {
            self.cancelled = true;
            true
        }
    }

    /// End of the waiting thread: marks the flag cancelled and says
    /// whether the primitive must be destroyed, which is so exactly once.
    pub fn finish(&mut self) -> (teardown: bool)
        requires
            old(self).wf(),
        ensures
            final(self).wf(),
            Self::finish_step(*old(self), *final(self), teardown),
    {
        self.cancelled = true;
        if self.torn_down {
            false
        } else {
            self.torn_down = true;
            true
        }
    }
}

/// What follows a wake-up of the waiting thread: exit once cancelled,
/// else ask the worker to poll.
pub fn on_wake(flag: &CancelFlag) -> (r: WakeAction)
    ensures
        r == (if flag.cancelled { WakeAction::Exit } else { WakeAction::EnqueuePoll }),
{
    if flag.cancelled {
        WakeAction::Exit
    } else {
        WakeAction::EnqueuePoll
    }
}

/// Whether the fallback timer goes on after a tick on which it tried to
/// send `PollRead`: only while the worker takes commands and nothing has
/// cancelled.
pub fn timer_continues(sent: bool, flag: &CancelFlag) -> (r: bool)
    ensures
        r == (sent && !flag.cancelled),
{
    sent && !flag.cancelled
}

/// Releasing the wake handle twice signals the primitive at most once.
pub proof fn lemma_release_is_idempotent(
    f0: CancelFlag,
    f1: CancelFlag,
    f2: CancelFlag,
    s1: bool,
    s2: bool,
)
    requires
        CancelFlag::release_step(f0, f1, s1),
        CancelFlag::release_step(f1, f2, s2),
    ensures
        !s2,
        f2.cancelled == f1.cancelled,
        f2.torn_down == f1.torn_down,
{
}

/// Once the waiting thread has torn the primitive down, a release does
/// not signal it.
pub proof fn lemma_no_signal_after_teardown(
    f0: CancelFlag,
    f1: CancelFlag,
    f2: CancelFlag,
    teardown: bool,
    signal: bool,
)
    requires
        CancelFlag::finish_step(f0, f1, teardown),
        CancelFlag::release_step(f1, f2, signal),
    ensures
        !signal,
{
}

/// The primitive is destroyed at most once, however often the waiting
/// thread's exit path runs.
pub proof fn lemma_teardown_happens_once(
    f0: CancelFlag,
    f1: CancelFlag,
    f2: CancelFlag,
    t1: bool,
    t2: bool,
)
    requires
        CancelFlag::finish_step(f0, f1, t1),
        CancelFlag::finish_step(f1, f2, t2),
    ensures
        !t2,
{
}

} // verus!
