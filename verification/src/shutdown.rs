//! Bounded-time shutdown coordinator.
//!
//! On a termination signal the providers must be flushed, but the flush is a
//! blocking call that cannot be cancelled.  The coordinator therefore never
//! waits on it directly: the shell runs the flush on a dedicated worker
//! thread and waits on a one-shot completion signal for at most the
//! configured timeout.  The coordinator records only the decisions: which
//! phase the teardown is in, when the signal arrived, and when the wait
//! ended.  Whatever the flush does, the coordinator reaches `Terminated` no
//! later than the timeout after the signal.

use vstd::prelude::*;

verus! {

/// Default bound on the drain wait, in milliseconds.
pub const DEFAULT_SHUTDOWN_TIMEOUT_MS: u64 = 2000;

/// Phase of the teardown.
#[derive(Clone, Copy, PartialEq, Eq, Structural, Debug)]
pub enum Phase {
    Running,
    SignalReceived,
    Draining,
    Flushed,
    TimedOut,
    Terminated,
}

/// The coordinator's whole state: its phase and the two timestamps that
/// bound the drain, all in milliseconds of one monotonic clock.
#[derive(Clone, Copy, PartialEq, Eq, Structural, Debug)]
pub struct ShutdownCoordinator {
    pub phase: Phase,
    pub timeout_ms: u64,
    pub signal_at_ms: u64,
    pub ended_at_ms: u64,
}

impl ShutdownCoordinator {
    /// The instant past which the drain wait is abandoned.
    pub open spec fn deadline(self) -> int {
        self.signal_at_ms + self.timeout_ms
    }

    /// The timestamps stay consistent with the phase: once the signal is
    /// in, the deadline fits the clock's range, and once the wait ended,
    /// it ended by the deadline.
    pub open spec fn wf(self) -> bool {
        &&& (self.phase != Phase::Running ==> self.deadline() <= u64::MAX)
        &&& ((self.phase == Phase::Flushed || self.phase == Phase::TimedOut || self.phase
            == Phase::Terminated) ==> self.signal_at_ms <= self.ended_at_ms
            <= self.deadline())
    }

    /// State after the termination signal arrives at `now`.
    pub open spec fn spec_on_signal(self, now: u64) -> ShutdownCoordinator {
        ShutdownCoordinator { phase: Phase::SignalReceived, signal_at_ms: now, ..self }
    }

    /// State once the blocking flush has been handed to its worker.
    pub open spec fn spec_begin_drain(self) -> ShutdownCoordinator {
        ShutdownCoordinator { phase: Phase::Draining, ..self }
    }

    /// State after the drain wait ends.  `arrived` tells whether the
    /// flush's completion signal came before the wait gave up at `now`.
    pub open spec fn spec_on_wait_result(self, arrived: bool, now: u64) -> ShutdownCoordinator {
        if arrived {
            ShutdownCoordinator { phase: Phase::Flushed, ended_at_ms: now, ..self }
        } else {
            ShutdownCoordinator {
                phase: Phase::TimedOut,
                ended_at_ms: (self.signal_at_ms + self.timeout_ms) as u64,
                ..self
            }
        }
    }

    /// Final state.
    pub open spec fn spec_terminate(self) -> ShutdownCoordinator {
        ShutdownCoordinator { phase: Phase::Terminated, ..self }
    }

    /// A coordinator waiting for the termination signal.
    pub fn new(timeout_ms: u64) -> (c: ShutdownCoordinator)
        ensures
            c.phase == Phase::Running,
            c.timeout_ms == timeout_ms,
            c.wf(),
    {
        ShutdownCoordinator { phase: Phase::Running, timeout_ms, signal_at_ms: 0, ended_at_ms: 0 }
    }

    /// The first qualifying termination signal arrived at `now`.
    pub fn on_signal(&mut self, now: u64)
        requires
            old(self).wf(),
            old(self).phase == Phase::Running,
            now + old(self).timeout_ms <= u64::MAX,
        ensures
            *final(self) == old(self).spec_on_signal(now),
            final(self).wf(),
    {
        self.phase = Phase::SignalReceived;
        self.signal_at_ms = now;
    }

    /// The blocking flush was handed to its dedicated worker; the bounded
    /// wait on its one-shot completion signal begins.
    pub fn begin_drain(&mut self)
        requires
            old(self).wf(),
            old(self).phase == Phase::SignalReceived,
        ensures
            *final(self) == old(self).spec_begin_drain(),
            final(self).wf(),
    {
        self.phase = Phase::Draining;
    }

    /// The drain wait ended.  If the completion signal arrived first (at
    /// `now`, necessarily by the deadline), the drain flushed; otherwise the
    /// wait gave up at the deadline and the flush is abandoned, which the
    /// caller must report at error severity.
    pub fn on_wait_result(&mut self, arrived: bool, now: u64) -> (report_error: bool)
        requires
            old(self).wf(),
            old(self).phase == Phase::Draining,
            arrived ==> old(self).signal_at_ms <= now <= old(self).deadline(),
        ensures
            *final(self) == old(self).spec_on_wait_result(arrived, now),
            final(self).wf(),
            final(self).phase == (if arrived {
                Phase::Flushed
            } else {
                Phase::TimedOut
            }),
            report_error == !arrived,
    {
        if arrived {
            self.phase = Phase::Flushed;
            self.ended_at_ms = now;
        } else {
            self.phase = Phase::TimedOut;
            self.ended_at_ms = self.signal_at_ms + self.timeout_ms;
        }
        !arrived
    }

    /// The process exits now, whichever way the drain went.
    pub fn terminate(&mut self)
        requires
            old(self).wf(),
            old(self).phase == Phase::Flushed || old(self).phase == Phase::TimedOut,
        ensures
            *final(self) == old(self).spec_terminate(),
            final(self).wf(),
            final(self).phase == Phase::Terminated,
            final(self).ended_at_ms <= old(self).deadline(),
    {
        self.phase = Phase::Terminated;
    }
}

/// The whole teardown, as one relation: the states a run passes through
/// from the signal at `signal_at` to exit, for a wait that ended with
/// `arrived` at `now`.
pub open spec fn spec_run_shutdown(
    c: ShutdownCoordinator,
    signal_at: u64,
    arrived: bool,
    now: u64,
) -> ShutdownCoordinator {
    c.spec_on_signal(signal_at).spec_begin_drain().spec_on_wait_result(
        arrived,
        now,
    ).spec_terminate()
}

/// The coordinator always reaches `Terminated`, and does so no later than
/// `timeout_ms` after the termination signal, whether or not the flush
/// completed in time.
pub proof fn lemma_bounded_termination(
    c: ShutdownCoordinator,
    signal_at: u64,
    arrived: bool,
    now: u64,
)
    requires
        c.wf(),
        c.phase == Phase::Running,
        signal_at + c.timeout_ms <= u64::MAX,
        arrived ==> signal_at <= now <= signal_at + c.timeout_ms,
    ensures
        spec_run_shutdown(c, signal_at, arrived, now).phase == Phase::Terminated,
        spec_run_shutdown(c, signal_at, arrived, now).ended_at_ms <= signal_at + c.timeout_ms,
{
}

/// The drain reports `Flushed` exactly when the completion signal beat the
/// timeout, `TimedOut` otherwise, and terminates either way.
pub proof fn lemma_drain_outcome_reported(
    c: ShutdownCoordinator,
    signal_at: u64,
    arrived: bool,
    now: u64,
)
    requires
        c.wf(),
        c.phase == Phase::Running,
        signal_at + c.timeout_ms <= u64::MAX,
        arrived ==> signal_at <= now <= signal_at + c.timeout_ms,
    ensures
        ({
            let drained = c.spec_on_signal(signal_at).spec_begin_drain().spec_on_wait_result(
                arrived,
                now,
            );
            &&& drained.phase == (if arrived {
                Phase::Flushed
            } else {
                Phase::TimedOut
            })
            &&& drained.spec_terminate().phase == Phase::Terminated
        }),
{
}

} // verus!
