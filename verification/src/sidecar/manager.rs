//! The wait for the content-search process at startup: a health check every
//! second, up to a fixed number of attempts, then the host gives up and
//! reports the process as unreachable.

use vstd::prelude::*;
use crate::engine::Notification;

verus! {

/// The port of the content-search process.
pub const SIDECAR_PORT: u16 = 9400;

/// The number of health checks before the host gives up.
pub const MAX_ATTEMPTS: u32 = 60;

/// The seconds between two health checks.
pub const RETRY_SECONDS: u64 = 1;

/// How far the wait has come.
#[derive(Debug, Clone, Copy, PartialEq, Eq, Structural)]
pub enum SidecarPoll {
    /// The health check with this number, counted from 1, is under way.
    Checking { attempt: u32 },
    /// The health check with this number failed; the host waits before the next.
    Waiting { attempt: u32 },
    /// The process answered a health check.
    Ready,
    /// Every attempt failed.
    GaveUp,
}

/// What happened during the wait.
#[derive(Debug, Clone, Copy, PartialEq, Eq, Structural)]
pub enum PollEvent {
    /// A health check ended: `healthy` where the process answered with a
    /// success status, not where it answered otherwise or not at all.
    HealthAnswer { healthy: bool },
    /// The pause after a failed check is over.
    WaitOver,
}

/// What the host does next.
#[derive(Debug, Clone, Copy, PartialEq, Eq, Structural)]
pub enum PollStep {
    /// Ask the process for its health.
    CheckHealth,
    /// Pause for `seconds`. After the first failed check the host tells the
    /// operator how to start the process.
    Wait { seconds: u64, first: bool },
    /// Report the connection to the event sink; the wait is over.
    Announce(Notification),
    /// The event does not belong to this phase; nothing is done.
    Ignore,
}

/// The phase after an event.
pub open spec fn poll_after(poll: SidecarPoll, event: PollEvent) -> SidecarPoll {
    match (poll, event) {
        (SidecarPoll::Checking { attempt }, PollEvent::HealthAnswer { healthy }) => if healthy {
            SidecarPoll::Ready
        } else {
            SidecarPoll::Waiting { attempt: attempt }
        },
        (SidecarPoll::Waiting { attempt }, PollEvent::WaitOver) => if attempt < MAX_ATTEMPTS {
            SidecarPoll::Checking { attempt: (attempt + 1) as u32 }
        } else {
            SidecarPoll::GaveUp
        },
        _ => poll,
    }
}

/// The step that an event asks for.
pub open spec fn poll_step(poll: SidecarPoll, event: PollEvent) -> PollStep {
    match (poll, event) {
        (SidecarPoll::Checking { attempt }, PollEvent::HealthAnswer { healthy }) => if healthy {
            PollStep::Announce(Notification::SidecarConnectionChanged(true))
        } else {
            PollStep::Wait { seconds: RETRY_SECONDS, first: attempt == 1 }
        },
        (SidecarPoll::Waiting { attempt }, PollEvent::WaitOver) => if attempt < MAX_ATTEMPTS {
            PollStep::CheckHealth
        } else {
            PollStep::Announce(Notification::SidecarConnectionChanged(false))
        },
        _ => PollStep::Ignore,
    }
}

/// The wait at its start: the first health check is under way.
pub fn start_sidecar() -> (r: (SidecarPoll, PollStep))
    ensures
        r.0 == (SidecarPoll::Checking { attempt: 1 }),
        r.1 == PollStep::CheckHealth,
{
    (SidecarPoll::Checking { attempt: 1 }, PollStep::CheckHealth)
}

/// One step of the wait: the phase after `event`, and what the host does next.
pub fn poll_advance(poll: SidecarPoll, event: PollEvent) -> (r: (SidecarPoll, PollStep))
    ensures
        r.0 == poll_after(poll, event),
        r.1 == poll_step(poll, event),
{
    match poll {
        SidecarPoll::Checking { attempt } => match event {
            PollEvent::HealthAnswer { healthy } => {
                if healthy {
                    (
                        SidecarPoll::Ready,
                        PollStep::Announce(Notification::SidecarConnectionChanged(true)),
                    )
                } else {
                    (
                        SidecarPoll::Waiting { attempt },
                        PollStep::Wait { seconds: RETRY_SECONDS, first: attempt == 1 },
                    )
                }
            },
            _ => (poll, PollStep::Ignore),
        },
        SidecarPoll::Waiting { attempt } => match event {
            PollEvent::WaitOver => {
                if attempt < MAX_ATTEMPTS {
                    (SidecarPoll::Checking { attempt: attempt + 1 }, PollStep::CheckHealth)
                } else {
                    (
                        SidecarPoll::GaveUp,
                        PollStep::Announce(Notification::SidecarConnectionChanged(false)),
                    )
                }
            },
            _ => (poll, PollStep::Ignore),
        },
        _ => (poll, PollStep::Ignore),
    }
}

/// Whether the content-search process has answered a health check.
pub fn is_ready(poll: &SidecarPoll) -> (ready: bool)
    ensures
        ready == (*poll == SidecarPoll::Ready),
{
    match poll {
        SidecarPoll::Ready => true,
        _ => false,
    }
}

/// The phase after `failed` health checks that all failed, each followed by
/// its pause.
pub open spec fn after_failures(failed: nat) -> SidecarPoll
    decreases failed,
{
    if failed == 0 {
        SidecarPoll::Checking { attempt: 1 }
    } else {
        poll_after(
            poll_after(after_failures((failed - 1) as nat), PollEvent::HealthAnswer { healthy: false }),
            PollEvent::WaitOver,
        )
    }
}

/// The wait is bounded: while fewer than the maximum of checks have failed the
/// next check is under way, and after the last failure the host has given up.
pub proof fn lemma_wait_is_bounded(failed: nat)
    requires
        failed <= MAX_ATTEMPTS,
    ensures
        failed < MAX_ATTEMPTS ==> after_failures(failed) == (SidecarPoll::Checking {
            attempt: (failed + 1) as u32,
        }),
        failed == MAX_ATTEMPTS ==> after_failures(failed) == SidecarPoll::GaveUp,
    decreases failed,
{
    if failed > 0 {
        lemma_wait_is_bounded((failed - 1) as nat);
    }
}

/// A wait that is over stays over: a process that was found stays ready, and
/// after giving up no event brings the wait back.
pub proof fn lemma_wait_ends_once(poll: SidecarPoll, event: PollEvent)
    requires
        poll == SidecarPoll::Ready || poll == SidecarPoll::GaveUp,
    ensures
        poll_after(poll, event) == poll,
        poll_step(poll, event) == PollStep::Ignore,
{
}

} // verus!
