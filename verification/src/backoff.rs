//! Exponential-backoff retry state machine for accepting room invitations.
//!
//! One acceptor is created per invite. The first acceptance attempt happens
//! immediately; after each failure the acceptor reports how long to wait and
//! doubles the delay for the next round. Once the doubled delay passes the
//! ceiling the acceptor gives up and no further attempt is scheduled.

use vstd::prelude::*;

verus! {

use vstd::arithmetic::power2::pow2;
use vstd::arithmetic::power2::lemma2_to64;
use vstd::arithmetic::power2::lemma_pow2_strictly_increases;

/// Wait before the second acceptance attempt, in seconds.
pub const INITIAL_DELAY_SECONDS: u64 = 2;

/// Longest wait the acceptor is willing to schedule, in seconds. A doubled
/// delay that passes this ceiling ends the retry loop without a further
/// attempt.
pub const BACKOFF_CEILING_SECONDS: u64 = 3600;

/// Phase of one join-retry unit of work.
#[derive(Clone, Copy, PartialEq, Eq, Structural, Debug)]
pub enum JoinPhase {
    /// No invite addressed to this agent has been seen.
    Idle,
    /// An attempt is pending or scheduled.
    Retrying,
    /// An attempt succeeded; no further attempt is made.
    Accepted,
    /// The backoff ceiling was passed; no further attempt is made.
    GivenUp,
}

/// Retry state for accepting one room invitation.
pub struct JoinAcceptor {
    /// Identifier of the room the invite is for.
    pub room: String,
    /// Wait before the next attempt, should the pending one fail.
    pub delay_seconds: u64,
    /// Number of failed attempts so far.
    pub attempt: u32,
    /// Current phase of the retry loop.
    pub phase: JoinPhase,
}

impl JoinAcceptor {
    /// The delay always holds a doubling schedule starting at 2, and stays at
    /// or below the ceiling for as long as another attempt may be scheduled.
    pub open spec fn wf(self) -> bool {
        &&& self.delay_seconds == 2 * pow2(self.attempt as nat)
        &&& ((self.phase is Idle || self.phase is Retrying) ==> self.delay_seconds
            <= BACKOFF_CEILING_SECONDS)
    }

    pub fn new(room: String) -> (s: Self)
        ensures
            s.wf(),
            s.phase is Idle,
            s.room == room,
            s.delay_seconds == INITIAL_DELAY_SECONDS,
            s.attempt == 0,
    {
        proof {
            lemma2_to64();
        }
        JoinAcceptor { room, delay_seconds: INITIAL_DELAY_SECONDS, attempt: 0, phase: JoinPhase::Idle }
    }

    /// An invite starts the retry loop only when it is addressed to this
    /// agent; an invite for anybody else leaves the acceptor idle.
    pub fn trigger(&mut self, invite_target: &String, own_id: &String)
        requires
            old(self).wf(),
            old(self).phase is Idle,
        ensures
            final(self).wf(),
            final(self).phase == (if invite_target@ == own_id@ {
                JoinPhase::Retrying
            } else {
                JoinPhase::Idle
            }),
            final(self).room == old(self).room,
            final(self).delay_seconds == old(self).delay_seconds,
            final(self).attempt == old(self).attempt,
    {
        if *invite_target == *own_id {
            self.phase = JoinPhase::Retrying;
        }
    }

    /// Whether another acceptance attempt should be made.
    pub fn should_attempt(&self) -> (b: bool)
        ensures
            b == (self.phase is Retrying),
    {
        matches!(self.phase, JoinPhase::Retrying)
    }

    /// One failed acceptance attempt: reports the wait before the next
    /// attempt, doubles the delay, and gives up once the doubled delay
    /// passes the ceiling — the attempt after that wait is then not made.
    pub fn on_failure(&mut self) -> (wait: u64)
        requires
            old(self).wf(),
            old(self).phase is Retrying,
        ensures
            final(self).wf(),
            wait == old(self).delay_seconds,
            *final(self) == spec_fail_step(*old(self)),
            final(self).room == old(self).room,
            final(self).attempt == old(self).attempt + 1,
            final(self).delay_seconds == 2 * old(self).delay_seconds,
            final(self).phase == (if 2 * old(self).delay_seconds > BACKOFF_CEILING_SECONDS {
                JoinPhase::GivenUp
            } else {
                JoinPhase::Retrying
            }),
    {
        proof {
            lemma_attempt_bounded(*self);
            assert(pow2((self.attempt + 1) as nat) == 2 * pow2(self.attempt as nat)) by {
                vstd::arithmetic::power2::lemma_pow2_unfold((self.attempt + 1) as nat);
            }
        }
        let wait = self.delay_seconds;
        self.delay_seconds = 2 * self.delay_seconds;
        self.attempt = self.attempt + 1;
        if self.delay_seconds > BACKOFF_CEILING_SECONDS {
            self.phase = JoinPhase::GivenUp;
        }
        wait
    }

    /// A successful acceptance attempt ends the loop at once, whatever the
    /// current delay: no further attempt or wait is scheduled.
    pub fn on_success(&mut self)
        requires
            old(self).wf(),
            old(self).phase is Retrying,
        ensures
            final(self).wf(),
            final(self).phase is Accepted,
            final(self).room == old(self).room,
            final(self).delay_seconds == old(self).delay_seconds,
            final(self).attempt == old(self).attempt,
    {
        self.phase = JoinPhase::Accepted;
    }
}

/// While another attempt may come, at most ten failures have happened:
/// the delay 2 * 2^attempt can stay at or below the ceiling only that long.
proof fn lemma_attempt_bounded(s: JoinAcceptor)
    requires
        s.wf(),
        s.phase is Retrying,
    ensures
        s.attempt <= 10,
{
    lemma2_to64();
    if s.attempt > 10 {
        if s.attempt > 11 {
            lemma_pow2_strictly_increases(11, s.attempt as nat);
        }
        assert(pow2(s.attempt as nat) >= 2048);
    }
}

/// The state after one failed attempt, as `on_failure` performs it.
pub open spec fn spec_fail_step(s: JoinAcceptor) -> JoinAcceptor {
    JoinAcceptor {
        delay_seconds: (2 * s.delay_seconds) as u64,
        attempt: (s.attempt + 1) as u32,
        phase: if 2 * s.delay_seconds > BACKOFF_CEILING_SECONDS {
            JoinPhase::GivenUp
        } else {
            JoinPhase::Retrying
        },
        ..s
    }
}

/// The state after `k` consecutive failed attempts.
pub open spec fn after_failures(s: JoinAcceptor, k: nat) -> JoinAcceptor
    decreases k,
{
    if k == 0 {
        s
    } else {
        spec_fail_step(after_failures(s, (k - 1) as nat))
    }
}

/// Law: from a fresh retrying acceptor, failure number `k + 1` waits
/// `2 * 2^k` seconds — the waits run 2, 4, 8, ..., 2048 — and the eleventh
/// failure doubles the delay past the ceiling, after which the acceptor has
/// given up and schedules no further attempt.
pub proof fn lemma_backoff_schedule(s: JoinAcceptor, k: nat)
    requires
        s.wf(),
        s.phase is Retrying,
        s.delay_seconds == INITIAL_DELAY_SECONDS,
        s.attempt == 0,
        k <= 11,
    ensures
        k <= 10 ==> after_failures(s, k).phase is Retrying,
        k <= 10 ==> after_failures(s, k).delay_seconds == 2 * pow2(k),
        k == 11 ==> after_failures(s, k).phase is GivenUp,
        after_failures(s, k).attempt == k,
    decreases k,
{
    lemma2_to64();
    if k > 0 {
        lemma_backoff_schedule(s, (k - 1) as nat);
    }
}

} // verus!
