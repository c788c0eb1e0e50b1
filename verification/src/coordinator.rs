//! The coordinator's request/permit protocol, as an explicit state machine.
//!
//! The coordinator owns a FIFO queue of pending requests, grants at most one
//! permit at a time, and between grants applies the pacing decision that the
//! resolved permit's outcome dictates. Each request is identified here by a
//! plain `u64` token chosen by the caller; the surrounding runtime drives the
//! machine one event at a time (a request arrives, the next request is
//! serviced, the outstanding permit is resolved, the last requester is gone).

use vstd::prelude::*;
use crate::Outcome;
use crate::pacing::Pacing;

verus! {

/// The coordinator's control state.
#[derive(Clone, Copy, PartialEq, Eq, Structural, Debug)]
pub enum Phase {
    /// No permit is outstanding; the next queued request may be serviced.
    Idle,
    /// A permit is outstanding, awaiting its outcome or its abandonment.
    Granted,
    /// Every requester is gone; no request will ever arrive again.
    Terminated,
}

/// The coordinator: pacing state, control state, the FIFO queue of pending
/// request tokens, and the log of granted tokens in grant order. The ghost
/// `arrivals` sequence records every token ever enqueued, in arrival order.
pub struct Coordinator {
    pub pacing: Pacing,
    pub phase: Phase,
    pub queue: Vec<u64>,
    pub granted_log: Vec<u64>,
    pub arrivals: Ghost<Seq<u64>>,
}

impl Coordinator {
    /// The number of permits granted and not yet resolved: the control state
    /// admits at most one.
    pub open spec fn outstanding_permits(self) -> nat {
        if self.phase is Granted {
            1
        } else {
            0
        }
    }

    /// Well-formedness: the arrival order is exactly the granted tokens
    /// followed by the still-queued ones — grants never overtake the queue —
    /// the pacing state is well formed, and a terminated coordinator has an
    /// empty queue.
    pub open spec fn wf(self) -> bool {
        &&& self.arrivals@ == self.granted_log@ + self.queue@
        &&& self.pacing.wf()
        &&& self.phase is Terminated ==> self.queue@.len() == 0
    }

    /// A fresh coordinator: idle, nothing queued, nothing granted, backoff
    /// interval at `initial_interval`.
    pub fn new(initial_interval: u64, max_interval: u64, steady_pacing: u64) -> (c: Coordinator)
        ensures
            c.wf(),
            c.phase == Phase::Idle,
            c.queue@ == Seq::<u64>::empty(),
            c.granted_log@ == Seq::<u64>::empty(),
            c.arrivals@ == Seq::<u64>::empty(),
            c.pacing == (Pacing { initial_interval, max_interval, steady_pacing,
                current_interval: initial_interval }),
    {
        let c = Coordinator {
            pacing: Pacing::new(initial_interval, max_interval, steady_pacing),
            phase: Phase::Idle,
            queue: Vec::new(),
            granted_log: Vec::new(),
            arrivals: Ghost(Seq::empty()),
        };
        proof {
            assert(c.arrivals@ =~= c.granted_log@ + c.queue@);
        }
        c
    }

    /// A request arrives: its token joins the back of the queue. Requests can
    /// arrive only while a requester exists, so never after termination.
    pub fn enqueue(&mut self, token: u64)
        requires
            old(self).wf(),
            old(self).phase != Phase::Terminated,
        ensures
            final(self).wf(),
            final(self).queue@ == old(self).queue@.push(token),
            final(self).arrivals@ == old(self).arrivals@.push(token),
            final(self).phase == old(self).phase,
            final(self).pacing == old(self).pacing,
            final(self).granted_log@ == old(self).granted_log@,
    {
        self.queue.push(token);
        proof {
            self.arrivals@ = self.arrivals@.push(token);
            assert(self.arrivals@ =~= self.granted_log@ + self.queue@);
        }
    }

    /// Service the next request, if the coordinator may: when it is idle and
    /// a request is pending, the oldest pending request — and no other — is
    /// granted a permit. While a permit is outstanding, nothing is granted
    /// and nothing changes: permits are serialized.
    pub fn service(&mut self) -> (granted: Option<u64>)
        requires
            old(self).wf(),
        ensures
            final(self).wf(),
            granted is Some <==> old(self).phase == Phase::Idle && old(self).queue@.len() > 0,
            old(self).phase == Phase::Granted ==> granted is None,
            granted is None ==> *final(self) == *old(self),
            granted matches Some(token) ==> {
                &&& token == old(self).queue@.first()
                &&& final(self).queue@ == old(self).queue@.drop_first()
                &&& final(self).granted_log@ == old(self).granted_log@.push(token)
                &&& final(self).phase == Phase::Granted
                &&& final(self).pacing == old(self).pacing
                &&& final(self).arrivals@ == old(self).arrivals@
            },
    {
        if self.phase == Phase::Idle && self.queue.len() > 0 {
            let token = self.queue.remove(0);
            self.phase = Phase::Granted;
            self.granted_log.push(token);
            proof {
                assert(old(self).queue@.remove(0) =~= old(self).queue@.drop_first());
                assert(self.arrivals@ =~= self.granted_log@ + self.queue@);
            }
            Some(token)
        } else {
            None
        }
    }

    /// The outstanding permit is resolved: a reported outcome adjusts the
    /// pacing state and yields the delay to apply before the next grant, an
    /// abandoned permit (`None`) leaves the pacing state untouched and yields
    /// no delay, and either way the coordinator returns to idle.
    pub fn resolve(&mut self, outcome: Option<Outcome>) -> (delay: u64)
        requires
            old(self).wf(),
            old(self).phase == Phase::Granted,
        ensures
            final(self).wf(),
            final(self).phase == Phase::Idle,
            final(self).queue@ == old(self).queue@,
            final(self).granted_log@ == old(self).granted_log@,
            final(self).arrivals@ == old(self).arrivals@,
            outcome == Some(Outcome::Success) ==> final(self).pacing == old(
                self,
            ).pacing.after_success() && delay == old(self).pacing.steady_pacing,
            outcome == Some(Outcome::Fail) ==> final(self).pacing == old(self).pacing.after_fail()
                && delay == final(self).pacing.current_interval,
            outcome is None ==> final(self).pacing == old(self).pacing && delay == 0,
    {
        self.phase = Phase::Idle;
        self.pacing.on_outcome(outcome)
    }

    /// The last requester is gone and nothing is pending: the coordinator
    /// terminates, permanently.
    pub fn close(&mut self)
        requires
            old(self).wf(),
            old(self).phase == Phase::Idle,
            old(self).queue@.len() == 0,
        ensures
            final(self).wf(),
            final(self).phase == Phase::Terminated,
            final(self).queue@ == old(self).queue@,
            final(self).granted_log@ == old(self).granted_log@,
            final(self).arrivals@ == old(self).arrivals@,
            final(self).pacing == old(self).pacing,
    {
        self.phase = Phase::Terminated;
    }
}

/// Serialization: at most one permit is unresolved at any instant — the
/// control state cannot hold more — and while one is outstanding, `service`
/// grants nothing (the second half is `service`'s own contract).
pub proof fn lemma_serialization(c: Coordinator)
    ensures
        c.outstanding_permits() <= 1,
{
}

/// FIFO fairness: permits are granted in arrival order — the grant log is
/// exactly the prefix of the arrival sequence of its own length, so a request
/// enqueued strictly before another is granted no later.
pub proof fn lemma_fifo(c: Coordinator)
    requires
        c.wf(),
    ensures
        c.granted_log@ == c.arrivals@.take(c.granted_log@.len() as int),
{
    assert(c.granted_log@ =~= (c.granted_log@ + c.queue@).take(c.granted_log@.len() as int));
}

/// FIFO fairness, pairwise: if the request at arrival position `i` precedes
/// the one at arrival position `j`, and the later one has been granted, then
/// the earlier one has been granted too, at its own arrival position.
pub proof fn lemma_fifo_pairwise(c: Coordinator, i: int, j: int)
    requires
        c.wf(),
        0 <= i < j,
        j < c.granted_log@.len(),
    ensures
        i < c.granted_log@.len(),
        c.granted_log@[i] == c.arrivals@[i],
        c.granted_log@[j] == c.arrivals@[j],
{
    lemma_fifo(c);
}

} // verus!
