use vstd::prelude::*;

verus! {

/// The pause between two attempts, in milliseconds.
pub const POLL_INTERVAL_MS: u64 = 200;

/// Where a poller stands: waiting for the clock to be read before an attempt,
/// waiting for the outcome of an attempt, or finished one way or the other.
#[derive(Clone, Copy, PartialEq, Eq, Structural, Debug)]
pub enum PollStatus {
    Waiting,
    Attempting,
    Ready,
    TimedOut,
}

/// What the driver of a poller does next.
#[derive(Clone, Copy, PartialEq, Eq, Structural, Debug)]
pub enum PollStep {
    /// Make one request.
    Attempt,
    /// Pause for the given time, then read the clock again.
    Sleep { ms: u64 },
    /// The last request was ready: its value is the result.
    Finish,
    /// The deadline has passed after the given time: give up.
    TimedOut { elapsed_ms: u64 },
}

/// The decisions of the deadline-bounded retry loop: read the clock, attempt,
/// and on "not ready" pause for the fixed interval, until an attempt is ready
/// or the deadline has passed. The counters of attempts and of time paused
/// saturate at the largest `u64`.
#[derive(Clone, Copy, PartialEq, Eq, Structural, Debug)]
pub struct Poller {
    pub timeout_ms: u64,
    pub attempts: u64,
    pub slept_ms: u64,
    pub status: PollStatus,
}

impl Poller {
    pub open spec fn fresh(timeout_ms: u64) -> Poller {
        Poller { timeout_ms, attempts: 0, slept_ms: 0, status: PollStatus::Waiting }
    }

    /// The state after the clock reads `elapsed_ms` since the phase began.
    pub open spec fn after_tick(self, elapsed_ms: u64) -> Poller {
        if elapsed_ms > self.timeout_ms {
            Poller { status: PollStatus::TimedOut, ..self }
        } else {
            Poller {
                attempts: if self.attempts < u64::MAX {
                    (self.attempts + 1) as u64
                } else {
                    self.attempts
                },
                status: PollStatus::Attempting,
                ..self
            }
        }
    }

    pub open spec fn tick_step(self, elapsed_ms: u64) -> PollStep {
        if elapsed_ms > self.timeout_ms {
            PollStep::TimedOut { elapsed_ms }
        } else {
            PollStep::Attempt
        }
    }

    /// The state after an attempt came back ready or not.
    pub open spec fn after_outcome(self, ready: bool) -> Poller {
        if ready {
            Poller { status: PollStatus::Ready, ..self }
        } else {
            Poller {
                slept_ms: if self.slept_ms <= u64::MAX - POLL_INTERVAL_MS {
                    (self.slept_ms + POLL_INTERVAL_MS) as u64
                } else {
                    u64::MAX
                },
                status: PollStatus::Waiting,
                ..self
            }
        }
    }

    pub open spec fn outcome_step(ready: bool) -> PollStep {
        if ready {
            PollStep::Finish
        } else {
            PollStep::Sleep { ms: POLL_INTERVAL_MS }
        }
    }

    pub fn new(timeout_ms: u64) -> (r: Poller)
        ensures
            r == Poller::fresh(timeout_ms),
    {
        Poller { timeout_ms, attempts: 0, slept_ms: 0, status: PollStatus::Waiting }
    }

    /// Reads the clock before an attempt. Past the deadline no attempt is made.
    pub fn tick(&mut self, elapsed_ms: u64) -> (r: PollStep)
        requires
            old(self).status == PollStatus::Waiting,
        ensures
            *final(self) == old(self).after_tick(elapsed_ms),
            r == old(self).tick_step(elapsed_ms),
            r is TimedOut <==> elapsed_ms > old(self).timeout_ms,
            r is TimedOut ==> r->elapsed_ms == elapsed_ms && elapsed_ms >= old(self).timeout_ms,
            r is Attempt <==> elapsed_ms <= old(self).timeout_ms,
    {
        if elapsed_ms > self.timeout_ms {
            self.status = PollStatus::TimedOut;
            PollStep::TimedOut { elapsed_ms }
        } else {
            if self.attempts < u64::MAX {
                self.attempts = self.attempts + 1;
            }
            self.status = PollStatus::Attempting;
            PollStep::Attempt
        }
    }

    /// Takes the outcome of an attempt: ready ends the loop, anything else
    /// asks for the fixed pause.
    pub fn outcome(&mut self, ready: bool) -> (r: PollStep)
        requires
            old(self).status == PollStatus::Attempting,
        ensures
            *final(self) == old(self).after_outcome(ready),
            r == Poller::outcome_step(ready),
    {
        if ready {
            self.status = PollStatus::Ready;
            PollStep::Finish
        } else {
            if self.slept_ms <= u64::MAX - POLL_INTERVAL_MS {
                self.slept_ms = self.slept_ms + POLL_INTERVAL_MS;
            } else {
                self.slept_ms = u64::MAX;
            }
            self.status = PollStatus::Waiting;
            PollStep::Sleep { ms: POLL_INTERVAL_MS }
        }
    }
}

/// The state of a poller after one round per outcome, each round reading the
/// clock value of the same position and then taking that outcome.
pub open spec fn run(p: Poller, outcomes: Seq<bool>, clock: Seq<u64>) -> Poller
    decreases outcomes.len(),
{
    if outcomes.len() == 0 {
        p
    } else {
        run(p.after_tick(clock[0]).after_outcome(outcomes[0]), outcomes.drop_first(), clock.drop_first())
    }
}

/// `n` outcomes that are not ready, followed by one that is.
pub open spec fn ready_on_last(n: nat) -> Seq<bool> {
    Seq::new(n + 1, |i: int| i == n)
}

pub open spec fn within(clock: Seq<u64>, timeout_ms: u64) -> bool {
    forall|i: int| 0 <= i < clock.len() ==> clock[i] <= timeout_ms
}

proof fn lemma_run_general(p: Poller, n: nat, clock: Seq<u64>)
    requires
        p.status == PollStatus::Waiting,
        clock.len() == n + 1,
        within(clock, p.timeout_ms),
        p.attempts + n + 1 <= u64::MAX,
        p.slept_ms + POLL_INTERVAL_MS * n <= u64::MAX,
    ensures
        run(p, ready_on_last(n), clock) == (Poller {
            attempts: (p.attempts + n + 1) as u64,
            slept_ms: (p.slept_ms + POLL_INTERVAL_MS * n) as u64,
            status: PollStatus::Ready,
            ..p
        }),
    decreases n,
{
    let outcomes = ready_on_last(n);
    assert(clock[0] <= p.timeout_ms);
    assert(outcomes[0] == (n == 0));
    let q = p.after_tick(clock[0]).after_outcome(outcomes[0]);
    if n == 0 {
        assert(outcomes.drop_first().len() == 0);
        assert(run(q, outcomes.drop_first(), clock.drop_first()) == q);
    } else {
        let m = (n - 1) as nat;
        assert(outcomes.drop_first() =~= ready_on_last(m));
        assert(within(clock.drop_first(), q.timeout_ms)) by {
            assert forall|i: int| 0 <= i < clock.drop_first().len() implies clock.drop_first()[i]
                <= q.timeout_ms by {
                assert(clock[i + 1] <= p.timeout_ms);
            }
        }
        lemma_run_general(q, m, clock.drop_first());
    }
}

/// When the attempt is ready on the `k`-th call and every clock reading is
/// within the deadline, the poller makes exactly `k` attempts, pauses
/// `k - 1` times for the fixed interval, and ends ready, after which it
/// accepts no further attempt.
pub proof fn lemma_ready_on_kth_attempt(timeout_ms: u64, k: nat, clock: Seq<u64>)
    requires
        1 <= k,
        k <= u64::MAX / POLL_INTERVAL_MS,
        clock.len() == k,
        within(clock, timeout_ms),
    ensures
        run(Poller::fresh(timeout_ms), ready_on_last((k - 1) as nat), clock) == (Poller {
            timeout_ms,
            attempts: k as u64,
            slept_ms: (POLL_INTERVAL_MS * (k - 1)) as u64,
            status: PollStatus::Ready,
        }),
{
    lemma_run_general(Poller::fresh(timeout_ms), (k - 1) as nat, clock);
}

proof fn lemma_never_ready_general(p: Poller, n: nat, clock: Seq<u64>)
    requires
        p.status == PollStatus::Waiting,
        clock.len() == n,
        within(clock, p.timeout_ms),
        p.attempts + n <= u64::MAX,
        p.slept_ms + POLL_INTERVAL_MS * n <= u64::MAX,
    ensures
        run(p, Seq::new(n, |i: int| false), clock) == (Poller {
            attempts: (p.attempts + n) as u64,
            slept_ms: (p.slept_ms + POLL_INTERVAL_MS * n) as u64,
            ..p
        }),
    decreases n,
{
    let outcomes = Seq::new(n, |i: int| false);
    if n > 0 {
        assert(clock[0] <= p.timeout_ms);
        let q = p.after_tick(clock[0]).after_outcome(outcomes[0]);
        let m = (n - 1) as nat;
        assert(outcomes.drop_first() =~= Seq::new(m, |i: int| false));
        assert(within(clock.drop_first(), q.timeout_ms)) by {
            assert forall|i: int| 0 <= i < clock.drop_first().len() implies clock.drop_first()[i]
                <= q.timeout_ms by {
                assert(clock[i + 1] <= p.timeout_ms);
            }
        }
        lemma_never_ready_general(q, m, clock.drop_first());
    }
}

/// An attempt that is never ready never ends the loop while the clock stays
/// within the deadline: after `n` rounds the poller still waits, having made
/// `n` attempts and `n` pauses. Only a clock reading past the deadline ends
/// it, with a timeout that reports that reading.
pub proof fn lemma_never_ready_times_out_only_late(timeout_ms: u64, n: nat, clock: Seq<u64>, late_ms: u64)
    requires
        n <= u64::MAX / POLL_INTERVAL_MS,
        clock.len() == n,
        within(clock, timeout_ms),
    ensures
        run(Poller::fresh(timeout_ms), Seq::new(n, |i: int| false), clock) == (Poller {
            timeout_ms,
            attempts: n as u64,
            slept_ms: (POLL_INTERVAL_MS * n) as u64,
            status: PollStatus::Waiting,
        }),
        run(Poller::fresh(timeout_ms), Seq::new(n, |i: int| false), clock).tick_step(late_ms)
            is TimedOut <==> late_ms > timeout_ms,
{
    lemma_never_ready_general(Poller::fresh(timeout_ms), n, clock);
}

} // verus!
