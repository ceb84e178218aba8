use vstd::prelude::*;

verus! {

/// One step the keep-alive discipline mandates between sessions.
#[derive(Clone, Copy, PartialEq, Eq, Debug)]
pub enum KeepAliveStep {
    Sleep(u64),
    Reconnect,
}

/// The steps mandated after `n` session ends under a fixed backoff: each end
/// is followed by one backoff sleep and then one fresh reconnect attempt.
pub open spec fn keep_alive_trace(backoff_secs: u64, n: nat) -> Seq<KeepAliveStep>
    decreases n,
{
    if n == 0 {
        Seq::empty()
    } else {
        keep_alive_trace(backoff_secs, (n - 1) as nat)
            + seq![KeepAliveStep::Sleep(backoff_secs), KeepAliveStep::Reconnect]
    }
}

/// The seconds of sleep a step sequence mandates in total.
pub open spec fn total_sleep(steps: Seq<KeepAliveStep>) -> nat
    decreases steps.len(),
{
    if steps.len() == 0 {
        0
    } else {
        total_sleep(steps.drop_last()) + (match steps.last() {
            KeepAliveStep::Sleep(s) => s as nat,
            KeepAliveStep::Reconnect => 0nat,
        })
    }
}

/// How many reconnect attempts a step sequence makes.
pub open spec fn reconnect_count(steps: Seq<KeepAliveStep>) -> nat
    decreases steps.len(),
{
    if steps.len() == 0 {
        0
    } else {
        reconnect_count(steps.drop_last()) + (if steps.last() == KeepAliveStep::Reconnect {
            1nat
        } else {
            0nat
        })
    }
}

/// The perpetual reconnect discipline toward one keep-alive target.
pub struct KeepAliveLoop {
    pub backoff_secs: u64,
    pub sessions_ended: u64,
}

impl KeepAliveLoop {
    pub fn new(backoff_secs: u64) -> (r: KeepAliveLoop)
        ensures
            r.backoff_secs == backoff_secs,
            r.sessions_ended == 0,
    {
        KeepAliveLoop { backoff_secs, sessions_ended: 0 }
    }

    /// Every session end, clean close and failure alike, mandates exactly one
    /// backoff sleep followed by one fresh reconnect attempt.
    pub fn on_session_end(&mut self) -> (steps: Vec<KeepAliveStep>)
        requires
            old(self).sessions_ended < u64::MAX,
        ensures
            final(self).backoff_secs == old(self).backoff_secs,
            final(self).sessions_ended == old(self).sessions_ended + 1,
            steps@ == seq![
                KeepAliveStep::Sleep(old(self).backoff_secs),
                KeepAliveStep::Reconnect,
            ],
    {
        self.sessions_ended = self.sessions_ended + 1;
        let mut steps: Vec<KeepAliveStep> = Vec::new();
        steps.push(KeepAliveStep::Sleep(self.backoff_secs));
        steps.push(KeepAliveStep::Reconnect);
        steps
    }
}

/// Law: after `n` session ends the loop has made exactly `n` reconnect
/// attempts, every reconnect is immediately preceded by a sleep of the
/// configured backoff, and the mandated sleeping totals `n` times the
/// backoff — so there is no unbounded tight reconnect loop.
pub proof fn lemma_keep_alive_paced(backoff_secs: u64, n: nat)
    ensures
        keep_alive_trace(backoff_secs, n).len() == 2 * n,
        reconnect_count(keep_alive_trace(backoff_secs, n)) == n,
        total_sleep(keep_alive_trace(backoff_secs, n)) == n * backoff_secs,
        forall|j: int|
            0 <= j < keep_alive_trace(backoff_secs, n).len() && #[trigger] keep_alive_trace(
                backoff_secs,
                n,
            )[j] == KeepAliveStep::Reconnect ==> j >= 1 && keep_alive_trace(backoff_secs, n)[j - 1]
                == KeepAliveStep::Sleep(backoff_secs),
    decreases n,
{
    if n > 0 {
        lemma_keep_alive_paced(backoff_secs, (n - 1) as nat);
        let prev = keep_alive_trace(backoff_secs, (n - 1) as nat);
        let pair = seq![KeepAliveStep::Sleep(backoff_secs), KeepAliveStep::Reconnect];
        let cur = keep_alive_trace(backoff_secs, n);
        let mid = prev.push(KeepAliveStep::Sleep(backoff_secs));
        assert(cur == prev + pair);
        assert(cur.last() == KeepAliveStep::Reconnect);
        assert(cur.drop_last() =~= mid);
        assert(mid.last() == KeepAliveStep::Sleep(backoff_secs));
        assert(mid.drop_last() =~= prev);
        assert(total_sleep(mid) == total_sleep(prev) + backoff_secs);
        assert(total_sleep(cur) == total_sleep(mid));
        assert(reconnect_count(mid) == reconnect_count(prev));
        assert(reconnect_count(cur) == reconnect_count(mid) + 1);
        assert((n - 1) * backoff_secs + backoff_secs == n * backoff_secs) by (nonlinear_arith);
    }
}

} // verus!
