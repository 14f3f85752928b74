//! The policy for joining a room the account was invited to: try, and after
//! each failure wait, doubling the wait each time, until a wait would exceed
//! an hour.

use vstd::prelude::*;

verus! {

/// Seconds to wait after the first failed attempt.
pub open spec fn first_join_wait() -> nat {
    2
}

/// No attempt follows a wait whose double exceeds this many seconds.
pub open spec fn join_wait_limit() -> nat {
    3600
}

/// Whether another attempt follows the wait `wait`.
pub open spec fn retries_after(wait: nat) -> bool {
    2 * wait <= join_wait_limit()
}

/// The waits that a run of failed attempts goes through, starting with the
/// wait `wait`: each is twice the one before, and the last is the first
/// after which no attempt follows.
pub open spec fn join_waits(wait: nat) -> Seq<nat>
    decreases join_wait_limit() - wait,
{
    if wait == 0 || !retries_after(wait) {
        seq![wait]
    } else {
        seq![wait] + join_waits(2 * wait)
    }
}

/// The total of the waits in `join_waits(wait)`.
pub open spec fn total_join_wait(wait: nat) -> nat
    decreases join_wait_limit() - wait,
{
    if wait == 0 || !retries_after(wait) {
        wait
    } else {
        wait + total_join_wait(2 * wait)
    }
}

/// What to do after a failed attempt to join.
#[derive(Debug, PartialEq, Eq)]
pub enum JoinFailureAction {
    /// Wait this many seconds, then try again.
    RetryAfter(u64),
    /// Wait this many seconds, then stop trying.
    GiveUpAfter(u64),
}

/// The state of the attempts to join one room: the wait that the next
/// failure is answered with.
pub struct JoinBackoff {
    wait: u64,
}

impl JoinBackoff {
    /// The wait that the next failure is answered with, in seconds.
    pub closed spec fn wait(self) -> nat {
        self.wait as nat
    }

    /// The state before the first attempt.
    pub fn new() -> (r: Self)
        ensures
            r.wait() == first_join_wait(),
    {
        JoinBackoff { wait: 2 }
    }

    /// The wait that the next failure is answered with, in seconds.
    pub fn current_wait(&self) -> (r: u64)
        ensures
            r == self.wait(),
    {
        self.wait
    }

    /// Whether `on_join_failed` may be called: another attempt was to
    /// follow the last failure.
    pub fn accepts_failure(&self) -> (r: bool)
        ensures
            r == (0 < self.wait() <= join_wait_limit()),
    {
        0 < self.wait && self.wait <= 3600
    }

    /// After a failed attempt: wait the current wait, double it, and try
    /// again unless the doubled wait exceeds the limit.
    pub fn on_join_failed(&mut self) -> (r: JoinFailureAction)
        requires
            0 < old(self).wait() <= join_wait_limit(),
        ensures
            final(self).wait() == 2 * old(self).wait(),
            retries_after(old(self).wait()) ==> r == JoinFailureAction::RetryAfter(
                old(self).wait() as u64,
            ),
            !retries_after(old(self).wait()) ==> r == JoinFailureAction::GiveUpAfter(
                old(self).wait() as u64,
            ),
    {
        let waited = self.wait;
        self.wait = self.wait * 2;
        if self.wait > 3600 {
            JoinFailureAction::GiveUpAfter(waited)
        } else {
            JoinFailureAction::RetryAfter(waited)
        }
    }
}

/// A room that cannot be joined is tried eleven times: the waits after the
/// failures are 2, 4, 8, ..., 2048 seconds, 4094 seconds in all, and after
/// the last one no attempt follows.
pub proof fn lemma_join_schedule()
    ensures
        join_waits(first_join_wait()) == seq![
            2nat,
            4nat,
            8nat,
            16nat,
            32nat,
            64nat,
            128nat,
            256nat,
            512nat,
            1024nat,
            2048nat,
        ],
        join_waits(first_join_wait()).len() == 11,
        total_join_wait(first_join_wait()) == 4094,
        !retries_after(2048),
{
    reveal_with_fuel(join_waits, 12);
    reveal_with_fuel(total_join_wait, 12);
    assert(join_waits(2048) =~= seq![2048nat]);
    assert(join_waits(1024) =~= seq![1024nat, 2048nat]);
    assert(join_waits(512) =~= seq![512nat, 1024nat, 2048nat]);
    assert(join_waits(256) =~= seq![256nat, 512nat, 1024nat, 2048nat]);
    assert(join_waits(128) =~= seq![128nat, 256nat, 512nat, 1024nat, 2048nat]);
    assert(join_waits(64) =~= seq![64nat, 128nat, 256nat, 512nat, 1024nat, 2048nat]);
    assert(join_waits(32) =~= seq![32nat, 64nat, 128nat, 256nat, 512nat, 1024nat, 2048nat]);
    assert(join_waits(16) =~= seq![16nat, 32nat, 64nat, 128nat, 256nat, 512nat, 1024nat, 2048nat]);
    assert(join_waits(8) =~= seq![
        8nat,
        16nat,
        32nat,
        64nat,
        128nat,
        256nat,
        512nat,
        1024nat,
        2048nat,
    ]);
    assert(join_waits(4) =~= seq![
        4nat,
        8nat,
        16nat,
        32nat,
        64nat,
        128nat,
        256nat,
        512nat,
        1024nat,
        2048nat,
    ]);
    assert(join_waits(2) =~= seq![
        2nat,
        4nat,
        8nat,
        16nat,
        32nat,
        64nat,
        128nat,
        256nat,
        512nat,
        1024nat,
        2048nat,
    ]);
}

/// Every wait of a run of failures is at most the limit, and a run that
/// starts from a positive wait is finite.
pub proof fn lemma_join_waits_bounded(wait: nat)
    requires
        0 < wait <= join_wait_limit(),
    ensures
        forall|i: int| 0 <= i < join_waits(wait).len() ==> #[trigger] join_waits(wait)[i] <= join_wait_limit(),
        join_waits(wait)[0] == wait,
    decreases join_wait_limit() - wait,
{
    if retries_after(wait) {
        lemma_join_waits_bounded(2 * wait);
        let rest = join_waits(2 * wait);
        assert forall|i: int| 0 <= i < join_waits(wait).len() implies #[trigger] join_waits(
            wait,
        )[i] <= join_wait_limit() by {
            if i > 0 {
                assert(join_waits(wait)[i] == rest[i - 1]);
            }
        }
    }
}

/// Each failure that the state machine answers takes the next wait of the
/// run: the action's wait is the head of `join_waits`, and the run from the
/// new state is its tail when another attempt follows.
pub proof fn lemma_join_failure_follows_schedule(wait: nat)
    requires
        0 < wait <= join_wait_limit(),
    ensures
        join_waits(wait)[0] == wait,
        retries_after(wait) ==> join_waits(wait).drop_first() == join_waits(2 * wait),
        !retries_after(wait) ==> join_waits(wait).len() == 1,
{
    if retries_after(wait) {
        assert(join_waits(wait).drop_first() =~= join_waits(2 * wait));
    }
}

} // verus!
