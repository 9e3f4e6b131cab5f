use vstd::prelude::*;

verus! {

/// Nanoseconds in one second.
pub const NANOS_PER_SECOND: u64 = 1_000_000_000;

/// How long a frame lasts, start to start, when drawing it took `elapsed`:
/// the budget, or the time taken when that was longer.
pub open spec fn frame_span(interval: nat, elapsed: nat) -> nat {
    if elapsed >= interval {
        elapsed
    } else {
        interval
    }
}

/// The time from the start of the first frame to the end of the last, one
/// frame per entry of `costs`.
pub open spec fn total_span(interval: nat, costs: Seq<nat>) -> nat
    decreases costs.len(),
{
    if costs.len() == 0 {
        0
    } else {
        total_span(interval, costs.drop_last()) + frame_span(interval, costs.last())
    }
}

/// The frame budget in nanoseconds for a target frame rate: the largest
/// whole number of nanoseconds such that `frame_rate` frames fit in a second.
pub fn frame_interval_nanos(frame_rate: u64) -> (r: u64)
    requires
        frame_rate > 0,
    ensures
        r == NANOS_PER_SECOND / frame_rate,
        frame_rate * r <= NANOS_PER_SECOND < frame_rate * (r + 1),
{
    let r = NANOS_PER_SECOND / frame_rate;
    proof {
        let n = NANOS_PER_SECOND as int;
        let f = frame_rate as int;
        assert(f * (n / f) + n % f == n && 0 <= n % f < f) by (nonlinear_arith)
            requires f > 0;
        assert(f * (r + 1) == f * r + f) by (nonlinear_arith);
    }
    r
}

/// How long to sleep after a frame that took `elapsed` of an `interval`
/// budget: the rest of the budget, or nothing for a frame over budget.
pub fn sleep_nanos(interval: u64, elapsed: u64) -> (r: u64)
    ensures
        r == (if elapsed >= interval { 0 } else { interval - elapsed }),
        elapsed + r == frame_span(interval as nat, elapsed as nat),
{
    if elapsed >= interval {
        0
    } else {
        interval - elapsed
    }
}

/// Paced frames take the budget each when drawing is within budget, so `n`
/// such frames take exactly `n` budgets; over-budget frames only lengthen
/// the run, never shorten it.
pub proof fn pacing_keeps_rate(interval: nat, costs: Seq<nat>)
    ensures
        total_span(interval, costs) >= costs.len() * interval,
        (forall|i: int| 0 <= i < costs.len() ==> costs[i] <= interval) ==> total_span(interval, costs)
            == costs.len() * interval,
    decreases costs.len(),
{
    if costs.len() > 0 {
        let prefix = costs.drop_last();
        pacing_keeps_rate(interval, prefix);
        assert(costs.len() * interval == prefix.len() * interval + interval) by (nonlinear_arith)
            requires costs.len() == prefix.len() + 1;
        if forall|i: int| 0 <= i < costs.len() ==> costs[i] <= interval {
            assert forall|i: int| 0 <= i < prefix.len() implies prefix[i] <= interval by {
                assert(prefix[i] == costs[i]);
            }
            assert(costs.last() == costs[costs.len() - 1]);
        }
    }
}

} // verus!
