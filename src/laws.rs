use vstd::prelude::*;

use crate::frame_history::sum_of;
use crate::scheduler::{
    above_band, accumulate, below_band, catch_up_count, catch_up_rest, catch_up_step, next_count,
    GameloopCommand, SchedulerView, PICOS_PER_SECOND, STEP,
};

verus! {

proof fn lemma_sum_nonneg(s: Seq<u64>)
    ensures
        sum_of(s) >= 0,
    decreases s.len(),
{
    if s.len() > 0 {
        lemma_sum_nonneg(s.drop_last());
    }
}

/// Frames of one same duration average to that duration.
proof fn lemma_sum_constant(s: Seq<u64>, t: u64)
    requires
        forall|j: int| 0 <= j < s.len() ==> s[j] == t,
    ensures
        sum_of(s) == s.len() * t,
    decreases s.len(),
{
    if s.len() > 0 {
        assert(forall|j: int| 0 <= j < s.drop_last().len() ==> s.drop_last()[j] == s[j]);
        assert(s.last() == s[s.len() - 1]);
        lemma_sum_constant(s.drop_last(), t);
        let n = s.len() as int;
        assert(sum_of(s) == sum_of(s.drop_last()) + t);
        assert(sum_of(s) == n * t) by (nonlinear_arith)
            requires sum_of(s) == sum_of(s.drop_last()) + t, sum_of(s.drop_last()) == (n - 1) * t;
    }
}

/// When the last ten frames, the current one included, each lasted exactly one
/// update period (and the rate is at least 2 Hz), lockstep runs exactly one
/// update in the frame and leaves one step in the accumulator, whatever it held.
pub proof fn lemma_lockstep_one_update(v: SchedulerView, frame_ns: u64)
    requires
        v.wf(),
        !v.paused,
        v.lockstep,
        v.ups >= 2000,
        frame_ns * v.ups == PICOS_PER_SECOND,
        forall|j: int| 0 <= j < 10 ==> v.history[j] == frame_ns,
    ensures
        v.framed(frame_ns).frametime == frame_ns,
        v.framed(frame_ns).alpha == 2 * STEP,
        catch_up_count(2 * STEP, 0, v.ups as int) == 1,
        catch_up_rest(2 * STEP, 0, v.ups as int) == STEP,
{
    let h = v.history.drop_first().push(frame_ns);
    assert(forall|j: int| 0 <= j < h.len() ==> h[j] == frame_ns) by {
        assert(forall|j: int| 0 <= j < 9 ==> h[j] == v.history[j + 1]);
    }
    lemma_sum_constant(h, frame_ns);
    assert(sum_of(h) / 10 == frame_ns);
    let t = frame_ns as int;
    let r = v.ups as int;
    assert(!below_band(t, r)) by (nonlinear_arith)
        requires t * r == PICOS_PER_SECOND, t >= 0, r >= 0;
    assert(!above_band(t, r)) by (nonlinear_arith)
        requires t * r == PICOS_PER_SECOND, t >= 0, r >= 2000;
    assert(catch_up_step(2 * STEP, 1, r) == STEP);
    assert(catch_up_count(STEP as int, 1, r) == 0);
    assert(catch_up_rest(STEP as int, 1, r) == STEP);
}

/// From accumulator `a + m` steps with `0 < a <= 1` step, after `n` updates,
/// the catch-up loop runs `m` more updates and stops at `a`, while the cap is
/// not reached.
proof fn lemma_catch_up_whole(a: int, m: int, n: int, r: int)
    requires
        0 < a <= STEP,
        m >= 0,
        0 <= n,
        n + m < u64::MAX,
        m == 0 || (n + m - 1) * 12000 <= r,
    ensures
        catch_up_count(a + m * STEP, n, r) == m,
        catch_up_rest(a + m * STEP, n, r) == a,
    decreases m,
{
    if m > 0 {
        let alpha = a + m * STEP;
        assert(alpha > STEP) by (nonlinear_arith)
            requires alpha == a + m * STEP, a > 0, m >= 1;
        assert(next_count(n) == n + 1);
        if m >= 2 {
            assert((n + 1) * 12000 <= r) by (nonlinear_arith)
                requires (n + m - 1) * 12000 <= r, m >= 2;
        } else {
            assert(alpha <= 2 * STEP);
        }
        assert(a + m * STEP - STEP == a + (m - 1) * STEP) by (nonlinear_arith);
        assert(catch_up_step(alpha, n + 1, r) == a + (m - 1) * STEP);
        lemma_catch_up_whole(a, m - 1, n + 1, r);
    }
}

/// With lockstep off, a frame lasting exactly `k` update periods runs exactly
/// `k` updates (while `k` stays within the catch-up cap) and the accumulator
/// returns to what it held before the frame, provided that lay in (0, 1] step.
pub proof fn lemma_whole_periods(v: SchedulerView, frame_ns: u64, k: nat)
    requires
        v.wf(),
        !v.paused,
        !v.lockstep,
        0 < v.alpha <= STEP,
        k >= 1,
        (k - 1) * 12000 <= v.ups,
        v.framed(frame_ns).frametime * v.ups == k * STEP,
        v.alpha + k * STEP <= crate::scheduler::OWED_LIMIT_NS * v.ups,
    ensures
        v.framed(frame_ns).alpha == v.alpha + k * STEP,
        catch_up_count(v.framed(frame_ns).alpha as int, 0, v.ups as int) == k,
        catch_up_rest(v.framed(frame_ns).alpha as int, 0, v.ups as int) == v.alpha,
{
    assert(k < u64::MAX) by (nonlinear_arith)
        requires (k - 1) * 12000 <= v.ups, v.ups <= u32::MAX;
    lemma_sum_nonneg(v.history.drop_first().push(frame_ns));
    lemma_catch_up_whole(v.alpha as int, k as int, 0, v.ups as int);
}

proof fn lemma_cap_from(alpha: int, n: int, r: int)
    requires
        0 < r <= u32::MAX,
        alpha >= 0,
        0 <= n <= r / 12000,
    ensures
        catch_up_count(alpha, n, r) <= r / 12000 + 1 - n,
    decreases r / 12000 - n,
{
    if alpha > STEP {
        assert(next_count(n) == n + 1);
        let next = catch_up_step(alpha, n + 1, r);
        if n == r / 12000 {
            assert((n + 1) * 12000 > r) by (nonlinear_arith)
                requires n == r / 12000, r > 0;
            assert(next <= STEP);
            assert(catch_up_count(next, n + 1, r) == 0);
        } else {
            lemma_cap_from(next, n + 1, r);
        }
    }
}

/// However much progress is owed, one frame's catch-up loop runs at most
/// `ups / 12 + 1` updates (rate in whole hertz, rounded down).
pub proof fn lemma_catch_up_capped(alpha: nat, ups: nat)
    requires
        0 < ups <= u32::MAX,
    ensures
        catch_up_count(alpha as int, 0, ups as int) <= ups / 12000 + 1,
{
    lemma_cap_from(alpha as int, 0, ups as int);
}

/// After a rate change the interpolation factor render receives is the old
/// accumulator scaled by new rate over old rate (or one step when degraded).
pub proof fn lemma_rate_change_interp(v: SchedulerView, new_ups: u32)
    requires
        v.wf(),
        new_ups > 0,
    ensures
        v.applied(GameloopCommand::ChangeUps(new_ups)).interp() == if v.low_framerate {
            STEP as nat
        } else {
            (v.alpha * new_ups as nat) / v.ups
        },
{
}

/// While paused a frame runs no update and leaves the accumulator, the mode and
/// the interpolation factor render receives as they were.
pub proof fn lemma_paused_frame(v: SchedulerView, frame_ns: u64)
    requires
        v.wf(),
        v.paused,
    ensures
        v.framed(frame_ns).paused,
        !v.framed(frame_ns).update_due(),
        v.framed(frame_ns).alpha == v.alpha,
        v.framed(frame_ns).interp() == v.interp(),
{
}

/// When degraded, render receives one whole step whatever the accumulator holds.
pub proof fn lemma_degraded_interp(v: SchedulerView)
    requires
        v.low_framerate,
    ensures
        v.interp() == STEP,
{
}

} // verus!
