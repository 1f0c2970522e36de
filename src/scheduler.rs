use vstd::prelude::*;

use crate::frame_history::{sum_of, FrameHistory};
use vstd::arithmetic::div_mod::{lemma_div_by_multiple, lemma_div_is_ordered};

verus! {

/// One logical update step, in picosteps (the accumulator's unit).
pub const STEP: u128 = 1_000_000_000_000;

/// Nanoseconds per second, scaled by a thousand so that rates in millihertz fit.
pub const PICOS_PER_SECOND: u128 = 1_000_000_000_000;

/// Largest amount of owed time the accumulator records, in nanoseconds.
pub const OWED_LIMIT_NS: u128 = 18_446_744_073_709_551_615;

/// A directive returned by the simulation's update or event callbacks.
/// Rates are in millihertz.
#[derive(PartialEq, Eq, Structural, Clone, Copy, Debug)]
pub enum GameloopCommand {
    Continue,
    Exit,
    Pause,
    ChangeUps(u32),
}

/// The smoothed frame time `t` (ns) is below the lockstep band of rate `r` (mHz):
/// t < max(1/r - 1 ms, 1/(r + 2 Hz)).
pub open spec fn below_band(t: int, r: int) -> bool {
    (t + 1_000_000) * r < PICOS_PER_SECOND || t * (r + 2000) < PICOS_PER_SECOND
}

/// The smoothed frame time `t` (ns) is above the lockstep band of rate `r` (mHz):
/// t > min(1/r + 1 ms, 1/(r - 2 Hz)). Below 2 Hz the second bound is negative,
/// at exactly 2 Hz it is infinite.
pub open spec fn above_band(t: int, r: int) -> bool {
    t * r > PICOS_PER_SECOND + 1_000_000 * r || r < 2000 || (r > 2000 && t * (r - 2000)
        > PICOS_PER_SECOND)
}

/// Classifies a smoothed frame time against the lockstep tolerance band of a rate:
/// returns (faster than the band, slower than the band).
pub fn lockstep_tolerance(frametime: u64, ups: u32) -> (r: (bool, bool))
    ensures
        r.0 == below_band(frametime as int, ups as int),
        r.1 == above_band(frametime as int, ups as int),
{
    let t = frametime as u128;
    let u = ups as u128;
    assert((t + 1_000_000) * u <= (u64::MAX + 1_000_000) * u32::MAX) by (nonlinear_arith)
        requires t <= u64::MAX, u <= u32::MAX;
    assert(t * (u + 2000) <= u64::MAX * (u32::MAX + 2000)) by (nonlinear_arith)
        requires t <= u64::MAX, u <= u32::MAX;
    assert(t * u <= u64::MAX * u32::MAX) by (nonlinear_arith)
        requires t <= u64::MAX, u <= u32::MAX;
    let high = (t + 1_000_000) * u < PICOS_PER_SECOND || t * (u + 2000) < PICOS_PER_SECOND;
    let low = if t * u > PICOS_PER_SECOND + 1_000_000 * u {
        true
    } else if u < 2000 {
        true
    } else if u > 2000 {
        assert(t * (u - 2000) <= t * u) by (nonlinear_arith)
            requires u >= 2000;
        t * (u - 2000) > PICOS_PER_SECOND
    } else {
        false
    };
    (high, low)
}

/// The scheduler's state as plain values.
pub ghost struct SchedulerView {
    /// Target rate in millihertz.
    pub ups: nat,
    /// Accumulated fractional progress in picosteps.
    pub alpha: nat,
    pub paused: bool,
    pub low_framerate: bool,
    pub lockstep: bool,
    /// Updates run so far in the current frame.
    pub updates: nat,
    /// Smoothed frame time in nanoseconds.
    pub frametime: nat,
    /// The stored frame durations, oldest first.
    pub history: Seq<u64>,
}

pub open spec fn min_int(a: int, b: int) -> int {
    if a <= b { a } else { b }
}

/// Accumulator after the mode decision for smoothed frame time `t`.
pub open spec fn accumulate(alpha: int, t: int, r: int, lockstep: bool) -> int {
    if below_band(t, r) || above_band(t, r) || !lockstep {
        min_int(alpha + t * r, OWED_LIMIT_NS * r)
    } else {
        2 * STEP
    }
}

/// Accumulator after one catch-up update numbered `n` (counting from one).
pub open spec fn catch_up_step(alpha: int, n: int, r: int) -> int {
    if n * 12000 > r {
        min_int(alpha, 2 * STEP) - STEP
    } else {
        alpha - STEP
    }
}

pub open spec fn next_count(n: int) -> int {
    min_int(n + 1, u64::MAX as int)
}

/// Number of updates the catch-up loop runs from accumulator `alpha`, after `n`
/// updates this frame, when every update asks to continue.
pub open spec fn catch_up_count(alpha: int, n: int, r: int) -> nat
    decreases alpha,
{
    if alpha > STEP && alpha >= 0 {
        1 + catch_up_count(catch_up_step(alpha, next_count(n), r), next_count(n), r)
    } else {
        0
    }
}

/// Accumulator left when that catch-up loop stops.
pub open spec fn catch_up_rest(alpha: int, n: int, r: int) -> int
    decreases alpha,
{
    if alpha > STEP && alpha >= 0 {
        catch_up_rest(catch_up_step(alpha, next_count(n), r), next_count(n), r)
    } else {
        alpha
    }
}

/// Every rate change in the commands is positive.
pub open spec fn rates_positive(cmds: Seq<GameloopCommand>) -> bool {
    forall|i: int| 0 <= i < cmds.len() ==> (#[trigger] cmds[i] matches GameloopCommand::ChangeUps(
        r,
    ) ==> r > 0)
}

impl SchedulerView {
    /// State after the commands are applied in order.
    pub open spec fn applied_all(self, cmds: Seq<GameloopCommand>) -> SchedulerView
        decreases cmds.len(),
    {
        if cmds.len() == 0 {
            self
        } else {
            self.applied_all(cmds.drop_last()).applied(cmds.last())
        }
    }

    pub open spec fn wf(self) -> bool {
        &&& 0 < self.ups <= u32::MAX
        &&& self.alpha <= OWED_LIMIT_NS * self.ups
        &&& self.updates <= u64::MAX
        &&& self.frametime <= u64::MAX
        &&& self.history.len() == 10
    }

    /// State after the mode decision and accumulation for smoothed frame time
    /// `t`; a paused scheduler only records the frame time.
    pub open spec fn advanced(self, t: int) -> SchedulerView {
        if self.paused {
            SchedulerView { frametime: t as nat, updates: 0, ..self }
        } else {
            SchedulerView {
                frametime: t as nat,
                updates: 0,
                low_framerate: above_band(t, self.ups as int),
                alpha: accumulate(self.alpha as int, t, self.ups as int, self.lockstep) as nat,
                ..self
            }
        }
    }

    /// State after a frame of `frame_ns` nanoseconds is observed: the duration
    /// joins the history and the mean of the history is decided on.
    pub open spec fn framed(self, frame_ns: u64) -> SchedulerView {
        let history = self.history.drop_first().push(frame_ns);
        SchedulerView { history, ..self }.advanced(sum_of(history) / 10)
    }

    /// Whether the catch-up loop runs another update.
    pub open spec fn update_due(self) -> bool {
        !self.paused && self.alpha > STEP
    }

    /// State after one catch-up update is taken.
    pub open spec fn stepped(self) -> SchedulerView {
        let n = next_count(self.updates as int);
        SchedulerView {
            updates: n as nat,
            alpha: catch_up_step(self.alpha as int, n, self.ups as int) as nat,
            ..self
        }
    }

    /// State after a command is applied.
    pub open spec fn applied(self, c: GameloopCommand) -> SchedulerView {
        match c {
            GameloopCommand::Pause => SchedulerView { paused: true, ..self },
            GameloopCommand::ChangeUps(r) => SchedulerView {
                alpha: (self.alpha * (r as nat)) / self.ups,
                ups: r as nat,
                ..self
            },
            _ => self,
        }
    }

    /// Interpolation factor handed to render, in picosteps.
    pub open spec fn interp(self) -> nat {
        if self.low_framerate {
            STEP as nat
        } else {
            self.alpha
        }
    }
}

/// Timing state of the gameloop: decides how many fixed updates each rendered
/// frame runs and what interpolation factor render receives.
pub struct Scheduler {
    ups: u32,
    history: FrameHistory,
    alpha: u128,
    paused: bool,
    low_framerate: bool,
    lockstep: bool,
    updates: u64,
    frametime: u64,
}

impl View for Scheduler {
    type V = SchedulerView;

    closed spec fn view(&self) -> SchedulerView {
        SchedulerView {
            ups: self.ups as nat,
            alpha: self.alpha as nat,
            paused: self.paused,
            low_framerate: self.low_framerate,
            lockstep: self.lockstep,
            updates: self.updates as nat,
            frametime: self.frametime as nat,
            history: self.history@,
        }
    }
}

impl Scheduler {
    pub closed spec fn wf(&self) -> bool {
        self@.wf() && self.history.wf()
    }

    /// A scheduler for `ups` updates per second (in millihertz), with a history
    /// seeded at sixty frames per second and an empty accumulator.
    pub fn new(ups: u32, lockstep: bool) -> (r: Scheduler)
        requires
            ups > 0,
        ensures
            r.wf(),
            r@.ups == ups,
            r@.lockstep == lockstep,
            r@.alpha == 0,
            !r@.paused,
            !r@.low_framerate,
            r@.updates == 0,
            r@.history == Seq::new(10, |j: int| crate::frame_history::SEED_FRAME_NS),
    {
        Scheduler {
            ups,
            history: FrameHistory::new(),
            alpha: 0,
            paused: false,
            low_framerate: false,
            lockstep,
            updates: 0,
            frametime: crate::frame_history::SEED_FRAME_NS,
        }
    }

    /// Records a frame of `frame_ns` nanoseconds and, unless paused, decides the
    /// mode and accumulates the progress owed.
    pub fn begin_frame(&mut self, frame_ns: u64)
        requires
            old(self).wf(),
        ensures
            final(self).wf(),
            final(self)@ == old(self)@.framed(frame_ns),
    {
        self.history.push(frame_ns);
        let t = self.history.smoothed();
        self.advance(t);
    }

    /// Decides the mode for smoothed frame time `frametime` (ns) and, unless
    /// paused, accumulates the progress owed; starts a new frame's update count.
    pub fn advance(&mut self, frametime: u64)
        requires
            old(self).wf(),
        ensures
            final(self).wf(),
            final(self)@ == old(self)@.advanced(frametime as int),
    {
        let t = frametime;
        self.frametime = t;
        self.updates = 0;
        if !self.paused {
            let (high, low) = lockstep_tolerance(t, self.ups);
            self.low_framerate = low;
            if low || high || !self.lockstep {
                let r = self.ups as u128;
                let t2 = t as u128;
                assert(t2 * r <= u64::MAX * u32::MAX) by (nonlinear_arith)
                    requires t2 <= u64::MAX, r <= u32::MAX;
                assert(OWED_LIMIT_NS * r <= u64::MAX * u32::MAX) by (nonlinear_arith)
                    requires r <= u32::MAX;
                let sum = self.alpha + t2 * r;
                let cap = OWED_LIMIT_NS * r;
                self.alpha = if sum <= cap { sum } else { cap };
            } else {
                self.alpha = 2 * STEP;
                assert(2 * STEP <= OWED_LIMIT_NS * self.ups) by (nonlinear_arith)
                    requires self.ups >= 1;
            }
        }
    }

    /// Takes the next catch-up update if one is due: returns false when the
    /// frame owes no more updates (or the scheduler is paused). On true the
    /// caller runs one update and applies its command.
    pub fn next_update(&mut self) -> (due: bool)
        requires
            old(self).wf(),
        ensures
            final(self).wf(),
            due == old(self)@.update_due(),
            final(self)@ == if due { old(self)@.stepped() } else { old(self)@ },
    {
        if self.paused || self.alpha <= STEP {
            return false;
        }
        if self.updates < u64::MAX {
            self.updates = self.updates + 1;
        }
        if self.updates as u128 * 12000 > self.ups as u128 && self.alpha > 2 * STEP {
            self.alpha = 2 * STEP;
        }
        self.alpha = self.alpha - STEP;
        true
    }

    /// Applies a command; returns true when it asks the loop to exit.
    pub fn process_command(&mut self, c: GameloopCommand) -> (exit: bool)
        requires
            old(self).wf(),
            c matches GameloopCommand::ChangeUps(r) ==> r > 0,
        ensures
            final(self).wf(),
            final(self)@ == old(self)@.applied(c),
            exit == (c == GameloopCommand::Exit),
    {
        match c {
            GameloopCommand::Pause => {
                self.paused = true;
                false
            },
            GameloopCommand::ChangeUps(new_ups) => {
                let a = self.alpha;
                let old_ups = self.ups as u128;
                let n = new_ups as u128;
                assert(a * n <= OWED_LIMIT_NS * old_ups * n) by (nonlinear_arith)
                    requires a <= OWED_LIMIT_NS * old_ups;
                assert(OWED_LIMIT_NS * old_ups * n <= OWED_LIMIT_NS * u32::MAX * u32::MAX)
                    by (nonlinear_arith)
                    requires old_ups <= u32::MAX, n <= u32::MAX;
                let scaled = a * n / old_ups;
                proof {
                    let bound = OWED_LIMIT_NS * n;
                    assert(a * n <= bound * old_ups) by (nonlinear_arith)
                        requires a <= OWED_LIMIT_NS * old_ups, bound == OWED_LIMIT_NS * n;
                    lemma_div_is_ordered(a * n, bound * old_ups, old_ups as int);
                    lemma_div_by_multiple(bound as int, old_ups as int);
                }
                self.alpha = scaled;
                self.ups = new_ups;
                false
            },
            GameloopCommand::Exit => true,
            GameloopCommand::Continue => false,
        }
    }

    /// Applies the commands of one batch of events, in order, all of them even
    /// after one asks to exit; returns true when any of them asked to exit.
    pub fn process_batch(&mut self, cmds: &Vec<GameloopCommand>) -> (exit: bool)
        requires
            old(self).wf(),
            rates_positive(cmds@),
        ensures
            final(self).wf(),
            final(self)@ == old(self)@.applied_all(cmds@),
            exit == exists|i: int| 0 <= i < cmds@.len() && cmds@[i] == GameloopCommand::Exit,
    {
        let mut exit = false;
        let mut i: usize = 0;
        while i < cmds.len()
            invariant
                self.wf(),
                i <= cmds@.len(),
                rates_positive(cmds@),
                self@ == old(self)@.applied_all(cmds@.subrange(0, i as int)),
                exit == exists|j: int| 0 <= j < i && cmds@[j] == GameloopCommand::Exit,
            decreases cmds@.len() - i,
        {
            let c = cmds[i];
            assert(cmds@.subrange(0, i + 1).drop_last() =~= cmds@.subrange(0, i as int));
            assert(cmds@[i as int] matches GameloopCommand::ChangeUps(r) ==> r > 0);
            if self.process_command(c) {
                exit = true;
            }
            i = i + 1;
        }
        assert(cmds@.subrange(0, cmds@.len() as int) =~= cmds@);
        exit
    }

    /// Interpolation factor for render, in picosteps: one whole step when the
    /// frame rate is below the target, else the accumulator.
    pub fn interp(&self) -> (r: u128)
        requires
            self.wf(),
        ensures
            r == self@.interp(),
    {
        if self.low_framerate {
            STEP
        } else {
            self.alpha
        }
    }

    /// Smoothed frame time in nanoseconds; render's frame rate is its inverse.
    pub fn frametime(&self) -> (r: u64)
        requires
            self.wf(),
        ensures
            r == self@.frametime,
    {
        self.frametime
    }

    /// Accumulated progress in picosteps.
    pub fn accumulator(&self) -> (r: u128)
        requires
            self.wf(),
        ensures
            r == self@.alpha,
    {
        self.alpha
    }

    /// Whether the last decided frame time was slower than the lockstep band.
    pub fn low_framerate(&self) -> (r: bool)
        requires
            self.wf(),
        ensures
            r == self@.low_framerate,
    {
        self.low_framerate
    }

    pub fn ups(&self) -> (r: u32)
        requires
            self.wf(),
        ensures
            r == self@.ups,
    {
        self.ups
    }

    pub fn paused(&self) -> (r: bool)
        requires
            self.wf(),
        ensures
            r == self@.paused,
    {
        self.paused
    }

    pub fn updates(&self) -> (r: u64)
        requires
            self.wf(),
        ensures
            r == self@.updates,
    {
        self.updates
    }
}

} // verus!
