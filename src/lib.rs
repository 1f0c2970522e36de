//! Frame-rate-adaptive update scheduling for a fixed-step game loop: how many
//! logical updates each rendered frame runs, what interpolation factor render
//! receives, and how the loop degrades under slow frames.
//!
//! Time is in nanoseconds, rates in millihertz and the accumulator in
//! picosteps (a trillionth of one update step).

use vstd::prelude::*;

mod frame_history;
pub mod laws;
mod scheduler;

pub use frame_history::{sum_of, FrameHistory, SEED_FRAME_NS};
pub use scheduler::{
    above_band, accumulate, below_band, catch_up_count, catch_up_rest, catch_up_step,
    lockstep_tolerance, next_count, rates_positive, GameloopCommand, Scheduler, SchedulerView,
    OWED_LIMIT_NS, PICOS_PER_SECOND, STEP,
};

verus! {

} // verus!
