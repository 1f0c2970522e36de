use game_util::{lockstep_tolerance, FrameHistory, GameloopCommand, Scheduler};

const STEP: u128 = 1_000_000_000_000;

/// Runs the catch-up loop of the current frame with every update continuing.
fn run_updates(s: &mut Scheduler) -> u64 {
    let mut n: u64 = 0;
    while s.next_update() {
        n += 1;
        assert!(!s.process_command(GameloopCommand::Continue));
    }
    n
}

#[test]
fn fixed_step_catch_up_scenario() {
    // 60 Hz, lockstep off, frames of 1/60, 1/60 and 2/60 s to the nearest ns.
    let mut s = Scheduler::new(60_000, false);
    let mut counts = Vec::new();
    for t in [16_666_667u64, 16_666_667, 33_333_333] {
        s.advance(t);
        counts.push(run_updates(&mut s));
    }
    assert_eq!(counts, vec![1, 1, 2]);
    assert_eq!(s.accumulator(), 20_000);
}

#[test]
fn exit_mid_batch_still_applies_rest() {
    let mut s = Scheduler::new(60_000, true);
    let batch = vec![GameloopCommand::Continue, GameloopCommand::Exit, GameloopCommand::Pause];
    assert!(s.process_batch(&batch));
    assert!(s.paused());
}

#[test]
fn batch_without_exit_continues() {
    let mut s = Scheduler::new(60_000, true);
    let batch = vec![GameloopCommand::Continue, GameloopCommand::ChangeUps(30_000)];
    assert!(!s.process_batch(&batch));
    assert_eq!(s.ups(), 30_000);
    assert!(!s.process_batch(&Vec::new()));
}

#[test]
fn lockstep_runs_one_update_per_period_frame() {
    let mut s = Scheduler::new(50_000, true);
    for _ in 0..10 {
        s.begin_frame(20_000_000);
        run_updates(&mut s);
    }
    for _ in 0..20 {
        s.begin_frame(20_000_000);
        assert_eq!(s.frametime(), 20_000_000);
        assert_eq!(run_updates(&mut s), 1);
        assert_eq!(s.accumulator(), STEP);
        assert!(!s.low_framerate());
    }
}

#[test]
fn whole_periods_run_that_many_updates() {
    let mut s = Scheduler::new(50_000, false);
    s.advance(10_000_000);
    assert_eq!(run_updates(&mut s), 0);
    assert_eq!(s.accumulator(), STEP / 2);
    s.advance(60_000_000);
    assert_eq!(run_updates(&mut s), 3);
    assert_eq!(s.accumulator(), STEP / 2);
}

#[test]
fn fresh_start_owes_one_update_less() {
    let mut s = Scheduler::new(50_000, false);
    s.advance(60_000_000);
    assert_eq!(run_updates(&mut s), 2);
    assert_eq!(s.accumulator(), STEP);
}

#[test]
fn catch_up_is_capped() {
    // 120 Hz: at most 120 / 12 + 1 updates in one frame.
    let mut s = Scheduler::new(120_000, false);
    s.advance(10_000_000_000);
    assert_eq!(run_updates(&mut s), 11);
    assert!(s.accumulator() <= STEP);
    assert_eq!(s.updates(), 11);
}

#[test]
fn catch_up_cap_with_huge_frame() {
    let mut s = Scheduler::new(60_000, false);
    s.advance(u64::MAX);
    assert!(run_updates(&mut s) <= 6);
}

#[test]
fn rate_change_rescales_interp() {
    let mut s = Scheduler::new(50_000, false);
    s.advance(10_000_000);
    assert_eq!(s.interp(), STEP / 2);
    assert!(!s.process_command(GameloopCommand::ChangeUps(100_000)));
    assert_eq!(s.ups(), 100_000);
    assert_eq!(s.interp(), STEP);
    assert!(!s.process_command(GameloopCommand::ChangeUps(25_000)));
    assert_eq!(s.interp(), STEP / 4);
}

#[test]
fn paused_runs_no_update_and_keeps_accumulator() {
    let mut s = Scheduler::new(50_000, false);
    s.advance(30_000_000);
    assert!(!s.process_command(GameloopCommand::Pause));
    assert!(s.paused());
    let acc = s.accumulator();
    assert_eq!(acc, 3 * STEP / 2);
    let interp = s.interp();
    for t in [20_000_000u64, 100_000_000, 1_000_000_000] {
        s.begin_frame(t);
        assert!(!s.next_update());
        assert_eq!(s.accumulator(), acc);
        assert_eq!(s.interp(), interp);
    }
}

#[test]
fn degraded_render_gets_one_step() {
    let mut s = Scheduler::new(60_000, false);
    s.advance(105_000_000);
    assert!(s.low_framerate());
    run_updates(&mut s);
    assert_ne!(s.accumulator(), STEP);
    assert_eq!(s.interp(), STEP);
}

#[test]
fn exit_command_signals_exit() {
    let mut s = Scheduler::new(60_000, true);
    assert!(s.process_command(GameloopCommand::Exit));
    assert!(!s.process_command(GameloopCommand::Continue));
    assert!(!s.paused());
    assert_eq!(s.ups(), 60_000);
}

#[test]
fn tolerance_band_at_sixty_hertz() {
    assert_eq!(lockstep_tolerance(16_666_667, 60_000), (false, false));
    assert_eq!(lockstep_tolerance(15_000_000, 60_000), (true, false));
    assert_eq!(lockstep_tolerance(18_000_000, 60_000), (false, true));
    // 1/62 s is the lower bound here (tighter than 1/60 - 1 ms).
    assert_eq!(lockstep_tolerance(16_129_032, 60_000), (true, false));
    assert_eq!(lockstep_tolerance(16_129_033, 60_000), (false, false));
}

#[test]
fn tolerance_band_at_low_rates() {
    // Below 2 Hz the relative upper bound is negative: always slower.
    assert_eq!(lockstep_tolerance(1_000_000_000, 1_000), (false, true));
    // At 2 Hz only the one-millisecond window bounds it from above.
    assert_eq!(lockstep_tolerance(500_000_000, 2_000), (false, false));
    assert_eq!(lockstep_tolerance(501_000_001, 2_000), (false, true));
}

#[test]
fn frame_history_smooths_over_ten_frames() {
    let mut h = FrameHistory::new();
    assert_eq!(h.smoothed(), 16_666_666);
    h.push(26_666_666);
    assert_eq!(h.smoothed(), 17_666_666);
    for _ in 0..10 {
        h.push(20_000_000);
    }
    assert_eq!(h.smoothed(), 20_000_000);
    h.push(5);
    assert_eq!(h.smoothed(), 18_000_000);
}

#[test]
fn lockstep_forces_one_update_from_any_accumulator() {
    let mut s = Scheduler::new(60_000, true);
    s.advance(16_666_667);
    assert_eq!(run_updates(&mut s), 1);
    assert_eq!(s.accumulator(), STEP);
    assert_eq!(s.interp(), STEP);
}
