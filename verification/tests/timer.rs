use bowl::window::fps_timer::FPSTimer;
use bowl::window::{FrameDecision, RunLoop};

#[test]
fn first_frame_reports_zero_delta() {
    let mut timer = FPSTimer::new(None);
    let t = timer.frame(123_456);
    assert_eq!(t.dtime, 0);
    assert_eq!(t.sleep_micros, 0);
}

#[test]
fn first_frame_reports_zero_even_when_capped() {
    let mut timer = FPSTimer::new(Some(60));
    let t = timer.frame(5_000_000);
    assert_eq!(t.dtime, 0);
    assert_eq!(t.sleep_micros, 0);
}

#[test]
fn max_fps_turns_into_a_microsecond_budget() {
    let mut timer = FPSTimer::new(Some(100));
    timer.frame(0);
    // A frame that took no time at all sleeps one whole budget.
    let t = timer.frame(0);
    assert_eq!(t.dtime, 10_000);
    assert_eq!(t.sleep_micros, 10_000);
}

#[test]
fn fast_frame_is_padded_to_the_budget() {
    let mut timer = FPSTimer::new(Some(100)); // budget: 10_000 micros
    timer.frame(50_000);
    let t = timer.frame(54_000); // finished 6_000 early
    assert_eq!(t.sleep_micros, 6_000);
    assert_eq!(t.dtime, 10_000);
    assert!(t.dtime >= 10_000);
}

#[test]
fn slow_frame_sleeps_nothing_and_reports_measured_time() {
    let mut timer = FPSTimer::new(Some(100));
    timer.frame(50_000);
    let t = timer.frame(75_000); // took 25_000, over the 10_000 budget
    assert_eq!(t.sleep_micros, 0);
    assert_eq!(t.dtime, 25_000);
}

#[test]
fn baseline_moves_to_the_post_sleep_instant() {
    let mut timer = FPSTimer::new(Some(100));
    timer.frame(50_000);
    let padded = timer.frame(54_000); // slept until 60_000
    assert_eq!(padded.sleep_micros, 6_000);
    let next = timer.frame(70_000); // measured from 60_000
    assert_eq!(next.dtime, 10_000);
    assert_eq!(next.sleep_micros, 0);
}

#[test]
fn uncapped_timer_reports_measured_time_directly() {
    let mut timer = FPSTimer::new(None);
    timer.frame(1_000);
    let t = timer.frame(1_234);
    assert_eq!(t.dtime, 234);
    assert_eq!(t.sleep_micros, 0);
}

#[test]
fn loop_stops_only_on_the_close_flag() {
    let mut run_loop = RunLoop::new(Some(100));
    assert_eq!(run_loop.begin_frame(true, 1_000), FrameDecision::Stop);
    // The close flag is the only stop condition; without it the loop runs.
    match run_loop.begin_frame(false, 1_000) {
        FrameDecision::Run { timing } => {
            assert_eq!(timing.dtime, 0);
            assert_eq!(timing.sleep_micros, 0);
        }
        FrameDecision::Stop => panic!("the loop stopped without a close request"),
    }
}

#[test]
fn loop_makes_one_sleep_decision_per_frame() {
    let mut run_loop = RunLoop::new(Some(100)); // budget: 10_000 micros
    run_loop.begin_frame(false, 50_000);
    match run_loop.begin_frame(false, 54_000) {
        FrameDecision::Run { timing } => {
            assert_eq!(timing.sleep_micros, 6_000);
            assert_eq!(timing.dtime, 10_000);
        }
        FrameDecision::Stop => panic!("the loop stopped without a close request"),
    }
}
