use gamekit::application::{
    Decision, FrameRate, FrameStep, Pace, Pacer, Scheduler, MAX_SLEEP_TIME, MIN_CYCLE_TIME,
};
use gamekit::commands::Command;
use gamekit::graphics::Graphics;
use gamekit::run_flag::RunFlag;

/// Runs the pacer on a clock that only the sleeps advance and counts the
/// frames granted up to `end`.
fn frames_on_ideal_clock(frame_rate: i32, end: i64) -> u64 {
    let mut pacer = Pacer::new(frame_rate);
    let mut now: i64 = 0;
    let mut frames: u64 = 0;
    while now <= end {
        match pacer.poll(now) {
            Pace::Render => frames += 1,
            Pace::Sleep(micros) => {
                assert!(micros >= 1 && micros <= MAX_SLEEP_TIME);
                now += micros;
            }
        }
    }
    frames
}

#[test]
fn first_frame_is_due_at_once() {
    let mut pacer = Pacer::new(50);
    assert_eq!(pacer.get_cycle_time(), 20_000);
    assert_eq!(pacer.poll(0), Pace::Render);
    assert_eq!(pacer.get_next_cycle(), 20_000);
}

#[test]
fn cycle_time_is_a_million_over_the_rate() {
    assert_eq!(Pacer::new(1).get_cycle_time(), 1_000_000);
    assert_eq!(Pacer::new(3).get_cycle_time(), 333_333);
    assert_eq!(Pacer::new(60).get_cycle_time(), 16_666);
    assert_eq!(Pacer::new(120).get_cycle_time(), 8_333);
    assert_eq!(Pacer::new(2_000_000).get_cycle_time(), 0);
}

#[test]
fn sleep_is_capped_and_never_oversleeps() {
    let mut pacer = Pacer::new(50);
    assert_eq!(pacer.poll(0), Pace::Render);
    assert_eq!(pacer.poll(1), Pace::Sleep(5_000));
    assert_eq!(pacer.poll(15_000), Pace::Sleep(5_000));
    assert_eq!(pacer.poll(15_001), Pace::Sleep(4_999));
    assert_eq!(pacer.poll(19_999), Pace::Sleep(1));
    assert_eq!(pacer.get_next_cycle(), 20_000);
    assert_eq!(pacer.poll(20_000), Pace::Render);
    assert_eq!(pacer.get_next_cycle(), 40_000);
}

#[test]
fn catch_up_is_clamped_after_a_stall() {
    let mut pacer = Pacer::new(50);
    assert_eq!(pacer.poll(0), Pace::Render);
    // a stall of three seconds
    assert_eq!(pacer.poll(3_000_000), Pace::Render);
    assert_eq!(pacer.get_next_cycle(), 3_000_000 + MIN_CYCLE_TIME);
    // no burst of queued frames follows
    assert_eq!(pacer.poll(3_000_001), Pace::Sleep(5_000));
}

#[test]
fn a_frame_slightly_late_keeps_the_cadence() {
    let mut pacer = Pacer::new(50);
    assert_eq!(pacer.poll(0), Pace::Render);
    assert_eq!(pacer.poll(25_000), Pace::Render);
    // 20_000 + 20_000 is still 15_000 ahead of now
    assert_eq!(pacer.get_next_cycle(), 40_000);
}

#[test]
fn frame_count_over_whole_seconds() {
    assert_eq!(frames_on_ideal_clock(50, 3_000_000), 50 * 3 + 1);
    assert_eq!(frames_on_ideal_clock(100, 2_000_000), 100 * 2 + 1);
    assert_eq!(frames_on_ideal_clock(1, 10_000_000), 11);
    assert_eq!(frames_on_ideal_clock(25, 1_000_000), 26);
}

#[test]
fn frame_count_at_a_rate_that_does_not_divide_a_million() {
    // cycle time 16_666: 60 full cycles end at 999_960
    assert_eq!(frames_on_ideal_clock(60, 1_000_000), 1_000_000 / 16_666 + 1);
    assert_eq!(frames_on_ideal_clock(60, 1_000_000), 61);
}

#[test]
fn rates_above_a_hundred_run_at_the_minimum_cycle() {
    assert_eq!(frames_on_ideal_clock(120, 1_000_000), 101);
    assert_eq!(frames_on_ideal_clock(1_000, 1_000_000), 101);
}

#[test]
fn scheduler_starts_stopped_and_at_zero() {
    let scheduler = Scheduler::new(120);
    assert!(!scheduler.is_running());
    assert_eq!(scheduler.time_micros(), 0);
    assert_eq!(scheduler.delta_micros(), 0);
    assert_eq!(scheduler.frame_counter(), 0);
    assert_eq!(scheduler.delta_frames(), 0);
    assert_eq!(scheduler.next_cycle(), 0);
    assert_eq!(scheduler.average(), FrameRate { frames: 0, micros: 0 });
}

#[test]
fn pace_exits_when_not_running_or_events_fail() {
    let mut scheduler = Scheduler::new(120);
    assert_eq!(scheduler.pace(true, 0), Decision::Exit);
    scheduler.set_running(true);
    assert_eq!(scheduler.pace(false, 0), Decision::Exit);
    assert_eq!(scheduler.next_cycle(), 0);
    assert_eq!(scheduler.pace(true, 0), Decision::Frame);
    assert_eq!(scheduler.next_cycle(), 10_000);
    assert_eq!(scheduler.pace(true, 2_000), Decision::Sleep(5_000));
    assert_eq!(scheduler.pace(true, 9_000), Decision::Sleep(1_000));
    scheduler.set_running(false);
    assert_eq!(scheduler.pace(true, 10_000), Decision::Exit);
}

#[test]
fn update_schedule_tracks_time_and_delta() {
    let mut scheduler = Scheduler::new(60);
    scheduler.update_schedule(16_000);
    assert_eq!(scheduler.time_micros(), 16_000);
    assert_eq!(scheduler.delta_micros(), 16_000);
    scheduler.update_schedule(33_500);
    assert_eq!(scheduler.time_micros(), 33_500);
    assert_eq!(scheduler.delta_micros(), 17_500);
    // a clock reading that is not later gives no negative delta
    scheduler.update_schedule(33_000);
    assert_eq!(scheduler.delta_micros(), 0);
}

#[test]
fn statistics_close_after_five_seconds() {
    let mut scheduler = Scheduler::new(60);
    for _ in 0..300 {
        scheduler.count_frame();
    }
    scheduler.update_schedule(4_999_999);
    assert_eq!(scheduler.delta_frames(), 300);
    assert_eq!(scheduler.average(), FrameRate { frames: 0, micros: 0 });
    scheduler.update_schedule(5_000_000);
    assert_eq!(scheduler.delta_frames(), 0);
    assert_eq!(scheduler.frame_counter(), 300);
    assert_eq!(scheduler.average(), FrameRate { frames: 300, micros: 5_000_000 });
    assert_eq!(scheduler.average().frames_per_second(), 60);
    // the next window starts at the snapshot
    scheduler.count_frame();
    scheduler.update_schedule(9_999_999);
    assert_eq!(scheduler.delta_frames(), 1);
    scheduler.update_schedule(10_000_000);
    assert_eq!(scheduler.average(), FrameRate { frames: 1, micros: 5_000_000 });
    assert_eq!(scheduler.average().frames_per_second(), 0);
}

#[test]
fn frame_rate_of_an_empty_window_is_zero() {
    assert_eq!(FrameRate { frames: 10, micros: 0 }.frames_per_second(), 0);
    assert_eq!(FrameRate { frames: 7, micros: 2_000_000 }.frames_per_second(), 3);
    assert_eq!(
        FrameRate { frames: u64::MAX, micros: 1 }.frames_per_second(),
        u64::MAX as u128 * 1_000_000
    );
}

#[test]
fn frame_steps_in_order() {
    assert_eq!(
        Scheduler::frame_steps(true, false),
        vec![
            FrameStep::UpdateLayout,
            FrameStep::PublishMetrics,
            FrameStep::UpdateState,
            FrameStep::BeginDraw,
            FrameStep::UpdateGraphics,
            FrameStep::CountFrame,
            FrameStep::EndDraw,
        ]
    );
    assert_eq!(
        Scheduler::frame_steps(false, false),
        vec![
            FrameStep::PublishMetrics,
            FrameStep::UpdateState,
            FrameStep::BeginDraw,
            FrameStep::UpdateGraphics,
            FrameStep::CountFrame,
            FrameStep::EndDraw,
        ]
    );
}

#[test]
fn minimized_window_is_simulated_but_not_drawn() {
    assert_eq!(
        Scheduler::frame_steps(false, true),
        vec![FrameStep::PublishMetrics, FrameStep::UpdateState]
    );
    assert_eq!(
        Scheduler::frame_steps(true, true),
        vec![FrameStep::UpdateLayout, FrameStep::PublishMetrics, FrameStep::UpdateState]
    );
}

#[test]
fn teardown_is_due_once() {
    let mut scheduler = Scheduler::new(30);
    scheduler.set_running(true);
    assert!(scheduler.stop());
    assert!(!scheduler.is_running());
    assert!(!scheduler.stop());
    assert!(!scheduler.stop());
    assert!(!scheduler.is_running());
}

#[test]
fn publish_hands_the_frame_to_the_metrics() {
    let mut queue: Vec<Command> = Vec::new();
    let mut graphics = Graphics::new(&mut queue, 800, 600);
    let mut scheduler = Scheduler::new(60);
    scheduler.count_frame();
    scheduler.count_frame();
    scheduler.update_schedule(1_000);
    scheduler.update_schedule(17_000);
    scheduler.publish(&mut graphics);
    let metrics = graphics.get_metrics();
    assert_eq!(metrics.width, 800);
    assert_eq!(metrics.height, 600);
    assert_eq!(metrics.time_micros, 17_000);
    assert_eq!(metrics.delta_micros, 16_000);
    assert_eq!(metrics.frame_counter, 2);
}

#[test]
fn run_flag_is_handed_to_the_scheduler() {
    let flag = RunFlag::new();
    assert!(!flag.is_running());
    let mut scheduler = Scheduler::new(60);
    scheduler.set_running(true);
    assert!(!scheduler.observe(&flag));
    assert!(!scheduler.is_running());
    flag.set_running(true);
    assert!(flag.is_running());
    assert!(scheduler.observe(&flag));
    assert_eq!(scheduler.pace(true, 0), Decision::Frame);
    // a stop asked for from elsewhere ends the loop at the next check
    flag.set_running(false);
    assert!(!scheduler.observe(&flag));
    assert_eq!(scheduler.pace(true, 20_000), Decision::Exit);
}
