use brul::frame::{FramePacer, RenderClock, FRAME_DURATION_NANOS, MIN_RENDER_INTERVAL_NANOS};

#[test]
fn frame_is_a_sixtieth_of_a_second() {
    assert_eq!(FRAME_DURATION_NANOS, 16_666_667);
    assert_eq!(MIN_RENDER_INTERVAL_NANOS, 16_000_000);
}

#[test]
fn no_redraw_before_the_deadline() {
    let mut pacer = FramePacer::new(1_000);
    assert!(!pacer.about_to_wait(999));
    assert_eq!(pacer.next_frame_time(), 1_000);
}

#[test]
fn redraw_at_the_deadline_moves_it_one_frame() {
    let mut pacer = FramePacer::new(1_000);
    assert!(pacer.about_to_wait(1_000));
    assert_eq!(pacer.next_frame_time(), 1_000 + 16_666_667);
    assert!(!pacer.about_to_wait(1_000 + 16_666_666));
    assert!(pacer.about_to_wait(1_000 + 16_666_667));
    assert_eq!(pacer.next_frame_time(), 1_000 + 2 * 16_666_667);
}

#[test]
fn late_redraw_skips_whole_frames() {
    let mut pacer = FramePacer::new(0);
    assert!(pacer.about_to_wait(50_000_000));
    assert_eq!(pacer.next_frame_time(), 50_000_001);
    assert!(pacer.about_to_wait(50_000_001 + 3 * 16_666_667 - 1));
    assert_eq!(pacer.next_frame_time(), 50_000_001 + 3 * 16_666_667);
}

#[test]
fn pacer_can_wait_up_to_one_frame_before_the_end_of_time() {
    assert!(FramePacer::can_wait_at(0));
    assert!(FramePacer::can_wait_at(u64::MAX - FRAME_DURATION_NANOS));
    assert!(!FramePacer::can_wait_at(u64::MAX - FRAME_DURATION_NANOS + 1));
    let mut pacer = FramePacer::new(u64::MAX - FRAME_DURATION_NANOS - 5);
    assert!(pacer.about_to_wait(u64::MAX - FRAME_DURATION_NANOS));
    assert_eq!(pacer.next_frame_time(), u64::MAX - 5);
}

#[test]
fn first_tick_renders_when_the_renderer_is_ready() {
    let mut clock = RenderClock::new();
    assert_eq!(clock.tick(500, false), None);
    assert_eq!(clock.tick(700, true), Some(200));
}

#[test]
fn renders_are_at_least_the_minimum_interval_apart() {
    let mut clock = RenderClock::new();
    assert_eq!(clock.tick(1_000, true), Some(0));
    assert_eq!(clock.tick(1_000 + 15_999_999, true), None);
    assert_eq!(clock.tick(1_000 + 16_000_000, true), Some(16_000_000));
    assert_eq!(clock.tick(1_000 + 16_000_000 + 15_999_999, true), None);
    assert_eq!(clock.tick(1_000 + 40_000_000, false), None);
    assert_eq!(clock.tick(1_000 + 40_000_000, true), Some(40_000_000));
}

#[test]
fn a_clock_that_runs_backwards_counts_as_no_time() {
    let mut clock = RenderClock::new();
    assert_eq!(clock.tick(1_000_000_000, true), Some(0));
    assert_eq!(clock.tick(5, true), None);
    assert_eq!(clock.tick(1_016_000_000, true), Some(16_000_000));
}
