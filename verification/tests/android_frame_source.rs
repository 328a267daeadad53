use gpui_mobile_core::android::frame_source::{
    install, on_vsync, poll_timeout, resume, schedule_frame, take_frame, take_post_request,
    vsync_thread_ready, wake, FrameSource,
};
use gpui_mobile_core::frame_pacer::FramePacer;
use gpui_mobile_core::time::{Duration, Instant};

const LOOP: u8 = 1;
const VSYNC: u8 = 2;

fn start() -> Instant {
    Instant { nanos: 9_000_000_000 }
}

fn millis(at: Instant, millis: u64) -> Instant {
    at.after(Duration::from_millis(millis))
}

/// A source whose loop has just drawn a frame at `now`.
fn source_after_frame(now: Instant) -> (FrameSource<u8>, Option<FramePacer>) {
    let mut source = FrameSource::new();
    let mut slot = None;
    assert!(vsync_thread_ready(&mut source, Some(VSYNC), true));
    install(&mut source, &mut slot, Some(LOOP), true);
    assert_eq!(schedule_frame(&mut source, &mut slot, now), None);
    assert_eq!(take_frame(&mut source, &mut slot, now), (true, None));
    (source, slot)
}

#[test]
fn demand_asks_the_vsync_thread_once() {
    let now = start();
    let (mut source, mut slot) = source_after_frame(now);
    let now = millis(now, 1);

    assert_eq!(schedule_frame(&mut source, &mut slot, now), Some(VSYNC));
    assert_eq!(schedule_frame(&mut source, &mut slot, now), None);
    assert!(take_post_request(&mut source));
    assert!(!take_post_request(&mut source));
    assert_eq!(take_frame(&mut source, &mut slot, now), (false, None));

    assert_eq!(on_vsync(&mut source), Some(LOOP));
    assert_eq!(take_frame(&mut source, &mut slot, now), (true, None));
    assert_eq!(take_frame(&mut source, &mut slot, now), (false, None));
}

#[test]
fn demand_from_another_thread_reaches_the_loop() {
    let now = start();
    let (mut source, mut slot) = source_after_frame(now);
    let mut no_slot = None;

    assert_eq!(schedule_frame(&mut source, &mut no_slot, now), Some(LOOP));
    assert!(no_slot.is_none());
    assert_eq!(take_frame(&mut source, &mut no_slot, now), (false, Some(LOOP)));

    // The loop posts for it, then draws it.
    assert_eq!(take_frame(&mut source, &mut slot, millis(now, 1)), (false, Some(VSYNC)));
    assert!(take_post_request(&mut source));
    assert_eq!(on_vsync(&mut source), Some(LOOP));
    assert_eq!(take_frame(&mut source, &mut slot, millis(now, 16)), (true, None));
}

#[test]
fn resume_posts_again() {
    let now = start();
    let (mut source, mut slot) = source_after_frame(now);
    let now = millis(now, 1);
    assert_eq!(schedule_frame(&mut source, &mut slot, now), Some(VSYNC));
    assert!(take_post_request(&mut source));
    assert_eq!(resume(&mut source, &mut slot, now), Some(VSYNC));
    assert!(take_post_request(&mut source));
    assert_eq!(resume(&mut source, &mut None, now), Some(LOOP));
}

#[test]
fn a_pacer_that_is_installed_stays() {
    let now = start();
    let (mut source, mut slot) = source_after_frame(now);
    install(&mut source, &mut slot, Some(3), false);
    assert_eq!(wake(&source), Some(3));
    // Still paced by vsync: demand within the interval posts.
    assert_eq!(schedule_frame(&mut source, &mut slot, millis(now, 1)), Some(VSYNC));
}

#[test]
fn without_a_choreographer_the_clock_paces() {
    let mut source: FrameSource<u8> = FrameSource::new();
    let mut slot = None;
    assert_eq!(wake(&source), None);
    assert!(!vsync_thread_ready(&mut source, Some(VSYNC), false));
    install(&mut source, &mut slot, Some(LOOP), false);
    let now = start();
    assert_eq!(schedule_frame(&mut source, &mut slot, now), None);
    assert_eq!(take_frame(&mut source, &mut slot, now), (true, None));
    assert_eq!(schedule_frame(&mut source, &mut slot, now), None);
    assert!(!take_post_request(&mut source));

    // 16.667 ms, rounded up.
    assert_eq!(
        poll_timeout(&mut source, &mut slot, now, None, true),
        Duration::from_millis(17)
    );
    let due = Instant { nanos: now.nanos + 16_667_000 };
    assert_eq!(
        poll_timeout(&mut source, &mut slot, due, None, true),
        Duration::from_millis(0)
    );
    assert_eq!(take_frame(&mut source, &mut slot, Instant { nanos: due.nanos - 1 }), (false, None));
    assert_eq!(take_frame(&mut source, &mut slot, due), (true, None));
}

#[test]
fn the_loop_blocks_for_at_most_a_second() {
    let mut source: FrameSource<u8> = FrameSource::new();
    let mut slot = None;
    let now = start();
    let second = Duration::from_secs(1);
    assert_eq!(poll_timeout(&mut source, &mut slot, now, None, true), second);
    let task = Some(now.after(Duration::from_secs(5)));
    assert_eq!(poll_timeout(&mut source, &mut slot, now, task, true), second);
    let task = Some(millis(now, 250));
    assert_eq!(
        poll_timeout(&mut source, &mut slot, now, task, false),
        Duration::from_millis(250)
    );
    let overdue = Some(Instant { nanos: 0 });
    assert_eq!(
        poll_timeout(&mut source, &mut slot, now, overdue, false),
        Duration::from_millis(0)
    );
}

#[test]
fn a_remainder_is_rounded_up() {
    let mut source: FrameSource<u8> = FrameSource::new();
    let mut slot = None;
    let now = start();
    for (nanos, expected) in [
        (0, 0),
        (1, 1),
        (500, 1),
        (999, 1),
        (1_000, 1),
        (999_999, 1),
        (1_000_000, 1),
        (1_000_001, 2),
        (1_000_500, 2),
        (1_000_999, 2),
        (1_001_000, 2),
        (16_667_000, 17),
    ] {
        let task = Some(Instant { nanos: now.nanos + nanos });
        assert_eq!(
            poll_timeout(&mut source, &mut slot, now, task, false),
            Duration::from_millis(expected),
            "{nanos}"
        );
    }
}

#[test]
fn an_inactive_window_owes_its_frame_but_sleeps() {
    let now = start();
    let (mut source, mut slot) = source_after_frame(now);
    let now = millis(now, 1);
    assert_eq!(schedule_frame(&mut source, &mut slot, now), Some(VSYNC));
    assert_eq!(on_vsync(&mut source), Some(LOOP));
    assert_eq!(
        poll_timeout(&mut source, &mut slot, now, None, false),
        Duration::from_secs(1)
    );
    assert_eq!(
        poll_timeout(&mut source, &mut slot, now, None, true),
        Duration::from_millis(0)
    );
    assert_eq!(take_frame(&mut source, &mut slot, now), (true, None));
}

#[test]
fn an_idle_loop_takes_no_frame() {
    let now = start();
    let (mut source, mut slot) = source_after_frame(now);
    for round in 0..100 {
        let now = millis(now, 20 * round);
        assert_eq!(take_frame(&mut source, &mut slot, now), (false, None));
    }
    assert!(!take_post_request(&mut source));
}
