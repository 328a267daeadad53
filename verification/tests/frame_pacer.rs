use gpui_mobile_core::frame_pacer::FramePacer;
use gpui_mobile_core::time::{Duration, Instant};

fn interval() -> Duration {
    Duration::from_millis(16)
}

fn zero() -> Duration {
    Duration::from_millis(0)
}

fn start() -> Instant {
    Instant { nanos: 5_000_000_000 }
}

fn millis(at: Instant, millis: u64) -> Instant {
    at.after(Duration::from_millis(millis))
}

/// Raises demand, counting the callbacks it posts.
fn schedule(pacer: &mut FramePacer, posts: &mut u32, now: Instant) {
    if pacer.schedule(now) {
        *posts += 1;
    }
}

/// A vsync pacer that has just drawn a frame at `now`, so the next demand is
/// inside the interval and waits for a vsync.
fn vsync_pacer_after_frame(now: Instant) -> (FramePacer, u32) {
    let mut posts = 0;
    let mut pacer = FramePacer::with_vsync(interval());
    schedule(&mut pacer, &mut posts, now);
    assert!(pacer.take_frame(now), "the first frame is served at once");
    (pacer, posts)
}

#[test]
fn first_frame_does_not_wait_for_a_vsync() {
    let mut posts = 0;
    let mut pacer = FramePacer::with_vsync(interval());
    let now = start();

    schedule(&mut pacer, &mut posts, now);

    assert_eq!(posts, 0);
    assert_eq!(pacer.poll_timeout(now), Some(zero()));
    assert!(pacer.take_frame(now));
}

#[test]
fn demand_posts_one_callback_until_it_fires() {
    let now = start();
    let (mut pacer, mut posts) = vsync_pacer_after_frame(now);
    let now = millis(now, 1);

    schedule(&mut pacer, &mut posts, now);
    schedule(&mut pacer, &mut posts, now);
    schedule(&mut pacer, &mut posts, now);

    assert_eq!(posts, 1);
    assert!(pacer.has_demand());
    assert!(!pacer.take_frame(now), "nothing is due before the vsync");
    assert_eq!(
        pacer.poll_timeout(now),
        None,
        "the looper delivers the vsync"
    );
}

#[test]
fn vsync_makes_one_frame_due_and_the_next_demand_posts_again() {
    let now = start();
    let (mut pacer, mut posts) = vsync_pacer_after_frame(now);
    let now = millis(now, 1);

    schedule(&mut pacer, &mut posts, now);
    pacer.on_vsync();
    assert_eq!(pacer.poll_timeout(now), Some(zero()));
    assert!(pacer.take_frame(now));
    assert!(!pacer.take_frame(now), "a vsync owes exactly one frame");
    assert!(!pacer.has_demand());

    schedule(&mut pacer, &mut posts, millis(now, 1));
    assert_eq!(posts, 2);
}

#[test]
fn demand_while_a_frame_is_due_does_not_post() {
    let now = start();
    let (mut pacer, mut posts) = vsync_pacer_after_frame(now);
    let now = millis(now, 1);

    schedule(&mut pacer, &mut posts, now);
    pacer.on_vsync();
    schedule(&mut pacer, &mut posts, now);

    assert_eq!(posts, 1);
    assert!(pacer.take_frame(now));
    assert!(!pacer.take_frame(now));
}

#[test]
fn a_frame_that_overran_the_interval_is_served_at_once() {
    let now = start();
    let (mut pacer, mut posts) = vsync_pacer_after_frame(now);

    // The frame taken at `now` took 40 ms; the vsync it would wait for has
    // passed, so the demand it re-raised is due right away.
    let later = millis(now, 40);
    schedule(&mut pacer, &mut posts, later);

    assert_eq!(posts, 0);
    assert_eq!(pacer.poll_timeout(later), Some(zero()));
    assert!(pacer.take_frame(later));

    // Back within the interval: vsync pacing again.
    schedule(&mut pacer, &mut posts, millis(later, 5));
    assert_eq!(posts, 1);
}

#[test]
fn untaken_frame_stays_due_for_an_inactive_window() {
    let now = start();
    let (mut pacer, mut posts) = vsync_pacer_after_frame(now);
    let now = millis(now, 1);

    schedule(&mut pacer, &mut posts, now);
    pacer.on_vsync();
    // The loop skips drawing while inactive …
    assert!(pacer.has_demand());
    // … and draws the owed frame once it is active again.
    assert!(pacer.take_frame(now.after(Duration::from_secs(5))));
}

#[test]
fn resume_reposts_a_callback_that_may_never_fire() {
    let now = start();
    let (mut pacer, mut posts) = vsync_pacer_after_frame(now);
    let now = millis(now, 1);

    schedule(&mut pacer, &mut posts, now);
    assert_eq!(posts, 1);

    if pacer.resume(now) {
        posts += 1;
    }
    assert_eq!(posts, 2);

    // The stale callback and the fresh one both fire: still one frame.
    pacer.on_vsync();
    pacer.on_vsync();
    assert!(pacer.take_frame(now));
    assert!(!pacer.take_frame(now));
}

#[test]
fn clock_fallback_spaces_frames_by_the_interval() {
    let mut pacer = FramePacer::with_clock(interval());
    let mut posts = 0;
    let t0 = start();

    schedule(&mut pacer, &mut posts, t0);
    assert_eq!(pacer.poll_timeout(t0), Some(Duration::from_millis(0)));
    assert!(pacer.take_frame(t0), "the first frame is due at once");

    schedule(&mut pacer, &mut posts, millis(t0, 1));
    assert_eq!(
        pacer.poll_timeout(millis(t0, 1)),
        Some(Duration::from_millis(15))
    );
    assert!(!pacer.take_frame(millis(t0, 10)));
    assert!(pacer.take_frame(t0.after(interval())));
    assert!(!pacer.has_demand());
    assert_eq!(posts, 0);
}

#[test]
fn clock_fallback_folds_demand_into_the_pending_frame() {
    let mut pacer = FramePacer::with_clock(interval());
    let mut posts = 0;
    let t0 = start();

    schedule(&mut pacer, &mut posts, t0);
    schedule(&mut pacer, &mut posts, millis(t0, 5));
    assert!(pacer.take_frame(millis(t0, 5)));
    assert!(!pacer.take_frame(millis(t0, 5)));
}

#[test]
fn the_interval_itself_counts_as_elapsed() {
    let now = start();
    let (mut pacer, mut posts) = vsync_pacer_after_frame(now);
    schedule(&mut pacer, &mut posts, millis(now, 16));
    assert_eq!(posts, 0);
    assert!(pacer.take_frame(millis(now, 16)));

    let (mut pacer, mut posts) = vsync_pacer_after_frame(now);
    schedule(&mut pacer, &mut posts, Instant { nanos: now.nanos + 15_999_999 });
    assert_eq!(posts, 1);
}

#[test]
fn a_late_clock_frame_is_due_at_once() {
    let mut pacer = FramePacer::with_clock(interval());
    let t0 = start();
    assert!(!pacer.schedule(t0));
    assert!(pacer.take_frame(t0));
    assert!(!pacer.schedule(millis(t0, 30)));
    assert_eq!(pacer.poll_timeout(millis(t0, 30)), Some(zero()));
    assert!(pacer.take_frame(millis(t0, 30)));
}

#[test]
fn resume_within_the_interval_posts_even_without_demand() {
    let now = start();
    let (mut pacer, _) = vsync_pacer_after_frame(now);
    assert!(pacer.resume(millis(now, 2)));
    assert!(pacer.has_demand());
}

#[test]
fn time_saturates_backwards() {
    let early = Instant { nanos: 10 };
    let late = Instant { nanos: 1_010 };
    assert_eq!(late.duration_since(early), Duration { nanos: 1_000 });
    assert_eq!(early.duration_since(late), Duration { nanos: 0 });
    assert_eq!(early.max(late), late);
    assert_eq!(Duration::from_micros(1_999), Duration { nanos: 1_999_000 });
    assert_eq!(Duration::from_secs(1).min(Duration::from_millis(999)), Duration::from_millis(999));
}
