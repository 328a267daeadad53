use gpui::{point, px, Pixels, Point};
use gpui_mobile_core::fling_guard::{
    is_past_slop, FlingGuard, TouchEvent, TouchId, TouchPhase, MOMENTUM_WINDOW_SECS,
};
use gpui_mobile_core::time::{Duration, Instant};

type Position = Point<Pixels>;
type Touch = TouchEvent<Position, f32>;

fn start() -> Instant {
    Instant { nanos: 1_000_000_000 }
}

fn touch(id: u64, phase: TouchPhase, x: f32, y: f32) -> Touch {
    TouchEvent {
        id: TouchId(id),
        phase,
        position: point(px(x), px(y)),
        predicted_position: None,
        force: None,
    }
}

fn travelled(from: Position, to: Position) -> u64 {
    (to - from).magnitude().to_bits()
}

/// Relays `events` at `now`, returning what reached GPUI as
/// `(id, phase, position)`.
fn relay_all(
    guard: &mut FlingGuard<Position>,
    now: Instant,
    events: Vec<Touch>,
) -> Vec<(u64, TouchPhase, Position)> {
    let mut out = Vec::new();
    let mut next_id = 100;
    for event in events {
        let relayed = guard.relay_at(
            event,
            now,
            || {
                next_id += 1;
                TouchId(next_id)
            },
            travelled,
        );
        for event in relayed {
            out.push((event.id.0, event.phase, event.position));
        }
    }
    out
}

fn pan(guard: &mut FlingGuard<Position>, now: Instant) {
    let relayed = relay_all(
        guard,
        now,
        vec![
            touch(1, TouchPhase::Started, 300., 300.),
            touch(1, TouchPhase::Moved, 250., 300.),
            touch(1, TouchPhase::Ended, 200., 300.),
        ],
    );
    assert_eq!(relayed.len(), 3, "a pan is relayed as is");
}

#[test]
fn a_contact_after_a_pan_release_is_preceded_by_a_cancelled_contact() {
    let mut guard = FlingGuard::new();
    let now = start();
    pan(&mut guard, now);

    let relayed = relay_all(
        &mut guard,
        now.after(Duration::from_millis(200)),
        vec![touch(2, TouchPhase::Started, 200., 300.)],
    );

    assert_eq!(
        relayed,
        [
            (101, TouchPhase::Started, point(px(200.), px(300.))),
            (101, TouchPhase::Cancelled, point(px(200.), px(300.))),
            (2, TouchPhase::Started, point(px(200.), px(300.))),
        ]
    );
}

#[test]
fn the_guard_is_armed_once_per_release() {
    let mut guard = FlingGuard::new();
    let now = start();
    pan(&mut guard, now);

    let first = relay_all(
        &mut guard,
        now.after(Duration::from_millis(200)),
        vec![
            touch(2, TouchPhase::Started, 200., 300.),
            touch(2, TouchPhase::Ended, 200., 300.),
        ],
    );
    let second = relay_all(
        &mut guard,
        now.after(Duration::from_millis(400)),
        vec![touch(3, TouchPhase::Started, 200., 300.)],
    );

    assert_eq!(first.len(), 4);
    assert_eq!(second, [(3, TouchPhase::Started, point(px(200.), px(300.)))]);
}

#[test]
fn a_contact_after_the_momentum_window_is_relayed_as_is() {
    let mut guard = FlingGuard::new();
    let now = start();
    pan(&mut guard, now);

    let relayed = relay_all(
        &mut guard,
        now.after(Duration::from_secs(MOMENTUM_WINDOW_SECS)),
        vec![touch(2, TouchPhase::Started, 200., 300.)],
    );

    assert_eq!(relayed, [(2, TouchPhase::Started, point(px(200.), px(300.)))]);
}

#[test]
fn a_tap_does_not_arm_the_guard() {
    let mut guard = FlingGuard::new();
    let now = start();
    relay_all(
        &mut guard,
        now,
        vec![
            touch(1, TouchPhase::Started, 300., 300.),
            touch(1, TouchPhase::Moved, 303., 302.),
            touch(1, TouchPhase::Ended, 303., 302.),
        ],
    );

    let relayed = relay_all(
        &mut guard,
        now.after(Duration::from_millis(100)),
        vec![touch(2, TouchPhase::Started, 300., 300.)],
    );

    assert_eq!(relayed, [(2, TouchPhase::Started, point(px(300.), px(300.)))]);
}

#[test]
fn a_cancelled_pan_does_not_arm_the_guard() {
    let mut guard = FlingGuard::new();
    let now = start();
    relay_all(
        &mut guard,
        now,
        vec![
            touch(1, TouchPhase::Started, 300., 300.),
            touch(1, TouchPhase::Moved, 200., 300.),
            touch(1, TouchPhase::Cancelled, 200., 300.),
        ],
    );

    let relayed = relay_all(
        &mut guard,
        now.after(Duration::from_millis(100)),
        vec![touch(2, TouchPhase::Started, 300., 300.)],
    );

    assert_eq!(relayed, [(2, TouchPhase::Started, point(px(300.), px(300.)))]);
}

#[test]
fn the_window_ends_just_before_its_last_instant() {
    let mut guard = FlingGuard::new();
    let now = start();
    pan(&mut guard, now);
    let last = Instant { nanos: now.nanos + 3_999_999_999 };
    let relayed = relay_all(&mut guard, last, vec![touch(2, TouchPhase::Started, 1., 2.)]);
    assert_eq!(relayed.len(), 3);
}

#[test]
fn the_slop_is_eight_pixels() {
    for (distance, past) in [
        (0.0, false),
        (7.999, false),
        (8.0, false),
        (8.000001, true),
        (1e300, true),
        (f64::INFINITY, true),
        (f64::NAN, false),
        (-f64::NAN, false),
        (-9.0, false),
        (f64::MIN_POSITIVE / 4.0, false),
    ] {
        assert_eq!(is_past_slop(f64::to_bits(distance)), past, "{distance}");
        assert_eq!(distance > 8.0, past, "{distance}");
    }
}

#[test]
fn a_contact_that_returns_has_still_panned() {
    let mut guard = FlingGuard::new();
    let now = start();
    relay_all(
        &mut guard,
        now,
        vec![
            touch(1, TouchPhase::Started, 0., 0.),
            touch(1, TouchPhase::Moved, 0., 9.),
            touch(1, TouchPhase::Moved, 0., 0.),
            touch(1, TouchPhase::Ended, 0., 0.),
        ],
    );
    let relayed = relay_all(&mut guard, now, vec![touch(2, TouchPhase::Started, 4., 5.)]);
    assert_eq!(relayed.len(), 3);
}

#[test]
fn an_unknown_contact_is_relayed_and_ignored() {
    let mut guard = FlingGuard::new();
    let now = start();
    let relayed = relay_all(
        &mut guard,
        now,
        vec![
            touch(9, TouchPhase::Moved, 0., 0.),
            touch(9, TouchPhase::Moved, 0., 90.),
            touch(9, TouchPhase::Ended, 0., 90.),
            touch(10, TouchPhase::Started, 0., 90.),
        ],
    );
    assert_eq!(relayed.len(), 4);
}

#[test]
fn an_event_keeps_its_prediction_and_force() {
    let mut guard: FlingGuard<Position> = FlingGuard::new();
    let event = TouchEvent {
        id: TouchId(1),
        phase: TouchPhase::Started,
        position: point(px(1.), px(2.)),
        predicted_position: Some(point(px(3.), px(4.))),
        force: Some(0.5),
    };
    let relayed = guard.relay_measured(event, start(), TouchId(0), false);
    assert_eq!(relayed.len(), 1);
    assert_eq!(relayed[0].predicted_position, Some(point(px(3.), px(4.))));
    assert_eq!(relayed[0].force, Some(0.5));
}

#[test]
fn other_contacts_leave_the_guard_armed() {
    let mut guard = FlingGuard::new();
    let now = start();
    relay_all(
        &mut guard,
        now,
        vec![
            touch(1, TouchPhase::Started, 0., 0.),
            touch(2, TouchPhase::Started, 50., 50.),
            touch(1, TouchPhase::Moved, 0., 90.),
            touch(1, TouchPhase::Ended, 0., 90.),
            touch(2, TouchPhase::Moved, 51., 50.),
            touch(2, TouchPhase::Ended, 51., 50.),
        ],
    );
    let relayed = relay_all(&mut guard, now, vec![touch(3, TouchPhase::Started, 4., 5.)]);
    assert_eq!(relayed.len(), 3);
}
