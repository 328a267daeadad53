use gpui_mobile_core::android::frame_source::{
    install, on_vsync, schedule_frame, vsync_thread_ready, FrameSource,
};
use gpui_mobile_core::android::host::{
    activates, await_release, frame_wanted, ime_event, key, paused, post, render_thread_started, resumed,
    start, surface_created, surface_destroyed, take_commands, touch, wake_render_thread,
    AndroidKeyEvent, Command, Host, NativeWindow, ReleaseWait, RenderAction, RenderThread,
    TouchPoint,
};
use gpui_mobile_core::android::text_input::{drain, new_session, ImeState};
use gpui_mobile_core::time::{Duration, Instant};

type TestHost = Host<&'static str, f32, u8>;

fn window(handle: &'static str, address: usize) -> NativeWindow<&'static str> {
    NativeWindow { handle, address }
}

fn running_host() -> TestHost {
    let mut host = Host::new();
    assert!(start(&mut host));
    render_thread_started(&mut host, 7);
    host
}

#[test]
fn the_render_thread_is_spawned_once() {
    let mut host: TestHost = Host::new();
    assert!(start(&mut host));
    assert!(!start(&mut host));
    assert!(!start(&mut host));
}

#[test]
fn commands_arrive_in_the_order_they_were_posted() {
    let mut host = running_host();
    assert_eq!(surface_created(&mut host, window("w", 16), 2.0), Some(7));
    assert_eq!(resumed(&mut host), Some(7));
    assert_eq!(touch(&mut host, 3, 2, 10.5, 20.5), Some(7));
    assert_eq!(key(&mut host, 29, 0, 1, 97), Some(7));
    assert_eq!(paused(&mut host), Some(7));
    assert_eq!(post(&mut host, Command::SurfaceDestroyed), Some(7));

    assert_eq!(
        take_commands(&mut host),
        vec![
            Command::SurfaceCreated { window: window("w", 16), scale: 2.0 },
            Command::Resumed,
            Command::Touch(TouchPoint { id: 3, x: 10.5, y: 20.5, action: 2 }),
            Command::Key(AndroidKeyEvent {
                key_code: 29,
                action: 0,
                meta_state: 1,
                unicode_char: 97,
            }),
            Command::Paused,
            Command::SurfaceDestroyed,
        ]
    );
    assert_eq!(take_commands(&mut host), vec![]);
}

#[test]
fn nothing_is_woken_before_the_render_thread_runs() {
    let mut host: TestHost = Host::new();
    assert_eq!(resumed(&mut host), None);
    assert_eq!(wake_render_thread(&host), None);
    render_thread_started(&mut host, 9);
    assert_eq!(wake_render_thread(&host), Some(9));
    assert_eq!(take_commands(&mut host), vec![Command::Resumed]);
}

#[test]
fn a_repeated_surface_is_a_resize() {
    let mut host = running_host();
    let mut render = RenderThread::new();

    let action = render.on_surface_created(&mut host, window("a", 16), 2.0, false);
    assert_eq!(action, RenderAction::Open { window: window("a", 16), scale: 2.0 });
    assert!(render.on_opened(16, true), "the first window launches the UI");

    let action = render.on_surface_created(&mut host, window("a", 16), 2.0, true);
    assert_eq!(action, RenderAction::Resize);

    let action = render.on_surface_created(&mut host, window("b", 32), 2.0, true);
    assert_eq!(action, RenderAction::Reattach { window: window("b", 32) });
    render.on_reattached(32, false);
    let action = render.on_surface_created(&mut host, window("a", 16), 2.0, true);
    assert_eq!(action, RenderAction::Resize, "a failed attach changes nothing");
    render.on_reattached(32, true);
    let action = render.on_surface_created(&mut host, window("b", 32), 2.0, false);
    assert_eq!(action, RenderAction::Nothing);
}

#[test]
fn the_ui_is_launched_by_the_first_window_that_opens() {
    let mut render = RenderThread::new();
    assert!(!render.on_opened(16, false));
    assert!(render.on_opened(16, true));
    assert!(!render.on_opened(32, true));
}

#[test]
fn a_surface_is_released_only_after_it_was_detached() {
    let mut host = running_host();
    let mut render = RenderThread::new();
    let now = Instant { nanos: 0 };

    let action = render.on_command(
        &mut host,
        Command::SurfaceCreated { window: window("a", 16), scale: 1.0 },
        true,
    );
    assert_eq!(action, RenderAction::Reattach { window: window("a", 16) });
    render.on_reattached(16, true);

    let (wake, deadline) = surface_destroyed(&mut host, now);
    assert_eq!(wake, Some(7));
    assert_eq!(deadline, Instant { nanos: 2_000_000_000 });
    assert_eq!(
        await_release(&host, deadline, now),
        ReleaseWait::Sleep(Duration::from_micros(200))
    );

    let commands = take_commands(&mut host);
    assert_eq!(commands, vec![Command::SurfaceDestroyed]);
    let action = render.on_command(&mut host, Command::SurfaceDestroyed, true);
    assert_eq!(action, RenderAction::Release { detach: true });
    assert_eq!(
        await_release(&host, deadline, Instant { nanos: 1_999_999_999 }),
        ReleaseWait::Sleep(Duration::from_micros(200)),
        "not before the platform has detached it"
    );
    assert_eq!(await_release(&host, deadline, deadline), ReleaseWait::TimedOut);
    render.on_released(&mut host);
    assert_eq!(await_release(&host, deadline, deadline), ReleaseWait::Released);

    // The same window again has to be attached again.
    let action = render.on_surface_created(&mut host, window("a", 16), 1.0, true);
    assert_eq!(action, RenderAction::Reattach { window: window("a", 16) });
}

#[test]
fn a_host_without_a_surface_does_not_wait() {
    let host: TestHost = Host::new();
    let now = Instant { nanos: 5 };
    assert_eq!(await_release(&host, now, now), ReleaseWait::Released);
}

#[test]
fn commands_without_a_window() {
    let mut host = running_host();
    let render = RenderThread::new();
    let point = || TouchPoint { id: 1, x: 0.0, y: 0.0, action: 0 };
    let event = AndroidKeyEvent { key_code: 4, action: 1, meta_state: 0, unicode_char: 0 };
    for (command, without, with) in [
        (
            Command::SurfaceDestroyed,
            RenderAction::Release { detach: false },
            RenderAction::Release { detach: true },
        ),
        (
            Command::Resumed,
            RenderAction::Activate { has_window: false },
            RenderAction::Activate { has_window: true },
        ),
        (
            Command::Paused,
            RenderAction::Deactivate { has_window: false },
            RenderAction::Deactivate { has_window: true },
        ),
    ] {
        let again = match command {
            Command::SurfaceDestroyed => Command::SurfaceDestroyed,
            Command::Resumed => Command::Resumed,
            _ => Command::Paused,
        };
        assert_eq!(render.on_command(&mut host, command, false), without);
        assert_eq!(render.on_command(&mut host, again, true), with);
    }
    assert_eq!(
        render.on_command(&mut host, Command::Touch(point()), false),
        RenderAction::DropTouch
    );
    assert_eq!(
        render.on_command(&mut host, Command::Touch(point()), true),
        RenderAction::Touch(point())
    );
    assert_eq!(
        render.on_command(&mut host, Command::Key(event), false),
        RenderAction::Nothing
    );
    assert_eq!(
        render.on_command(&mut host, Command::Key(event), true),
        RenderAction::Key(event)
    );
}

#[test]
fn only_an_active_window_draws() {
    let mut source = FrameSource::new();
    let mut slot = None;
    install(&mut source, &mut slot, Some(1u8), true);
    let now = Instant { nanos: 1 };
    assert_eq!(frame_wanted(&mut source, &mut slot, now, Some(true)), (false, None));

    assert_eq!(schedule_frame(&mut source, &mut slot, now), None);
    assert_eq!(frame_wanted(&mut source, &mut slot, now, None), (false, None));
    assert_eq!(frame_wanted(&mut source, &mut slot, now, Some(false)), (false, None));
    assert_eq!(
        frame_wanted(&mut source, &mut slot, now, Some(true)),
        (true, None),
        "the frame stayed owed"
    );
}

#[test]
fn an_active_window_draws_only_on_demand() {
    let mut source = FrameSource::new();
    let mut slot = None;
    assert!(vsync_thread_ready(&mut source, Some(2u8), true));
    install(&mut source, &mut slot, Some(1), true);
    let mut now = Instant { nanos: 0 };
    assert_eq!(schedule_frame(&mut source, &mut slot, now), None);
    assert_eq!(frame_wanted(&mut source, &mut slot, now, Some(true)), (true, None));
    for _ in 0..50 {
        now = now.after(Duration::from_millis(8));
        assert_eq!(frame_wanted(&mut source, &mut slot, now, Some(true)), (false, None));
    }

    // Demand from another thread is picked up by the loop, at once when it is
    // late and at the next vsync when it is not.
    assert_eq!(schedule_frame(&mut source, &mut None, now), Some(1));
    assert_eq!(frame_wanted(&mut source, &mut slot, now, Some(true)), (true, None));
    assert_eq!(schedule_frame(&mut source, &mut None, now), Some(1));
    assert_eq!(frame_wanted(&mut source, &mut slot, now, Some(true)), (false, Some(2)));
    assert_eq!(on_vsync(&mut source), Some(1));
    assert_eq!(frame_wanted(&mut source, &mut slot, now, Some(true)), (true, None));
}

#[test]
fn a_surface_swap_or_a_resume_activates() {
    let point = TouchPoint { id: 1, x: 0.0f32, y: 0.0, action: 0 };
    let swap = RenderAction::Reattach { window: window("a", 16) };
    let open = RenderAction::Open { window: window("a", 16), scale: 1.0 };
    for (action, failed, succeeded) in [
        (swap, true, true),
        (open, false, true),
        (RenderAction::Activate { has_window: true }, true, true),
        (RenderAction::Activate { has_window: false }, false, false),
        (RenderAction::Deactivate { has_window: true }, false, false),
        (RenderAction::Release { detach: true }, false, false),
        (RenderAction::Resize, false, false),
        (RenderAction::Nothing, false, false),
        (RenderAction::DropTouch, false, false),
        (RenderAction::Touch(point), false, false),
    ] {
        assert_eq!(activates(&action, false), failed, "{action:?}");
        assert_eq!(activates(&action, true), succeeded, "{action:?}");
    }
}

#[test]
fn a_surface_that_is_still_queued_is_waited_for() {
    let mut host = running_host();
    let mut render = RenderThread::new();
    let now = Instant { nanos: 0 };
    let sleep = ReleaseWait::Sleep(Duration::from_micros(200));

    assert_eq!(surface_created(&mut host, window("a", 16), 1.0), Some(7));
    assert_eq!(host.unhandled(), 1);
    let (_, deadline) = surface_destroyed(&mut host, now);
    assert_eq!(await_release(&host, deadline, now), sleep, "both are queued");
    let commands = take_commands(&mut host);
    assert_eq!(await_release(&host, deadline, now), sleep, "both are taken");

    for command in commands {
        match render.on_command(&mut host, command, true) {
            RenderAction::Reattach { window } => {
                assert_eq!(host.unhandled(), 0);
                assert_eq!(await_release(&host, deadline, now), sleep, "being attached");
                render.on_reattached(window.address, true);
                assert_eq!(await_release(&host, deadline, now), sleep, "attached");
            }
            RenderAction::Release { detach } => {
                assert!(detach);
                assert_eq!(await_release(&host, deadline, now), sleep, "being detached");
                render.on_released(&mut host);
            }
            action => panic!("{action:?}"),
        }
    }
    assert_eq!(await_release(&host, deadline, now), ReleaseWait::Released);
}

#[test]
fn a_second_surface_is_not_released_with_the_first() {
    let mut host = running_host();
    let mut render = RenderThread::new();
    let now = Instant { nanos: 0 };
    assert_eq!(surface_created(&mut host, window("a", 16), 1.0), Some(7));
    let _ = surface_destroyed(&mut host, now);
    assert_eq!(surface_created(&mut host, window("b", 32), 1.0), Some(7));
    let (_, deadline) = surface_destroyed(&mut host, now);

    let mut waits = Vec::new();
    for command in take_commands(&mut host) {
        match render.on_command(&mut host, command, true) {
            RenderAction::Reattach { window } => render.on_reattached(window.address, true),
            RenderAction::Release { .. } => render.on_released(&mut host),
            action => panic!("{action:?}"),
        }
        waits.push(await_release(&host, deadline, now) == ReleaseWait::Released);
    }
    assert_eq!(waits, vec![false, false, false, true]);
}

#[test]
fn ime_events_are_queued_not_applied() {
    let mut ime = ImeState::new();
    let session = new_session(&mut ime);
    assert!(ime_event(&mut ime, session, 1, "你".to_string(), 3, 4));
    assert!(!ime_event(&mut ime, session + 1, 1, "x".to_string(), 0, 0));
    let events = drain(&mut ime);
    assert_eq!(events.len(), 1);
    assert_eq!(events[0].session, session);
    assert_eq!(events[0].kind, 1);
    assert_eq!(events[0].text, "你");
    assert_eq!((events[0].start, events[0].end), (3, 4));
}
