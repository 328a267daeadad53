use gpui_mobile_core::frame_demand::FrameDemand;

/// Counts a wake for every waker handed out.
fn count(wakes: &mut u32, resume: Option<&'static str>) {
    if let Some(waker) = resume {
        assert_eq!(waker, "host");
        *wakes += 1;
    }
}

fn demand_with_counter(wakes: &mut u32) -> FrameDemand<&'static str> {
    let mut demand = FrameDemand::default();
    let resume = demand.set_host_waker(Some("host"));
    count(wakes, resume);
    demand
}

#[test]
fn wake_calls_host_once_per_tick() {
    let mut wakes = 0;
    let mut demand = demand_with_counter(&mut wakes);

    count(&mut wakes, demand.wake());
    count(&mut wakes, demand.wake());

    assert!(demand.is_pending());
    assert_eq!(wakes, 1);
}

#[test]
fn clear_resets_demand_so_next_wake_calls_host_again() {
    let mut wakes = 0;
    let mut demand = demand_with_counter(&mut wakes);

    count(&mut wakes, demand.wake());
    demand.clear();
    assert!(!demand.is_pending());

    count(&mut wakes, demand.wake());
    assert!(demand.is_pending());
    assert_eq!(wakes, 2);
}

#[test]
fn registering_host_with_pending_demand_wakes_immediately() {
    let mut wakes = 0;
    let mut demand = FrameDemand::default();

    count(&mut wakes, demand.wake());
    assert_eq!(wakes, 0);

    count(&mut wakes, demand.set_host_waker(Some("host")));
    assert_eq!(wakes, 1);
}

#[test]
fn registering_host_without_demand_does_not_wake() {
    let mut wakes = 0;
    let _demand = demand_with_counter(&mut wakes);
    assert_eq!(wakes, 0);
}

#[test]
fn clearing_host_waker_keeps_recording_demand() {
    let mut wakes = 0;
    let mut demand = demand_with_counter(&mut wakes);

    count(&mut wakes, demand.set_host_waker(None));
    count(&mut wakes, demand.wake());

    assert!(demand.is_pending());
    assert_eq!(wakes, 0);
}

#[test]
fn a_second_host_is_resumed_for_the_demand_of_the_first() {
    let mut demand: FrameDemand<u32> = FrameDemand::default();
    assert_eq!(demand.set_host_waker(Some(1)), None);
    assert_eq!(demand.wake(), Some(1));
    assert_eq!(demand.set_host_waker(Some(2)), Some(2));
    assert_eq!(demand.wake(), None);
}
