use servo_sweep::controller::Controller;
use servo_sweep::duty::compute_duty;
use servo_sweep::duty::DutyRange;

fn range_14_bit() -> DutyRange {
    DutyRange::from_max_duty(16383)
}

#[test]
fn limits_from_14_bit_max_duty() {
    let range = range_14_bit();
    assert_eq!(range.min_limit, 409);
    assert_eq!(range.max_limit, 2047);
}

#[test]
fn duty_at_boundaries_and_midpoint() {
    assert_eq!(compute_duty(0, 0, 180, 409, 2047), 409);
    assert_eq!(compute_duty(180, 0, 180, 409, 2047), 2047);
    assert_eq!(compute_duty(90, 0, 180, 409, 2047), 1228);
}

#[test]
fn duty_monotonic_over_full_sweep() {
    let mut prev: u32 = compute_duty(0, 0, 180, 409, 2047);
    let mut angle: u32 = 1;
    while angle <= 180 {
        let next = compute_duty(angle, 0, 180, 409, 2047);
        assert!(prev <= next);
        assert!(409 <= next && next <= 2047);
        prev = next;
        angle += 1;
    }
}

#[test]
fn limits_from_smallest_usable_max_duty() {
    let range = DutyRange::from_max_duty(10);
    assert_eq!(range.min_limit, 0);
    assert_eq!(range.max_limit, 1);
    assert_eq!(compute_duty(0, 0, 180, 0, 1), 0);
    assert_eq!(compute_duty(180, 0, 180, 0, 1), 1);
}

#[test]
fn sweep_to_ten_writes_ten_steps() {
    let mut controller = Controller::new(range_14_bit());
    assert_eq!(controller.current_angle, 0);
    controller.latch(Some(10));
    let duties = controller.sweep_duties();
    assert_eq!(duties.len(), 10);
    for (i, duty) in duties.iter().enumerate() {
        let angle = 1 + i as u32;
        assert_eq!(*duty, compute_duty(angle, 0, 180, 409, 2047));
    }
    assert_eq!(controller.current_angle, 10);
    assert_eq!(controller.step(), None);
}

#[test]
fn sweep_down_from_180_reaches_zero() {
    let range = range_14_bit();
    let mut controller = Controller {
        current_angle: 180,
        target: 180,
        range,
    };
    controller.latch(Some(0));
    let duties = controller.sweep_duties();
    assert_eq!(duties.len(), 180);
    for (i, duty) in duties.iter().enumerate() {
        let angle = 179 - i as u32;
        assert_eq!(*duty, compute_duty(angle, 0, 180, 409, 2047));
    }
    assert_eq!(controller.current_angle, 0);
    assert_eq!(*duties.last().unwrap(), 409);
    assert_eq!(controller.step(), None);
}

#[test]
fn same_target_twice_is_idempotent() {
    let mut controller = Controller::new(range_14_bit());
    controller.latch(Some(42));
    controller.sweep_duties();
    assert_eq!(controller.current_angle, 42);
    let duty_at_rest = controller.current_duty();
    controller.latch(Some(42));
    assert_eq!(controller.step(), None);
    assert_eq!(controller.current_duty(), duty_at_rest);
    assert_eq!(controller.current_angle, 42);
}

#[test]
fn out_of_range_command_is_rejected() {
    let mut controller = Controller::new(range_14_bit());
    controller.latch(Some(37));
    controller.latch(Some(181));
    assert_eq!(controller.target, 37);
    controller.latch(Some(u32::MAX));
    assert_eq!(controller.target, 37);
    controller.latch(None);
    assert_eq!(controller.target, 37);
}

#[test]
fn poll_latches_buffered_command() {
    let (tx, rx) = crossbeam_channel::bounded::<u32>(1);
    let mut controller = Controller::new(range_14_bit());
    tx.send(10).unwrap();
    controller.poll_and_latch(&rx);
    assert_eq!(controller.target, 10);
    let duties = controller.sweep_duties();
    assert_eq!(duties.len(), 10);
    assert_eq!(controller.current_angle, 10);
}

#[test]
fn overwrite_keeps_latest_latched_value() {
    let (tx, rx) = crossbeam_channel::bounded::<u32>(1);
    let mut controller = Controller::new(range_14_bit());
    tx.try_send(100).unwrap();
    assert!(tx.try_send(180).is_err());
    controller.poll_and_latch(&rx);
    assert_eq!(controller.target, 100);
    tx.try_send(180).unwrap();
    controller.poll_and_latch(&rx);
    assert_eq!(controller.target, 180);
    controller.sweep_duties();
    assert_eq!(controller.current_angle, 180);
}

#[test]
fn poll_on_empty_or_disconnected_channel_changes_nothing() {
    let (tx, rx) = crossbeam_channel::bounded::<u32>(1);
    let mut controller = Controller::new(range_14_bit());
    controller.latch(Some(5));
    controller.poll_and_latch(&rx);
    assert_eq!(controller.target, 5);
    drop(tx);
    controller.poll_and_latch(&rx);
    assert_eq!(controller.target, 5);
    assert_eq!(controller.current_angle, 0);
}
