use py32_hal::queue_time_driver;
use py32_hal::systick_time_driver::{reload_value, AlarmState, SysTickDriver, NO_DEADLINE};

#[test]
fn late_alarm_is_refused_and_state_kept() {
    let mut d = SysTickDriver::new();
    let a = d.allocate_alarm().unwrap();
    assert!(d.set_alarm(a, 5));
    for _ in 0..3 {
        d.on_systick();
    }
    assert_eq!(d.now(), 3);
    assert!(!d.set_alarm(a, 3));
    assert!(!d.set_alarm(a, 1));
    assert_eq!(d.deadline(a), 5);
}

#[test]
fn alarm_fires_at_its_deadline_not_before() {
    let mut d = SysTickDriver::new();
    let a = d.allocate_alarm().unwrap();
    let b = d.allocate_alarm().unwrap();
    assert!(d.set_alarm(a, 2));
    assert!(d.set_alarm(b, 4));
    let mut fired_at = vec![];
    for _ in 0..6 {
        let now = d.now();
        let fired = d.on_systick();
        for slot in 0..3 {
            if fired[slot] {
                fired_at.push((slot, now));
            }
        }
    }
    assert_eq!(fired_at, vec![(0, 2), (1, 4)]);
    assert_eq!(d.deadline(a), NO_DEADLINE);
}

#[test]
fn alarm_slots_run_out() {
    let mut d = SysTickDriver::new();
    assert_eq!(d.allocate_alarm(), Some(0));
    assert_eq!(d.allocate_alarm(), Some(1));
    assert_eq!(d.allocate_alarm(), Some(2));
    assert_eq!(d.allocate_alarm(), None);
    assert_eq!(AlarmState::new().timestamp, u64::MAX);
}

#[test]
fn reload_values() {
    assert_eq!(reload_value(8_000_000, 1_000_000), Some(7));
    assert_eq!(reload_value(72_000_000, 1000), Some(71_999));
    assert_eq!(reload_value(8_000_000, 0), None);
    assert_eq!(reload_value(8_000_000, 16_000_000), None);
    assert_eq!(reload_value(u32::MAX, 1), None);
}

#[test]
fn queue_driver_alarm() {
    let mut queue = embassy_time_queue_utils::Queue::new();
    let mut d = queue_time_driver::SysTickDriver::new();
    assert!(!d.set_alarm(0));
    assert!(d.set_alarm(2));
    assert_eq!(d.on_systick(&mut queue), None);
    assert_eq!(d.on_systick(&mut queue), None);
    assert_eq!(d.now(), 2);
    assert_eq!(d.on_systick(&mut queue), Some(u64::MAX));
    assert_eq!(d.alarm(), u64::MAX);
    assert_eq!(d.schedule_wake(&mut queue, false), None);
    assert_eq!(d.alarm(), u64::MAX);
    assert_eq!(d.schedule_wake(&mut queue, true), Some(u64::MAX));
    assert_eq!(d.alarm(), u64::MAX);
    assert_eq!(d.now(), 3);
    assert_eq!(d.rearm(&mut queue, 10), 10);
    assert_eq!(d.alarm(), 10);
    assert_eq!(d.rearm(&mut queue, 3), u64::MAX);
    assert_eq!(d.alarm(), u64::MAX);
}

#[test]
fn tick_counter_counts_up_by_one() {
    let mut d = SysTickDriver::new();
    let mut last = d.now();
    for _ in 0..1000 {
        d.on_systick();
        assert_eq!(d.now(), last + 1);
        last = d.now();
    }
}
