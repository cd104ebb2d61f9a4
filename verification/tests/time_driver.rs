use atomic_polyfill::{AtomicU64, AtomicU8};
use embassy_drivers::time_driver::{
    alarm_from_update, next_alarm_counter, next_tick, tick_from_update, AlarmHandle, AlarmTable,
    CtimerArm, TimerDriver, ALARM_COUNT,
};

fn driver() -> TimerDriver {
    TimerDriver { now: AtomicU64::new(0), next_alarm: AtomicU8::new(0), clocks_configured: false }
}

#[test]
fn now_counts_up_from_zero() {
    let d = driver();
    assert_eq!(d.now(), 0);
    assert_eq!(d.now(), 1);
    assert_eq!(d.now(), 2);
}

#[test]
fn now_saturates_at_max() {
    let d = TimerDriver {
        now: AtomicU64::new(u64::MAX - 1),
        next_alarm: AtomicU8::new(0),
        clocks_configured: false,
    };
    assert_eq!(d.now(), u64::MAX - 1);
    assert_eq!(d.now(), u64::MAX);
    assert_eq!(d.now(), u64::MAX);
}

#[test]
fn alarms_are_handed_out_once_each() {
    let d = driver();
    for expected in 0..ALARM_COUNT as u8 {
        let h = d.allocate_alarm().expect("alarm left");
        assert_eq!(h.id(), expected);
    }
    assert!(d.allocate_alarm().is_none());
    assert!(d.allocate_alarm().is_none());
}

#[test]
fn counter_updates() {
    assert_eq!(next_tick(7), Some(8));
    assert_eq!(next_tick(u64::MAX), None);
    assert_eq!(next_alarm_counter(0), Some(1));
    assert_eq!(next_alarm_counter(4), Some(5));
    assert_eq!(next_alarm_counter(5), None);
    assert_eq!(next_alarm_counter(200), None);
}

#[test]
fn update_results() {
    assert_eq!(tick_from_update(Ok(41)), 41);
    assert_eq!(tick_from_update(Err(u64::MAX)), u64::MAX);
    assert_eq!(alarm_from_update(Ok(3)), Some(AlarmHandle::new(3)));
    assert_eq!(alarm_from_update(Err(5)), None);
}

#[test]
fn new_table_is_empty() {
    let t: AlarmTable<u32> = AlarmTable::new();
    for id in 0..ALARM_COUNT as u8 {
        assert_eq!(t.timestamp(AlarmHandle::new(id)), 0);
        assert_eq!(*t.callback(AlarmHandle::new(id)), None);
    }
}

#[test]
fn set_alarm_stores_timestamp_and_arms_timer() {
    let mut t: AlarmTable<u32> = AlarmTable::new();
    let (armed, arm) = t.set_alarm(AlarmHandle::new(2), 1_000);
    assert!(armed);
    assert_eq!(arm, CtimerArm { timer: 2, match_value: 1_000 });
    assert_eq!(t.timestamp(AlarmHandle::new(2)), 1_000);
    assert_eq!(t.timestamp(AlarmHandle::new(1)), 0);
    assert_eq!(t.timestamp(AlarmHandle::new(3)), 0);
}

#[test]
fn set_alarm_keeps_low_32_bits_in_match_register() {
    let mut t: AlarmTable<u32> = AlarmTable::new();
    let (_, arm) = t.set_alarm(AlarmHandle::new(4), 0x1_2345_6789);
    assert_eq!(arm, CtimerArm { timer: 4, match_value: 0x2345_6789 });
    assert_eq!(t.timestamp(AlarmHandle::new(4)), 0x1_2345_6789);
}

#[test]
fn set_alarm_overwrites_previous_alarm() {
    let mut t: AlarmTable<u32> = AlarmTable::new();
    t.set_alarm(AlarmHandle::new(0), 10);
    t.set_alarm(AlarmHandle::new(0), 20);
    assert_eq!(t.timestamp(AlarmHandle::new(0)), 20);
}

#[test]
fn callbacks_are_kept_per_alarm() {
    let mut t: AlarmTable<u32> = AlarmTable::new();
    t.set_alarm(AlarmHandle::new(1), 99);
    t.set_alarm_callback(AlarmHandle::new(1), 17);
    assert_eq!(*t.callback(AlarmHandle::new(1)), Some(17));
    assert_eq!(*t.callback(AlarmHandle::new(0)), None);
    assert_eq!(t.timestamp(AlarmHandle::new(1)), 99);
}
