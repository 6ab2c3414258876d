use midi::transport::{
    clock, cont, next_sleep_nanos, pulse_interval_nanos, start, stop, ClockAction, ClockState,
    TransportClock,
};

#[test]
fn transport_bytes() {
    assert_eq!(start(), vec![0xFA]);
    assert_eq!(stop(), vec![0xFC]);
    assert_eq!(cont(), vec![0xFB]);
    assert_eq!(clock(), vec![0xF8]);
}

#[test]
fn interval_follows_tempo() {
    assert_eq!(pulse_interval_nanos(120), Some(20_833_333));
    assert_eq!(pulse_interval_nanos(60), Some(41_666_666));
    assert_eq!(pulse_interval_nanos(1), Some(2_500_000_000));
    assert_eq!(pulse_interval_nanos(0), None);
    assert!(TransportClock::new(0).is_none());
}

#[test]
fn sleep_fills_or_scales_the_interval() {
    assert_eq!(next_sleep_nanos(1000, 0), 1000);
    assert_eq!(next_sleep_nanos(1000, 300), 700);
    assert_eq!(next_sleep_nanos(1000, 1000), 0);
    assert_eq!(next_sleep_nanos(1000, 2000), 500);
    assert_eq!(next_sleep_nanos(1000, 3000), 333);
    assert_eq!(next_sleep_nanos(0, 5), 0);
    assert_eq!(next_sleep_nanos(u64::MAX, u64::MAX), 0);
    assert_eq!(next_sleep_nanos(u64::MAX - 1, u64::MAX), u64::MAX - 2);
}

#[test]
fn on_time_ticks_average_the_nominal_interval() {
    let mut c = TransportClock::new(120).unwrap();
    assert!(c.begin());
    let interval = c.interval();
    let mut total: u64 = 0;
    for k in 0..1000u64 {
        assert_eq!(c.tick(true), ClockAction::Pulse);
        let elapsed = (k * 7919) % (interval + 1);
        total += elapsed + c.pause_after(elapsed);
    }
    assert_eq!(total, 1000 * interval);
    assert_eq!(total / 1000, 20_833_333);
}

#[test]
fn lowered_flag_stops_for_good() {
    let mut c = TransportClock::new(120).unwrap();
    assert_eq!(c.state(), ClockState::Idle);
    assert_eq!(c.tick(true), ClockAction::Exit);
    assert!(c.begin());
    assert_eq!(c.state(), ClockState::Running);
    assert!(!c.begin());
    assert_eq!(c.tick(true), ClockAction::Pulse);
    assert_eq!(c.tick(true), ClockAction::Pulse);
    assert_eq!(c.tick(false), ClockAction::Exit);
    assert_eq!(c.state(), ClockState::Stopped);
    assert_eq!(c.tick(true), ClockAction::Exit);
    assert_eq!(c.tick(false), ClockAction::Exit);
    assert!(!c.begin());
    assert_eq!(c.state(), ClockState::Stopped);
}
