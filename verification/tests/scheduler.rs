use osc_clock::message::Message;
use osc_clock::order::{get_fallback_orders, split};
use osc_clock::sched::SchedulerState;
use osc_clock::time::Timestamp;
use osc_clock::unit::UnitType;

fn at(seconds_since_midnight: u32) -> Timestamp {
    let hour = seconds_since_midnight / 3600;
    let minute = (seconds_since_midnight / 60) % 60;
    let second = seconds_since_midnight % 60;
    Timestamp::new(2026, 10, 12, hour, minute, second, 0)
}

fn addresses(msgs: &[Message]) -> Vec<String> {
    msgs.iter().map(|m| m.address.clone()).collect()
}

#[test]
fn rate_restricted_ticks_gate_cadences_independently() {
    let orders = split(get_fallback_orders());
    let restrict_send_rate = true;
    let check_rate_ms: u64 = 1;
    let send_all = false;
    assert_eq!(check_rate_ms, 1);

    let mut sched = SchedulerState::new(at(0).second);
    // The alignment wait holds while the second has not moved.
    assert!(sched.should_defer(restrict_send_rate, &at(0)));
    assert!(!sched.should_defer(restrict_send_rate, &at(1)));

    // The very first tick reports every cadence changed.
    let first = sched.tick(&at(0), send_all, &orders.sender);
    assert_eq!(first.len(), 17);

    // t = 1 s: only the second-cadence values are produced.
    let msgs = sched.tick(&at(1), send_all, &orders.sender);
    assert_eq!(
        addresses(&msgs),
        vec![
            "/avatar/parameters/osc_clock@second_f".to_string(),
            "/avatar/parameters/osc_clock@second_i".to_string(),
        ]
    );

    // t = 60 s: the minute bit is set and minute-cadence values appear.
    let msgs = sched.tick(&at(60), send_all, &orders.sender);
    assert_eq!(
        addresses(&msgs),
        vec![
            "/avatar/parameters/osc_clock@second_f".to_string(),
            "/avatar/parameters/osc_clock@second_i".to_string(),
            "/avatar/parameters/osc_clock@minute_f".to_string(),
            "/avatar/parameters/osc_clock@minute_i".to_string(),
        ]
    );

    // t = 3600 s: both the minute and the hour bits are set.
    let msgs = sched.tick(&at(3600), send_all, &orders.sender);
    assert_eq!(
        addresses(&msgs),
        vec![
            "/avatar/parameters/osc_clock@second_f".to_string(),
            "/avatar/parameters/osc_clock@second_i".to_string(),
            "/avatar/parameters/osc_clock@minute_f".to_string(),
            "/avatar/parameters/osc_clock@minute_i".to_string(),
            "/avatar/parameters/osc_clock@hour24_f".to_string(),
            "/avatar/parameters/osc_clock@hour24_i".to_string(),
            "/avatar/parameters/osc_clock@hour12_f".to_string(),
            "/avatar/parameters/osc_clock@hour12_i".to_string(),
            "/avatar/parameters/osc_clock@hour_isPM".to_string(),
        ]
    );
}

#[test]
fn send_all_overrides_the_change_flags() {
    let orders = split(get_fallback_orders());
    let mut sched = SchedulerState::new(0);
    let _ = sched.tick(&at(0), false, &orders.sender);
    let msgs = sched.tick(&at(1), true, &orders.sender);
    assert_eq!(msgs.len(), 17);
    // With send-all the registers are not consulted: the next restricted
    // tick still sees the minute as unchanged.
    let msgs = sched.tick(&at(2), false, &orders.sender);
    assert_eq!(msgs.len(), 2);
}

#[test]
fn free_running_mode_never_defers() {
    let sched = SchedulerState::new(5);
    assert!(!sched.should_defer(false, &at(5)));
}

#[test]
fn a_day_change_fires_the_day_cadence() {
    let orders = split(get_fallback_orders());
    let mut sched = SchedulerState::new(0);
    let _ = sched.tick(&Timestamp::new(2026, 12, 31, 23, 59, 59, 3), false, &orders.sender);
    let msgs = sched.tick(&Timestamp::new(2027, 1, 1, 0, 0, 0, 4), false, &orders.sender);
    // Midnight rollover: minute, hour and day all change at once.
    assert_eq!(msgs.len(), 17);
    let day_values: Vec<&Message> = msgs
        .iter()
        .filter(|m| m.address == "/avatar/parameters/osc_clock@year")
        .collect();
    assert_eq!(day_values.len(), 1);
    assert_eq!(day_values[0].value, osc_clock::unit::UnitValue::Int(2027));
}

#[test]
fn registers_follow_the_observed_time() {
    let mut sched = SchedulerState::new(0);
    let orders = split(Vec::new());
    let _ = sched.tick(&at(3723), false, &orders.sender);
    assert_eq!(sched.current_second, 3);
    assert_eq!(sched.current_minute, 2);
    assert_eq!(sched.current_hour, 1);
    assert_eq!(sched.current_day, 12);
    let _ = sched.tick(&at(3724), false, &orders.sender);
    assert_eq!(sched.current_second, 4);
}

#[test]
fn handler_orders_produce_no_scheduler_traffic() {
    let orders = split(get_fallback_orders());
    let mut sched = SchedulerState::new(0);
    let msgs = sched.tick(&at(0), true, &orders.handler);
    assert!(msgs.is_empty());
    assert!(orders.handler.iter().all(|o| o.unit_type == UnitType::UpdateHandler));
}
