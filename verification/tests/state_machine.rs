use alarm_clock::clock::AlarmClock;
use alarm_clock::display::{RecordedCall, Recorder};
use alarm_clock::time::{TimeOfDay, Timestamp};

fn at(day: u64, hour: u8, minute: u8, second: u8) -> Timestamp {
    Timestamp::new(day, TimeOfDay::new(hour, minute, second))
}

fn printed(call: &RecordedCall) -> &str {
    match call {
        RecordedCall::Printed(text) => text.as_str(),
        RecordedCall::Cleared => panic!("expected a print, found a clear"),
    }
}

#[test]
fn test_alarm_clock() {
    let mut clock = AlarmClock::new(Recorder::new(), None);
    clock.tick(at(738000, 12, 30, 5));
    assert_eq!(clock.display.calls.len(), 1);
    assert!(matches!(clock.display.calls[0], RecordedCall::Printed(_)));
}

#[test]
fn test_single_alarm() {
    let now = at(738000, 9, 41, 23);
    let mut clock = AlarmClock::new(Recorder::new(), None);
    clock.set_alarm(Some(now));
    clock.tick(now);
    assert_eq!(clock.display.calls.len(), 1);
    assert!(printed(&clock.display.calls[0]).ends_with(" ALARM"));
}

#[test]
fn tick_without_alarm_shows_bare_time() {
    let mut clock = AlarmClock::new(Recorder::new(), None);
    clock.tick(at(738000, 7, 15, 42));
    assert_eq!(clock.display.calls.len(), 1);
    assert_eq!(printed(&clock.display.calls[0]), "07:15:42");
}

#[test]
fn tick_with_alarm_due_now_shows_marker() {
    let mut clock = AlarmClock::new(Recorder::new(), None);
    clock.set_alarm(Some(at(738000, 7, 15, 42)));
    clock.tick(at(738000, 7, 15, 42));
    assert_eq!(printed(&clock.display.calls[0]), "07:15:42 ALARM");
}

#[test]
fn tick_with_alarm_in_future_shows_bare_time() {
    let mut clock = AlarmClock::new(Recorder::new(), None);
    clock.set_alarm(Some(at(738000, 7, 15, 43)));
    clock.tick(at(738000, 7, 15, 42));
    assert_eq!(printed(&clock.display.calls[0]), "07:15:42");
}

#[test]
fn tick_with_alarm_in_past_keeps_firing() {
    let mut clock = AlarmClock::new(Recorder::new(), None);
    clock.set_alarm(Some(at(738000, 6, 0, 0)));
    clock.tick(at(738000, 7, 15, 42));
    clock.tick(at(738000, 7, 15, 43));
    assert_eq!(printed(&clock.display.calls[0]), "07:15:42 ALARM");
    assert_eq!(printed(&clock.display.calls[1]), "07:15:43 ALARM");
}

#[test]
fn alarm_on_earlier_day_fires_despite_later_time_of_day() {
    let mut clock = AlarmClock::new(Recorder::new(), None);
    clock.set_alarm(Some(at(737999, 23, 59, 59)));
    clock.tick(at(738000, 0, 0, 1));
    assert_eq!(printed(&clock.display.calls[0]), "00:00:01 ALARM");
}

#[test]
fn alarm_on_later_day_stays_silent() {
    let mut clock = AlarmClock::new(Recorder::new(), None);
    clock.set_alarm(Some(at(738001, 0, 0, 0)));
    clock.tick(at(738000, 23, 59, 59));
    assert_eq!(printed(&clock.display.calls[0]), "23:59:59");
}

#[test]
fn disable_alarm_silences_later_ticks() {
    let now = at(738000, 7, 15, 42);
    let mut clock = AlarmClock::new(Recorder::new(), None);
    clock.set_alarm(Some(now));
    clock.disable_alarm();
    clock.tick(now);
    assert!(matches!(clock.display.calls[0], RecordedCall::Cleared));
    assert_eq!(printed(&clock.display.calls[1]), "07:15:42");
}

#[test]
fn set_alarm_last_write_wins() {
    let now = at(738000, 7, 15, 42);
    let mut clock = AlarmClock::new(Recorder::new(), None);
    clock.set_alarm(Some(at(738000, 6, 0, 0)));
    clock.set_alarm(Some(at(738000, 8, 0, 0)));
    clock.tick(now);
    assert_eq!(printed(&clock.display.calls[0]), "07:15:42");
}

#[test]
fn disable_alarm_twice_keeps_alarm_cleared() {
    let mut clock = AlarmClock::new(Recorder::new(), None);
    clock.set_alarm(Some(at(738000, 6, 0, 0)));
    clock.disable_alarm();
    clock.disable_alarm();
    clock.tick(at(738000, 7, 15, 42));
    assert_eq!(clock.display.calls.len(), 3);
    assert!(matches!(clock.display.calls[0], RecordedCall::Cleared));
    assert!(matches!(clock.display.calls[1], RecordedCall::Cleared));
    assert_eq!(printed(&clock.display.calls[2]), "07:15:42");
}

#[test]
fn clearing_without_alarm_is_harmless() {
    let mut clock = AlarmClock::new(Recorder::new(), None);
    clock.disable_alarm();
    clock.tick(at(738000, 7, 15, 42));
    assert!(matches!(clock.display.calls[0], RecordedCall::Cleared));
    assert_eq!(printed(&clock.display.calls[1]), "07:15:42");
}
