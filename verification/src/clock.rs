//! The alarm clock state machine: it owns the optional alarm setting,
//! renders each tick, and carries the cooperative stop flag. Every
//! operation is specified as a pure transition on [`ClockModel`], the
//! mathematical image of the clock.

use crate::display::{DisplayCall, DisplayDevice};
use crate::time::{format_time, time_text, Timestamp};
use vstd::prelude::*;

verus! {

/// The cooperative stop flag: created unset, set once by the quit handler,
/// observed by the scheduler at each iteration, never reset.
#[derive(Clone, Copy, PartialEq, Eq, Structural, Debug)]
pub struct RunSignal {
    pub stopped: bool,
}

impl RunSignal {
    pub fn new() -> (r: RunSignal)
        ensures
            !r.stopped,
    {
        RunSignal { stopped: false }
    }

    /// Request the run loop to stop; idempotent.
    pub fn stop(&mut self)
        ensures
            final(self).stopped,
    {
        self.stopped = true;
    }

    pub fn is_stopped(&self) -> (r: bool)
        ensures
            r == self.stopped,
    {
        self.stopped
    }
}

/// The mathematical image of an alarm clock: its alarm setting, its stop
/// flag (absent when no run signal is attached), and the history of calls
/// its display received.
pub struct ClockModel {
    pub alarm: Option<Timestamp>,
    pub signal: Option<bool>,
    pub history: Seq<DisplayCall>,
}

/// The alarm is set and due: it lies at or before `now`.
pub open spec fn alarm_fires(alarm: Option<Timestamp>, now: Timestamp) -> bool {
    alarm is Some && alarm.unwrap().as_seconds() <= now.as_seconds()
}

/// What one tick renders: the `HH:MM:SS` display of `now`, with the alarm
/// marker appended exactly when the alarm fires.
pub open spec fn display_text(alarm: Option<Timestamp>, now: Timestamp) -> Seq<char> {
    if alarm_fires(alarm, now) {
        time_text(now.time) + " ALARM"@
    } else {
        time_text(now.time)
    }
}

/// A tick renders the display for `now` and changes nothing else.
pub open spec fn tick_model(m: ClockModel, now: Timestamp) -> ClockModel {
    ClockModel { history: m.history.push(DisplayCall::Printed(display_text(m.alarm, now))), ..m }
}

/// Setting the alarm replaces the previous setting and touches nothing
/// else.
pub open spec fn set_alarm_model(m: ClockModel, alarm: Option<Timestamp>) -> ClockModel {
    ClockModel { alarm, ..m }
}

/// Disabling the alarm clears the setting and blanks the display once.
pub open spec fn disable_alarm_model(m: ClockModel) -> ClockModel {
    ClockModel { alarm: None, history: m.history.push(DisplayCall::Cleared), ..m }
}

/// Stopping sets the attached run signal; without one it does nothing.
pub open spec fn stop_model(m: ClockModel) -> ClockModel {
    ClockModel {
        signal: match m.signal {
            Some(_) => Some(true),
            None => None,
        },
        ..m
    }
}

/// The attached run signal has been told to stop.
pub open spec fn model_stopped(m: ClockModel) -> bool {
    m.signal == Some(true)
}

/// The alarm clock: a display device, the optional alarm, and the optional
/// run signal the quit key sets.
pub struct AlarmClock<D: DisplayDevice> {
    pub display: D,
    pub alarm: Option<Timestamp>,
    pub signal: Option<RunSignal>,
}

impl<D: DisplayDevice> AlarmClock<D> {
    /// A set alarm is a well-formed timestamp.
    pub open spec fn wf(self) -> bool {
        self.alarm is Some ==> self.alarm.unwrap().wf()
    }

    /// The clock's mathematical image.
    pub open spec fn model(self) -> ClockModel {
        ClockModel {
            alarm: self.alarm,
            signal: match self.signal {
                Some(s) => Some(s.stopped),
                None => None,
            },
            history: self.display.history(),
        }
    }

    pub fn new(display: D, signal: Option<RunSignal>) -> (r: AlarmClock<D>)
        ensures
            r.wf(),
            r.model() == (ClockModel {
                alarm: None,
                signal: match signal {
                    Some(s) => Some(s.stopped),
                    None => None,
                },
                history: display.history(),
            }),
    {
        AlarmClock { display, alarm: None, signal }
    }

    /// Render the display for `now`: its `HH:MM:SS` text, with the alarm
    /// marker appended exactly when a set alarm lies at or before `now`.
    /// The alarm setting itself is not touched; it keeps firing on every
    /// tick until it is disabled.
    pub fn tick(&mut self, now: Timestamp)
        requires
            old(self).wf(),
            now.wf(),
        ensures
            final(self).wf(),
            final(self).model() == tick_model(old(self).model(), now),
    {
        let mut text = format_time(&now.time);
        if let Some(alarm) = self.alarm {
            if alarm.le(&now) {
                text.append(" ALARM");
            }
        }
        self.display.print(text.as_str());
    }

    /// Replace the alarm setting; `None` clears it. An alarm in the past
    /// is due at once.
    pub fn set_alarm(&mut self, alarm: Option<Timestamp>)
        requires
            alarm is Some ==> alarm.unwrap().wf(),
        ensures
            final(self).wf(),
            final(self).model() == set_alarm_model(old(self).model(), alarm),
    {
        self.alarm = alarm;
    }

    /// Clear the alarm and blank the display; idempotent on the clock's
    /// state, and harmless when no alarm was set.
    pub fn disable_alarm(&mut self)
        ensures
            final(self).wf(),
            final(self).model() == disable_alarm_model(old(self).model()),
    {
        self.alarm = None;
        self.display.clear();
    }

    /// Ask the run loop to stop by setting the attached run signal;
    /// idempotent, and without a signal it does nothing.
    pub fn stop(&mut self)
        requires
            old(self).wf(),
        ensures
            final(self).wf(),
            final(self).model() == stop_model(old(self).model()),
    {
        if let Some(signal) = &mut self.signal {
            signal.stop();
        }
    }

    /// The attached run signal has been told to stop.
    pub fn should_stop(&self) -> (r: bool)
        ensures
            r == model_stopped(self.model()),
    {
        match &self.signal {
            Some(signal) => signal.is_stopped(),
            None => false,
        }
    }
}

/// The tick output carries the alarm marker if and only if the alarm
/// fires; otherwise it is exactly the `HH:MM:SS` display of `now`.
pub proof fn lemma_tick_marker_iff(alarm: Option<Timestamp>, now: Timestamp)
    ensures
        alarm_fires(alarm, now) ==> display_text(alarm, now) == time_text(now.time) + " ALARM"@,
        !alarm_fires(alarm, now) ==> display_text(alarm, now) == time_text(now.time),
        ends_with_marker(display_text(alarm, now)) <==> alarm_fires(alarm, now),
{
    reveal_strlit(" ALARM");
    let d = display_text(alarm, now);
    if alarm_fires(alarm, now) {
        assert(d.subrange(d.len() - 6, d.len() as int) =~= " ALARM"@);
    } else {
        assert(d.len() == 8);
        assert(d[2] == ':');
        if ends_with_marker(d) {
            assert(d.subrange(2, 8)[0] == d[2]);
            assert(false);
        }
    }
}

/// `s` ends with the fixed alarm marker.
pub open spec fn ends_with_marker(s: Seq<char>) -> bool {
    s.len() >= 6 && s.subrange(s.len() - 6, s.len() as int) == " ALARM"@
}

/// Once the alarm is disabled, no later tick shows the marker: the very
/// next render of any `now` is the bare `HH:MM:SS` text.
pub proof fn lemma_disable_silences_marker(m: ClockModel, now: Timestamp)
    ensures
        tick_model(disable_alarm_model(m), now).history.last() == DisplayCall::Printed(
            time_text(now.time),
        ),
        !ends_with_marker(display_text(disable_alarm_model(m).alarm, now)),
{
    lemma_tick_marker_iff(None, now);
}

/// Setting the alarm twice keeps only the last setting: the state after
/// `SetAlarm(a); SetAlarm(b)` is the state after `SetAlarm(b)` alone.
pub proof fn lemma_set_alarm_last_write_wins(m: ClockModel, a: Option<Timestamp>, b: Option<
    Timestamp,
>)
    ensures
        set_alarm_model(set_alarm_model(m, a), b) == set_alarm_model(m, b),
{
}

/// Disabling the alarm twice leaves the same clock state as disabling it
/// once: the alarm stays cleared and the stop flag is untouched. Only the
/// display is blanked a second time.
pub proof fn lemma_disable_alarm_idempotent(m: ClockModel)
    ensures
        disable_alarm_model(disable_alarm_model(m)).alarm == disable_alarm_model(m).alarm,
        disable_alarm_model(disable_alarm_model(m)).signal == disable_alarm_model(m).signal,
{
}

} // verus!
