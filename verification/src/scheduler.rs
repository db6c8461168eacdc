//! The event scheduler logic: the single stream of timer and keyboard
//! events, the dispatch of each event to the clock state machine, and the
//! run over an event stream that halts once the stop flag is observed. The
//! surrounding binary supplies the real timer, the real keyboard channel
//! and the wall clock; every decision is taken here.

use crate::clock::{
    disable_alarm_model, model_stopped, stop_model, tick_model, AlarmClock, ClockModel,
};
use crate::display::DisplayDevice;
use crate::time::Timestamp;
use vstd::prelude::*;

verus! {

/// The keycode that disables the alarm (the Enter key).
pub const DISABLE_KEY: u8 = 10;

/// The keycode that stops the run (the letter q).
pub const QUIT_KEY: u8 = 113;

/// One event the scheduler can be handed: a timer firing carrying the
/// wall-clock reading taken at that moment, or one keypress code.
#[derive(Clone, Copy, PartialEq, Eq, Structural, Debug)]
pub enum SchedulerEvent {
    Timer(Timestamp),
    Key(u8),
}

/// A timer event carries a well-formed reading.
pub open spec fn event_wf(e: SchedulerEvent) -> bool {
    match e {
        SchedulerEvent::Timer(now) => now.wf(),
        SchedulerEvent::Key(_) => true,
    }
}

/// What one keypress does to the clock: the disable key clears the alarm,
/// the quit key requests a stop, every other code is ignored.
pub open spec fn handle_key_model(m: ClockModel, code: u8) -> ClockModel {
    if code == DISABLE_KEY {
        disable_alarm_model(m)
    } else if code == QUIT_KEY {
        stop_model(m)
    } else {
        m
    }
}

/// What one dispatched event does to the clock.
pub open spec fn step_model(m: ClockModel, e: SchedulerEvent) -> ClockModel {
    match e {
        SchedulerEvent::Timer(now) => tick_model(m, now),
        SchedulerEvent::Key(code) => handle_key_model(m, code),
    }
}

/// A run over an event stream: events are dispatched strictly in order,
/// one at a time, and dispatching ends as soon as the stop flag is
/// observed at the top of an iteration.
pub open spec fn run_model(m: ClockModel, events: Seq<SchedulerEvent>) -> ClockModel
    decreases events.len(),
{
    if events.len() == 0 || model_stopped(m) {
        m
    } else {
        run_model(step_model(m, events[0]), events.drop_first())
    }
}

impl<D: DisplayDevice> AlarmClock<D> {
    /// Inspect one keypress: the disable key clears the alarm and blanks
    /// the display, the quit key sets the run signal, anything else
    /// changes nothing.
    pub fn handle_key(&mut self, code: u8)
        requires
            old(self).wf(),
        ensures
            final(self).wf(),
            final(self).model() == handle_key_model(old(self).model(), code),
    {
        if code == DISABLE_KEY {
            self.disable_alarm();
        } else if code == QUIT_KEY {
            self.stop();
        }
    }

    /// Dispatch one event: a timer firing renders a tick and asks for the
    /// timer to be re-armed; a keypress is inspected and the timer is left
    /// alone.
    pub fn dispatch(&mut self, event: SchedulerEvent) -> (rearm: bool)
        requires
            old(self).wf(),
            event_wf(event),
        ensures
            final(self).wf(),
            final(self).model() == step_model(old(self).model(), event),
            rearm == (event is Timer),
    {
        match event {
            SchedulerEvent::Timer(now) => {
                self.tick(now);
                true
            },
            SchedulerEvent::Key(code) => {
                self.handle_key(code);
                false
            },
        }
    }

    /// Run over a whole event stream, strictly in order, stopping at the
    /// first iteration that observes the stop flag; no event is dispatched
    /// after that.
    pub fn run_events(&mut self, events: &Vec<SchedulerEvent>)
        requires
            old(self).wf(),
            forall|i: int| 0 <= i < events@.len() ==> event_wf(#[trigger] events@[i]),
        ensures
            final(self).wf(),
            final(self).model() == run_model(old(self).model(), events@),
    {
        let ghost m0 = self.model();
        let mut i: usize = 0;
        proof {
            assert(events@.skip(0) =~= events@);
        }
        while i < events.len() && !self.should_stop()
            invariant
                self.wf(),
                i <= events@.len(),
                forall|j: int| 0 <= j < events@.len() ==> event_wf(#[trigger] events@[j]),
                run_model(m0, events@) == run_model(self.model(), events@.skip(i as int)),
            decreases events@.len() - i,
        {
            self.dispatch(events[i]);
            proof {
                assert(events@.skip(i as int).drop_first() =~= events@.skip(i as int + 1));
                assert(events@.skip(i as int)[0] == events@[i as int]);
            }
            i = i + 1;
        }
        proof {
            if i < events@.len() {
                assert(model_stopped(self.model()));
            } else {
                assert(events@.skip(i as int) =~= Seq::<SchedulerEvent>::empty());
            }
        }
    }
}

/// The keyboard reader's own exit rule: it forwards every code and stops
/// reading right after the quit key.
pub fn key_stops_reader(code: u8) -> (r: bool)
    ensures
        r == (code == QUIT_KEY),
{
    code == QUIT_KEY
}

/// Once the stop flag is observed, a run dispatches nothing: no further
/// tick is rendered and no key is inspected, whatever events are pending.
pub proof fn lemma_stopped_run_is_noop(m: ClockModel, events: Seq<SchedulerEvent>)
    requires
        model_stopped(m),
    ensures
        run_model(m, events) == m,
{
}

/// With a run signal attached, the quit key stops the run: the event that
/// carries it is the last one dispatched, and the whole remaining stream
/// is ignored.
pub proof fn lemma_quit_halts_run(m: ClockModel, rest: Seq<SchedulerEvent>)
    requires
        m.signal is Some,
    ensures
        run_model(m, seq![SchedulerEvent::Key(QUIT_KEY)] + rest) == step_model(
            m,
            SchedulerEvent::Key(QUIT_KEY),
        ),
{
    let events = seq![SchedulerEvent::Key(QUIT_KEY)] + rest;
    assert(events[0] == SchedulerEvent::Key(QUIT_KEY));
    assert(events.drop_first() =~= rest);
    if model_stopped(m) {
        assert(step_model(m, SchedulerEvent::Key(QUIT_KEY)) == stop_model(m));
        assert(stop_model(m) == m);
    } else {
        let stopped = step_model(m, SchedulerEvent::Key(QUIT_KEY));
        assert(model_stopped(stopped));
        lemma_stopped_run_is_noop(stopped, rest);
    }
}

} // verus!
