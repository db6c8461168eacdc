//! The display collaborator: a device that renders one line of text in
//! place or blanks it. Verified code speaks of a device through the ghost
//! history of the calls it received; an in-memory recorder keeps that
//! history as data for tests, and a terminal writer keeps it as ghost state
//! while writing to the real console.

use std::io::Write;
use vstd::prelude::*;

verus! {

/// One call a display device received.
pub enum DisplayCall {
    Printed(Seq<char>),
    Cleared,
}

/// A device that renders a line of text in place or blanks it.
///
/// Every implementation tracks the full sequence of calls it received, so
/// that contracts can say exactly what was put on the screen and when it
/// was wiped.
pub trait DisplayDevice: Sized {
    /// All calls this device has received, oldest first.
    spec fn history(&self) -> Seq<DisplayCall>;

    /// Render `text`, overwriting whatever the previous call rendered.
    fn print(&mut self, text: &str)
        ensures
            final(self).history() == old(self).history().push(
                DisplayCall::Printed(text@),
            ),
    ;

    /// Blank the previously rendered line.
    fn clear(&mut self)
        ensures
            final(self).history() == old(self).history().push(DisplayCall::Cleared),
    ;
}

/// One recorded call, as plain data a test can inspect.
#[derive(Debug)]
pub enum RecordedCall {
    Printed(String),
    Cleared,
}

impl View for RecordedCall {
    type V = DisplayCall;

    open spec fn view(&self) -> DisplayCall {
        match self {
            RecordedCall::Printed(text) => DisplayCall::Printed(text@),
            RecordedCall::Cleared => DisplayCall::Cleared,
        }
    }
}

/// An in-memory display device: it renders nothing and keeps every call as
/// data, oldest first.
pub struct Recorder {
    pub calls: Vec<RecordedCall>,
}

impl Recorder {
    pub fn new() -> (r: Recorder)
        ensures
            r.history() == Seq::<DisplayCall>::empty(),
    {
        let r = Recorder { calls: Vec::new() };
        proof {
            assert(r.history() =~= Seq::<DisplayCall>::empty());
        }
        r
    }
}

impl DisplayDevice for Recorder {
    open spec fn history(&self) -> Seq<DisplayCall> {
        self.calls@.map_values(|c: RecordedCall| c@)
    }

    fn print(&mut self, text: &str) {
        self.calls.push(RecordedCall::Printed(text.to_owned()));
        proof {
            assert(self.history() =~= old(self).history().push(DisplayCall::Printed(text@)));
        }
    }

    fn clear(&mut self) {
        self.calls.push(RecordedCall::Cleared);
        proof {
            assert(self.history() =~= old(self).history().push(DisplayCall::Cleared));
        }
    }
}

/// Writes the rendered text to the controlling terminal, overwriting the
/// current line in place; write errors are ignored, as a broken output
/// stream does not affect the alarm logic.
///
/// Relies on std::io::Stdout: `write!` puts the bytes on standard output
/// and `flush` pushes them out; neither reads or decides anything.
#[verifier::external_body]
fn console_write_line(text: &str) {
    let mut out = std::io::stdout();
    let _ = write!(out, "\r{}", text);
    let _ = out.flush();
}

/// Blanks the current terminal line by overwriting it with spaces.
///
/// Relies on std::io::Stdout: `write!` puts the bytes on standard output
/// and `flush` pushes them out; neither reads or decides anything.
#[verifier::external_body]
fn console_blank_line() {
    let mut out = std::io::stdout();
    let _ = write!(out, "\r                        \r");
    let _ = out.flush();
}

/// The real display device: a terminal line, rewritten in place. The call
/// history is ghost: it records what was written without storing it.
pub struct Console {
    pub history: Ghost<Seq<DisplayCall>>,
}

impl Console {
    pub fn new() -> (r: Console)
        ensures
            r.history() == Seq::<DisplayCall>::empty(),
    {
        Console { history: Ghost(Seq::empty()) }
    }
}

impl DisplayDevice for Console {
    open spec fn history(&self) -> Seq<DisplayCall> {
        self.history@
    }

    fn print(&mut self, text: &str) {
        console_write_line(text);
        proof {
            self.history@ = self.history@.push(DisplayCall::Printed(text@));
        }
    }

    fn clear(&mut self) {
        console_blank_line();
        proof {
            self.history@ = self.history@.push(DisplayCall::Cleared);
        }
    }
}

} // verus!
