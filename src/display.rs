//! What a display backend decides on its own: which input events request a
//! shutdown, and what a selected view asks it to draw.
use vstd::prelude::*;

use crate::clock::WallTime;
use crate::lifecycle::{advance_spec, MainLoop, Report, Step, ViewKind};

verus! {

/// A window event, as far as the display reacts to it.
#[derive(Clone, Copy, Debug, PartialEq, Eq, Structural)]
pub enum WindowEvent {
    Close,
    Resized(i32, i32),
    Other,
}

/// An input event drained from the backend's event source.
#[derive(Clone, Copy, Debug, PartialEq, Eq, Structural)]
pub enum DisplayEvent {
    Window(WindowEvent),
    Other,
}

/// What the user asked for in one iteration: the wall clock at a reading, or
/// an alert, whose payload the display only passes on.
#[derive(Clone, Debug)]
pub enum UserInterfaceView<A> {
    Clock(WallTime),
    Alert(A),
}

impl<A> UserInterfaceView<A> {
    /// The kind of view, as the main loop needs it.
    pub fn kind(&self) -> (r: ViewKind)
        ensures
            r == (match self {
                UserInterfaceView::Clock(_) => ViewKind::Clock,
                UserInterfaceView::Alert(_) => ViewKind::Alert,
            }),
    {
        match self {
            UserInterfaceView::Clock(_) => ViewKind::Clock,
            UserInterfaceView::Alert(_) => ViewKind::Alert,
        }
    }
}

/// Whether a sequence of events holds a request to close the window.
pub open spec fn holds_close(events: Seq<DisplayEvent>) -> bool {
    exists|i: int| 0 <= i < events.len() && events[i] == DisplayEvent::Window(WindowEvent::Close)
}

proof fn lemma_holds_close_push(events: Seq<DisplayEvent>, e: DisplayEvent)
    ensures
        holds_close(events.push(e)) == (holds_close(events) || e == DisplayEvent::Window(WindowEvent::Close)),
{
    let next = events.push(e);
    if holds_close(events) {
        let w = choose|w: int| 0 <= w < events.len() && events[w] == DisplayEvent::Window(WindowEvent::Close);
        assert(next[w] == events[w]);
    }
    if e == DisplayEvent::Window(WindowEvent::Close) {
        assert(next[events.len() as int] == e);
    }
    if holds_close(next) {
        let w = choose|w: int| 0 <= w < next.len() && next[w] == DisplayEvent::Window(WindowEvent::Close);
        if w < events.len() {
            assert(events[w] == next[w]);
        }
    }
}

/// The state a backend keeps between frames of its own accord.
#[derive(Clone, Copy, Debug, PartialEq, Eq, Structural)]
pub struct DisplayFlags {
    pub is_exit_requested: bool,
}

impl DisplayFlags {
    pub fn new() -> (r: DisplayFlags)
        ensures
            !r.is_exit_requested,
    {
        DisplayFlags { is_exit_requested: false }
    }

    /// A close request sets the shutdown flag; other window events are ignored.
    pub fn handle_window_event(&mut self, event: WindowEvent)
        ensures
            final(self).is_exit_requested == (old(self).is_exit_requested || event == WindowEvent::Close),
    {
        match event {
            WindowEvent::Close => {
                self.is_exit_requested = true;
            },
            WindowEvent::Resized(..) => {},
            WindowEvent::Other => {},
        }
    }

    /// Handles all events drained in one iteration, in order; events that are
    /// not window events are ignored.
    pub fn handle_events(&mut self, events: &Vec<DisplayEvent>)
        ensures
            final(self).is_exit_requested == (old(self).is_exit_requested || holds_close(events@)),
    {
        let mut i: usize = 0;
        while i < events.len()
            invariant
                i <= events.len(),
                self.is_exit_requested == (old(self).is_exit_requested || holds_close(events@.take(i as int))),
            decreases events.len() - i,
        {
            if let DisplayEvent::Window(e) = events[i] {
                self.handle_window_event(e);
            }
            proof {
                lemma_holds_close_push(events@.take(i as int), events@[i as int]);
                assert(events@.take(i as int + 1) == events@.take(i as int).push(events@[i as int]));
            }
            i = i + 1;
        }
        assert(events@.take(events.len() as int) == events@);
    }

    /// Whether a shutdown has been requested; never blocks.
    pub fn is_shutdown_requested(&self) -> (r: bool)
        ensures
            r == self.is_exit_requested,
    {
        self.is_exit_requested
    }
}

/// A close request drained in `handle_events` makes the loop's next shutdown
/// check lead to clean-up, so that iteration renders nothing.
pub proof fn lemma_close_suppresses_render(before: DisplayFlags, after: DisplayFlags, events: Seq<DisplayEvent>, m: MainLoop)
    requires
        after.is_exit_requested == (before.is_exit_requested || holds_close(events)),
        holds_close(events),
        m.step == Step::CheckShutdown,
    ensures
        advance_spec(m, Report::ShutdownRequested(after.is_exit_requested)).step == Step::Cleanup,
{
}

} // verus!
