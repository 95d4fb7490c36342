use vstd::prelude::*;

verus! {

/// Nanoseconds in one millisecond.
pub const NANOS_PER_MILLI: u128 = 1_000_000;

/// An event that the window's event loop hands to the animation.
#[derive(Clone, Copy, Debug, PartialEq, Eq, Structural)]
pub enum Event {
    /// The window asks for a new frame; `elapsed_nanos` is the time measured
    /// since the previous frame was drawn (or since the animation started).
    RedrawRequested { elapsed_nanos: u64 },
    /// The user asked to close the window.
    CloseRequested,
    /// The event loop has handed out every pending event.
    EventsCleared,
    /// Any other event, which the animation ignores.
    Other,
}

/// How the event loop proceeds after an event has been handled.
#[derive(Clone, Copy, Debug, PartialEq, Eq, Structural)]
pub enum ControlFlow {
    /// Sleep until the next event arrives.
    Wait,
    /// Run again at once, whether or not an event arrived.
    Poll,
    /// Leave the event loop and end the program.
    Exit,
}

/// What the event loop must do on the animation's behalf.
#[derive(Clone, Copy, Debug, PartialEq, Eq, Structural)]
pub enum Action {
    /// Upload the triangle colored for `millis` milliseconds of animation time,
    /// clear the frame and draw it.
    Draw { millis: u128 },
    /// Ask the window for another frame.
    RequestRedraw,
    /// Nothing to do.
    Idle,
}

/// The outcome of handling one event.
#[derive(Clone, Copy, Debug, PartialEq, Eq, Structural)]
pub struct Step {
    pub action: Action,
    pub control_flow: ControlFlow,
}

/// `a + b`, held at `u128::MAX` where the sum does not fit.
pub open spec fn saturating_sum(a: int, b: int) -> int {
    if a + b > u128::MAX { u128::MAX as int } else { a + b }
}

/// The animation clock as it stands after `event`, starting from `total`
/// nanoseconds.
pub open spec fn next_total(total: int, event: Event) -> int {
    match event {
        Event::RedrawRequested { elapsed_nanos } => saturating_sum(total, elapsed_nanos as int),
        _ => total,
    }
}

/// What handling `event` asks of the event loop, once the clock reads
/// `total` nanoseconds after the event.
pub open spec fn step_for(total: int, event: Event) -> Step {
    match event {
        Event::RedrawRequested { .. } => Step {
            action: Action::Draw { millis: (total / NANOS_PER_MILLI as int) as u128 },
            control_flow: ControlFlow::Wait,
        },
        Event::CloseRequested => Step { action: Action::Idle, control_flow: ControlFlow::Exit },
        Event::EventsCleared => Step {
            action: Action::RequestRedraw,
            control_flow: ControlFlow::Poll,
        },
        Event::Other => Step { action: Action::Idle, control_flow: ControlFlow::Wait },
    }
}

/// The animation's state: the time it has run, summed over the frames drawn.
#[derive(Clone, Copy, Debug, PartialEq, Eq, Structural)]
pub struct Animation {
    pub total_nanos: u128,
}

impl Animation {
    /// An animation that has not run yet.
    pub fn new() -> (r: Animation)
        ensures
            r.total_nanos == 0,
    {
        Animation { total_nanos: 0 }
    }

    /// Whole milliseconds of animation time.
    pub fn elapsed_millis(&self) -> (r: u128)
        ensures
            r == self.total_nanos / NANOS_PER_MILLI,
    {
        self.total_nanos / NANOS_PER_MILLI
    }

    /// Handles one event of the window's event loop: a redraw adds the time
    /// since the last frame to the clock and asks for the frame to be drawn,
    /// a close request ends the loop, and once the pending events are handled
    /// another frame is requested at once.
    pub fn step(&mut self, event: Event) -> (r: Step)
        ensures
            final(self).total_nanos == next_total(old(self).total_nanos as int, event),
            r == step_for(final(self).total_nanos as int, event),
    {
        match event {
            Event::RedrawRequested { elapsed_nanos } => {
                let e = elapsed_nanos as u128;
                if self.total_nanos <= u128::MAX - e {
                    self.total_nanos = self.total_nanos + e;
                } else {
                    self.total_nanos = u128::MAX;
                }
                Step {
                    action: Action::Draw { millis: self.elapsed_millis() },
                    control_flow: ControlFlow::Wait,
                }
            },
            Event::CloseRequested => Step { action: Action::Idle, control_flow: ControlFlow::Exit },
            Event::EventsCleared => Step {
                action: Action::RequestRedraw,
                control_flow: ControlFlow::Poll,
            },
            Event::Other => Step { action: Action::Idle, control_flow: ControlFlow::Wait },
        }
    }
}

} // verus!
