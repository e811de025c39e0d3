//! The refresh scheduler: what the widget does when the timer fires, when
//! the readings arrive, when the surface wants repainting and when the
//! program ends.
//!
//! The scheduler owns the grid. It never waits and never asks the host
//! anything: each event is answered at once by an action for the program
//! around it to perform.

use crate::color::Color;
use crate::frame::{blit, rotated, FrameBuffer, RenderError};
use crate::layout::Layout;
use crate::matrix::{blank, Matrix};
use crate::reading::{refresh, Readings};
use vstd::prelude::*;

verus! {

/// The seconds between two ticks of the timer.
pub const REFRESH_RATE: u32 = 2;

/// What the scheduler is doing.
#[derive(Clone, Copy, PartialEq, Eq, Structural, Debug)]
pub enum Phase {
    /// Waiting for the next tick or a request to repaint.
    Idle,
    /// A sampling pass was asked for and its readings are awaited.
    Refreshing,
    /// The program is ending; nothing is asked for any more.
    Stopped,
}

/// What can happen to the scheduler.
#[derive(Clone, Copy, Debug)]
pub enum Event {
    /// The timer fired.
    Tick,
    /// A sampling pass ended with these readings.
    Sampled(Readings),
    /// The surface was exposed and wants repainting.
    Redraw,
    /// The surface refused a frame.
    PresentFailed,
    /// The program is asked to end.
    Shutdown,
}

/// What the program around the scheduler is to do next.
#[derive(Clone, Copy, PartialEq, Eq, Structural, Debug)]
pub enum Action {
    /// Nothing.
    Wait,
    /// Run a sampling pass, away from the painting, and hand in its readings.
    Sample,
    /// Copy the grid into the frame buffer and show it.
    Present,
    /// Stop the timer and leave the event loop.
    Stop,
}

/// The phase that follows an event.
pub open spec fn next_phase(phase: Phase, event: Event) -> Phase {
    match (phase, event) {
        (Phase::Stopped, _) => Phase::Stopped,
        (_, Event::Shutdown) => Phase::Stopped,
        (_, Event::PresentFailed) => Phase::Stopped,
        (Phase::Idle, Event::Tick) => Phase::Refreshing,
        (Phase::Refreshing, Event::Sampled(_)) => Phase::Idle,
        (phase, _) => phase,
    }
}

/// The action that answers an event.
pub open spec fn action_for(phase: Phase, event: Event) -> Action {
    match (phase, event) {
        (Phase::Stopped, _) => Action::Wait,
        (_, Event::Shutdown) => Action::Stop,
        (_, Event::PresentFailed) => Action::Stop,
        (Phase::Idle, Event::Tick) => Action::Sample,
        (Phase::Refreshing, Event::Sampled(_)) => Action::Present,
        (_, Event::Redraw) => Action::Present,
        (_, _) => Action::Wait,
    }
}

/// The grid after an event: composed anew from the readings that a pass
/// brings while one is awaited, and untouched by everything else.
pub open spec fn next_grid(phase: Phase, event: Event, layout: Layout, grid: Seq<Seq<Color>>) -> Seq<
    Seq<Color>,
> {
    match (phase, event) {
        (Phase::Refreshing, Event::Sampled(readings)) => readings.shown(layout),
        (_, _) => grid,
    }
}

/// The phase after a run of events.
pub open spec fn phase_after(phase: Phase, events: Seq<Event>) -> Phase
    decreases events.len(),
{
    if events.len() == 0 {
        phase
    } else {
        next_phase(phase_after(phase, events.drop_last()), events.last())
    }
}

/// The scheduler: its phase, the layout of the widget and the grid that it
/// keeps current.
#[derive(Debug)]
pub struct Scheduler {
    phase: Phase,
    layout: Layout,
    matrix: Matrix,
}

impl Scheduler {
    /// What the scheduler is doing.
    pub closed spec fn spec_phase(&self) -> Phase {
        self.phase
    }

    /// The grid.
    pub closed spec fn spec_matrix(&self) -> &Matrix {
        &self.matrix
    }

    /// The layout.
    pub closed spec fn spec_layout(&self) -> Layout {
        self.layout
    }

    /// The grid is whole, and it has the measures of the layout.
    pub open spec fn wf(self) -> bool {
        &&& self.layout().wf()
        &&& self.matrix().wf()
        &&& self.matrix().fits(self.layout())
    }

    /// A scheduler at rest, with a grid of the layout's measures in which
    /// every pixel is background.
    pub fn new(layout: Layout) -> (scheduler: Scheduler)
        requires
            layout.wf(),
        ensures
            scheduler.wf(),
            scheduler.phase() == Phase::Idle,
            scheduler.layout() == layout,
            scheduler.matrix()@ == blank(layout),
    {
        Scheduler { phase: Phase::Idle, layout, matrix: Matrix::new(layout) }
    }

    /// The layout.
    #[verifier::when_used_as_spec(spec_layout)]
    pub fn layout(&self) -> (layout: Layout)
        ensures
            layout == self.layout(),
    {
        self.layout
    }

    /// What the scheduler is doing.
    #[verifier::when_used_as_spec(spec_phase)]
    pub fn phase(&self) -> (phase: Phase)
        ensures
            phase == self.phase(),
    {
        self.phase
    }

    /// The grid.
    #[verifier::when_used_as_spec(spec_matrix)]
    pub fn matrix(&self) -> (matrix: &Matrix)
        ensures
            matrix == self.matrix(),
    {
        &self.matrix
    }

    /// Takes one event and says what to do about it.
    ///
    /// A tick at rest asks for a sampling pass; a tick while one is awaited is
    /// dropped. The readings of an awaited pass are composed into the grid,
    /// which is then to be presented; readings that nobody asked for are
    /// dropped. A request to repaint presents the grid as it is, without
    /// sampling. A refused frame and a request to end both stop the scheduler
    /// for good.
    pub fn step(&mut self, event: Event) -> (action: Action)
        requires
            old(self).wf(),
            event matches Event::Sampled(readings) ==> readings.wf(),
        ensures
            final(self).wf(),
            final(self).phase() == next_phase(old(self).phase(), event),
            action == action_for(old(self).phase(), event),
            final(self).layout() == old(self).layout(),
            final(self).matrix()@ == next_grid(
                old(self).phase(),
                event,
                old(self).layout(),
                old(self).matrix()@,
            ),
    {
        match self.phase {
            Phase::Stopped => Action::Wait,
            Phase::Idle => match event {
                Event::Shutdown => {
                    self.phase = Phase::Stopped;
                    Action::Stop
                },
                Event::PresentFailed => {
                    self.phase = Phase::Stopped;
                    Action::Stop
                },
                Event::Tick => {
                    self.phase = Phase::Refreshing;
                    Action::Sample
                },
                Event::Redraw => Action::Present,
                Event::Sampled(_) => Action::Wait,
            },
            Phase::Refreshing => match event {
                Event::Shutdown => {
                    self.phase = Phase::Stopped;
                    Action::Stop
                },
                Event::PresentFailed => {
                    self.phase = Phase::Stopped;
                    Action::Stop
                },
                Event::Tick => Action::Wait,
                Event::Redraw => Action::Present,
                Event::Sampled(readings) => {
                    refresh(&mut self.matrix, self.layout, &readings);
                    self.phase = Phase::Idle;
                    Action::Present
                },
            },
        }
    }

    /// Copies the grid, turned by a quarter, into the frame buffer of the
    /// surface. A buffer of other measures than the turned grid is refused
    /// and left as it is.
    pub fn paint(&self, frame: &mut FrameBuffer) -> (done: Result<(), RenderError>)
        requires
            self.wf(),
            old(frame).wf(),
        ensures
            final(frame).wf(),
            final(frame).width() == old(frame).width(),
            final(frame).height() == old(frame).height(),
            done is Ok <==> old(frame).width() == self.layout().rows() && old(frame).height()
                == self.layout().columns(),
            done is Ok ==> final(frame)@ == rotated(self.matrix()@, self.layout().rows()),
            done is Err ==> final(frame)@ == old(frame)@,
    {
        blit(&self.matrix, frame)
    }
}

/// Once stopped, the scheduler stays stopped and asks for nothing more,
/// whatever happens.
pub proof fn lemma_stopped_is_final(events: Seq<Event>)
    ensures
        phase_after(Phase::Stopped, events) == Phase::Stopped,
        forall|event: Event| action_for(Phase::Stopped, event) == Action::Wait,
    decreases events.len(),
{
    if events.len() > 0 {
        lemma_stopped_is_final(events.drop_last());
    }
}

/// A request to end stops the scheduler from every phase, and so does a
/// refused frame; no later event starts it again.
pub proof fn lemma_shutdown_stops(phase: Phase, stop: Event, later: Seq<Event>)
    requires
        stop is Shutdown || stop is PresentFailed,
    ensures
        phase_after(next_phase(phase, stop), later) == Phase::Stopped,
{
    lemma_stopped_is_final(later);
}

/// A request to repaint never samples: it leaves phase and grid as they are,
/// and unless the scheduler is stopped it presents the grid.
pub proof fn lemma_redraw_keeps_grid(phase: Phase, layout: Layout, grid: Seq<Seq<Color>>)
    ensures
        next_phase(phase, Event::Redraw) == phase,
        next_grid(phase, Event::Redraw, layout, grid) == grid,
        phase != Phase::Stopped ==> action_for(phase, Event::Redraw) == Action::Present,
{
}

} // verus!
