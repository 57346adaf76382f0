//! The frame loop as a state machine.
//!
//! One iteration passes through four phases: it drains the platform's events,
//! decides whether the widget tree has to be rebuilt, decides whether the
//! frame has to be redrawn, and waits. The caller reports to [`step`] what it
//! observed in the current phase; [`step`] answers with the actions to carry
//! out, in order, and with the state to go on from. The loop ends when an
//! event that ends it is polled, and in no other way.

use vstd::prelude::*;
use crate::event::PlatformEvent;
use crate::geometry::{resize_for, Dimensions, Measurement};

verus! {

/// How long the loop waits at the end of an iteration, in milliseconds: about
/// one refresh of the display. It bounds the load on the processor; it does
/// not pace the frames.
pub const IDLE_MILLIS: u64 = 16;

/// A colour with eight bits for each of red, green, blue and alpha.
#[derive(Clone, Copy, Debug, PartialEq, Eq, Structural)]
pub struct Color {
    pub red: u8,
    pub green: u8,
    pub blue: u8,
    pub alpha: u8,
}

/// The colour that every frame is cleared to: opaque red.
pub open spec fn background() -> Color {
    Color { red: 255, green: 0, blue: 0, alpha: 255 }
}

/// The colour that every frame is cleared to.
pub fn background_color() -> (color: Color)
    ensures
        color == background(),
{
    Color { red: 255, green: 0, blue: 0, alpha: 255 }
}

/// The four phases of one iteration, in the order in which they follow each
/// other.
#[derive(Clone, Copy, Debug, PartialEq, Eq, Structural)]
pub enum Phase {
    PollEvents,
    MaybeRebuildWidgets,
    MaybeRedraw,
    Idle,
}

/// Where the loop stands.
#[derive(Clone, Copy, Debug, PartialEq, Eq, Structural)]
pub enum LoopState {
    /// The loop runs and is in the given phase.
    Running(Phase),
    /// An event has ended the loop. Nothing follows.
    Terminated,
}

/// What the caller observed in the current phase.
#[derive(Clone, Copy, Debug, PartialEq, Eq)]
pub enum Report {
    /// While polling: the platform handed out its next pending event.
    /// `convertible` says whether the toolkit has an input for it.
    Polled { event: PlatformEvent, convertible: bool },
    /// While polling: no event is pending any more. The caller has measured
    /// the user interface and the window, or found that the user interface
    /// has no root rectangle.
    Drained { measured: Option<Measurement> },
    /// Before a rebuild: whether the user interface has received any input
    /// since the widgets were last rebuilt.
    PendingInput { any: bool },
    /// Before a redraw: whether the render primitives differ from those that
    /// were drawn last.
    PrimitivesChanged { changed: bool },
    /// While idle: there is nothing to observe.
    Rest,
}

/// One thing for the caller to do.
#[derive(Clone, Copy, Debug, PartialEq, Eq)]
pub enum Action {
    /// Hand the toolkit's input for this event to the user interface.
    Forward(PlatformEvent),
    /// Hand a resize to this size to the user interface, past the event
    /// queue.
    Resize(Dimensions),
    /// Declare the widget tree anew from the application state.
    Rebuild,
    /// Take the render primitives from the user interface and fill the
    /// renderer with them.
    Fill,
    /// Clear the frame buffer to this colour.
    Clear(Color),
    /// Issue the draw commands.
    Draw,
    /// Present the finished frame.
    Present,
    /// Sleep for this many milliseconds.
    Sleep(u64),
}

/// The answer to a report: what to do, and where the loop stands after it.
#[derive(Debug, PartialEq, Eq)]
pub struct Transition {
    pub next: LoopState,
    pub actions: Vec<Action>,
}

/// The actions that a polled event asks for: it is forwarded where the
/// toolkit has an input for it, and dropped where it has none.
pub open spec fn forward_actions(event: PlatformEvent, convertible: bool) -> Seq<Action> {
    if convertible {
        seq![Action::Forward(event)]
    } else {
        Seq::empty()
    }
}

/// The actions of a reconciliation: one resize to the size of the window
/// where the measured sizes differ, and nothing otherwise.
pub open spec fn resize_actions(measured: Option<Measurement>) -> Seq<Action> {
    match resize_for(measured) {
        Some(size) => seq![Action::Resize(size)],
        None => Seq::empty(),
    }
}

/// The actions of the rebuild phase: one rebuild where input is pending, and
/// nothing otherwise.
pub open spec fn rebuild_actions(pending: bool) -> Seq<Action> {
    if pending {
        seq![Action::Rebuild]
    } else {
        Seq::empty()
    }
}

/// The actions of the redraw phase: fill, clear, draw and present, once and
/// in this order, where the primitives changed, and nothing otherwise.
pub open spec fn redraw_actions(changed: bool) -> Seq<Action> {
    if changed {
        seq![Action::Fill, Action::Clear(background()), Action::Draw, Action::Present]
    } else {
        Seq::empty()
    }
}

/// The actions of the idle phase: the one fixed wait.
pub open spec fn idle_actions() -> Seq<Action> {
    seq![Action::Sleep(IDLE_MILLIS)]
}

/// The transition relation. A report that does not belong to the current
/// phase has no transition, and neither has any report once the loop has
/// ended.
pub open spec fn step_spec(state: LoopState, report: Report) -> Option<(LoopState, Seq<Action>)> {
    match (state, report) {
        (LoopState::Running(Phase::PollEvents), Report::Polled { event, convertible }) => Some(
            (
                if event.ends_loop() {
                    LoopState::Terminated
                } else {
                    LoopState::Running(Phase::PollEvents)
                },
                forward_actions(event, convertible),
            ),
        ),
        (LoopState::Running(Phase::PollEvents), Report::Drained { measured }) => Some(
            (LoopState::Running(Phase::MaybeRebuildWidgets), resize_actions(measured)),
        ),
        (LoopState::Running(Phase::MaybeRebuildWidgets), Report::PendingInput { any }) => Some(
            (LoopState::Running(Phase::MaybeRedraw), rebuild_actions(any)),
        ),
        (LoopState::Running(Phase::MaybeRedraw), Report::PrimitivesChanged { changed }) => Some(
            (LoopState::Running(Phase::Idle), redraw_actions(changed)),
        ),
        (LoopState::Running(Phase::Idle), Report::Rest) => Some(
            (LoopState::Running(Phase::PollEvents), idle_actions()),
        ),
        _ => None,
    }
}

/// The state that the loop starts in.
pub fn initial_state() -> (state: LoopState)
    ensures
        state == LoopState::Running(Phase::PollEvents),
{
    LoopState::Running(Phase::PollEvents)
}

/// Takes one step of the loop: answers the report of the current phase with
/// the actions to carry out and the state that follows.
///
/// Returns `None`, and asks for nothing, where the report does not belong to
/// the phase that the loop is in, or where the loop has ended.
pub fn step(state: LoopState, report: Report) -> (answer: Option<Transition>)
    ensures
        match step_spec(state, report) {
            Some((next, actions)) => answer matches Some(t) && t.next == next && t.actions@
                == actions,
            None => answer is None,
        },
{
    let phase = match state {
        LoopState::Running(phase) => phase,
        LoopState::Terminated => {
            return None;
        },
    };
    let mut actions: Vec<Action> = Vec::new();
    match (phase, report) {
        (Phase::PollEvents, Report::Polled { event, convertible }) => {
            if convertible {
                actions.push(Action::Forward(event));
            }
            let next = if event.is_termination_trigger() {
                LoopState::Terminated
            } else {
                LoopState::Running(Phase::PollEvents)
            };
            assert(actions@ =~= forward_actions(event, convertible));
            Some(Transition { next, actions })
        },
        (Phase::PollEvents, Report::Drained { measured }) => {
            match crate::geometry::reconcile_size(measured) {
                Some(size) => {
                    actions.push(Action::Resize(size));
                },
                None => {},
            }
            assert(actions@ =~= resize_actions(measured));
            Some(Transition { next: LoopState::Running(Phase::MaybeRebuildWidgets), actions })
        },
        (Phase::MaybeRebuildWidgets, Report::PendingInput { any }) => {
            if any {
                actions.push(Action::Rebuild);
            }
            assert(actions@ =~= rebuild_actions(any));
            Some(Transition { next: LoopState::Running(Phase::MaybeRedraw), actions })
        },
        (Phase::MaybeRedraw, Report::PrimitivesChanged { changed }) => {
            if changed {
                actions.push(Action::Fill);
                actions.push(Action::Clear(background_color()));
                actions.push(Action::Draw);
                actions.push(Action::Present);
            }
            assert(actions@ =~= redraw_actions(changed));
            Some(Transition { next: LoopState::Running(Phase::Idle), actions })
        },
        (Phase::Idle, Report::Rest) => {
            actions.push(Action::Sleep(IDLE_MILLIS));
            assert(actions@ =~= idle_actions());
            Some(Transition { next: LoopState::Running(Phase::PollEvents), actions })
        },
        _ => None,
    }
}

} // verus!
