//! Whole runs of the frame loop, and what holds of every one of them.
//!
//! [`run`] folds the transition relation over a sequence of reports. The
//! theorems below speak of it: of what one iteration asks the caller to do,
//! of how often it asks, and of what follows the end of the loop.

use vstd::prelude::*;
use crate::event::PlatformEvent;
use crate::frame::{
    background, forward_actions, idle_actions, rebuild_actions, redraw_actions, resize_actions,
    step, step_spec, Action, Color, LoopState, Phase, Report, Transition,
};
use crate::geometry::{resize_for, Dimensions, Measurement};

verus! {

/// The state that the loop reaches from `state` after the given reports, and
/// every action that it asked for on the way, in order. A report that has no
/// transition changes nothing and asks for nothing.
pub open spec fn run(state: LoopState, reports: Seq<Report>) -> (LoopState, Seq<Action>)
    decreases reports.len(),
{
    if reports.len() == 0 {
        (state, Seq::empty())
    } else {
        let before = run(state, reports.drop_last());
        match step_spec(before.0, reports.last()) {
            Some((next, actions)) => (next, before.1 + actions),
            None => before,
        }
    }
}

/// How often an action occurs among the given ones.
pub open spec fn count(actions: Seq<Action>, wanted: Action) -> nat
    decreases actions.len(),
{
    if actions.len() == 0 {
        0
    } else {
        count(actions.drop_last(), wanted) + if actions.last() == wanted {
            1nat
        } else {
            0nat
        }
    }
}

/// The reports of a poll that hands out the given events, each with the flag
/// that says whether the toolkit has an input for it.
pub open spec fn polled(events: Seq<(PlatformEvent, bool)>) -> Seq<Report> {
    Seq::new(
        events.len(),
        |i: int| Report::Polled { event: events[i].0, convertible: events[i].1 },
    )
}

/// The forwards that a poll of the given events asks for: one for each event
/// that the toolkit has an input for, in the order of the events.
pub open spec fn forwarded(events: Seq<(PlatformEvent, bool)>) -> Seq<Action>
    decreases events.len(),
{
    if events.len() == 0 {
        Seq::empty()
    } else {
        forwarded(events.drop_last()) + forward_actions(events.last().0, events.last().1)
    }
}

/// None of the given events ends the loop.
pub open spec fn none_ends_loop(events: Seq<(PlatformEvent, bool)>) -> bool {
    forall|i: int| 0 <= i < events.len() ==> !(#[trigger] events[i]).0.ends_loop()
}

/// The reports of one whole iteration: the events of the poll, the
/// measurement at its end, the answer to whether input is pending, the answer
/// to whether the primitives changed, and the rest.
pub open spec fn iteration_reports(
    events: Seq<(PlatformEvent, bool)>,
    measured: Option<Measurement>,
    pending: bool,
    changed: bool,
) -> Seq<Report> {
    polled(events) + seq![
        Report::Drained { measured },
        Report::PendingInput { any: pending },
        Report::PrimitivesChanged { changed },
        Report::Rest,
    ]
}

/// What one whole iteration asks the caller to do, in order.
pub open spec fn iteration_actions(
    events: Seq<(PlatformEvent, bool)>,
    measured: Option<Measurement>,
    pending: bool,
    changed: bool,
) -> Seq<Action> {
    forwarded(events) + resize_actions(measured) + rebuild_actions(pending) + redraw_actions(
        changed,
    ) + idle_actions()
}

/// Runs the loop from `state` over recorded reports and returns where it
/// stands afterwards, with every action that it asked for.
pub fn replay(state: LoopState, reports: &Vec<Report>) -> (end: Transition)
    ensures
        (end.next, end.actions@) == run(state, reports@),
{
    let mut current = state;
    let mut actions: Vec<Action> = Vec::new();
    let mut i: usize = 0;
    while i < reports.len()
        invariant
            i <= reports.len(),
            (current, actions@) == run(state, reports@.take(i as int)),
        decreases reports.len() - i,
    {
        proof {
            let upto = reports@.take(i + 1);
            assert(upto.drop_last() =~= reports@.take(i as int));
            assert(upto.last() == reports@[i as int]);
        }
        match step(current, reports[i]) {
            Some(transition) => {
                let Transition { next, actions: mut asked } = transition;
                current = next;
                actions.append(&mut asked);
            },
            None => {},
        }
        i = i + 1;
    }
    proof {
        assert(reports@.take(i as int) =~= reports@);
    }
    Transition { next: current, actions }
}

/// Running over two sequences of reports, one after the other, is running
/// over the second from where the first one ended.
pub proof fn run_concat(state: LoopState, first: Seq<Report>, second: Seq<Report>)
    ensures
        run(state, first + second) == (
            run(run(state, first).0, second).0,
            run(state, first).1 + run(run(state, first).0, second).1,
        ),
    decreases second.len(),
{
    let mid = run(state, first);
    if second.len() == 0 {
        assert(first + second =~= first);
        assert(mid.1 + Seq::<Action>::empty() =~= mid.1);
    } else {
        run_concat(state, first, second.drop_last());
        assert((first + second).drop_last() =~= first + second.drop_last());
        assert((first + second).last() == second.last());
        let before = run(mid.0, second.drop_last());
        match step_spec(before.0, second.last()) {
            Some((next, actions)) => {
                assert((mid.1 + before.1) + actions =~= mid.1 + (before.1 + actions));
            },
            None => {},
        }
    }
}

/// Counting over two sequences of actions, one after the other, adds up.
pub proof fn count_concat(first: Seq<Action>, second: Seq<Action>, wanted: Action)
    ensures
        count(first + second, wanted) == count(first, wanted) + count(second, wanted),
    decreases second.len(),
{
    if second.len() == 0 {
        assert(first + second =~= first);
    } else {
        count_concat(first, second.drop_last(), wanted);
        assert((first + second).drop_last() =~= first + second.drop_last());
        assert((first + second).last() == second.last());
    }
}

/// Once the loop has ended it stays ended: whatever is reported afterwards,
/// it asks for nothing.
pub proof fn terminated_is_final(reports: Seq<Report>)
    ensures
        run(LoopState::Terminated, reports) == (LoopState::Terminated, Seq::<Action>::empty()),
    decreases reports.len(),
{
    if reports.len() > 0 {
        terminated_is_final(reports.drop_last());
    }
}

/// None of the given reports is the poll of an event that ends the loop.
pub open spec fn no_trigger_polled(reports: Seq<Report>) -> bool {
    forall|i: int|
        0 <= i < reports.len() ==> match #[trigger] reports[i] {
            Report::Polled { event, convertible } => !event.ends_loop(),
            _ => true,
        }
}

/// The loop ends in no other way than by an event that ends it: as long as
/// no such event is polled it keeps running, whatever else is reported.
pub proof fn runs_until_triggered(phase: Phase, reports: Seq<Report>)
    requires
        no_trigger_polled(reports),
    ensures
        run(LoopState::Running(phase), reports).0 is Running,
    decreases reports.len(),
{
    if reports.len() > 0 {
        let shorter = reports.drop_last();
        assert(no_trigger_polled(shorter)) by {
            assert forall|i: int| 0 <= i < shorter.len() implies match #[trigger] shorter[i] {
                Report::Polled { event, convertible } => !event.ends_loop(),
                _ => true,
            } by {
                assert(shorter[i] == reports[i]);
            }
        }
        runs_until_triggered(phase, shorter);
        let last = reports[reports.len() - 1];
        assert(match last {
            Report::Polled { event, convertible } => !event.ends_loop(),
            _ => true,
        });
    }
}

/// An event that ends the loop ends it on the spot. Let the loop be polling
/// after the reports `before`, and let the next event polled be one that ends
/// it. Then the loop has ended, and all that it asks for from there on,
/// whatever is reported `after`, is to forward that one event where the
/// toolkit has an input for it: no resize, no rebuild, no drawing and no wait.
pub proof fn nothing_follows_termination(
    start: LoopState,
    before: Seq<Report>,
    event: PlatformEvent,
    convertible: bool,
    after: Seq<Report>,
)
    requires
        run(start, before).0 == LoopState::Running(Phase::PollEvents),
        event.ends_loop(),
    ensures
        run(start, before + seq![Report::Polled { event, convertible }] + after) == (
            LoopState::Terminated,
            run(start, before).1 + forward_actions(event, convertible),
        ),
        forall|wanted: Action|
            wanted != Action::Forward(event) ==> count(
                #[trigger] forward_actions(event, convertible),
                wanted,
            ) == 0,
{
    let last = seq![Report::Polled { event, convertible }];
    let so_far = run(start, before);
    run_concat(start, before + last, after);
    run_concat(start, before, last);
    assert(last.drop_last() =~= Seq::<Report>::empty());
    assert(run(so_far.0, last.drop_last()) == (so_far.0, Seq::<Action>::empty()));
    assert(run(so_far.0, last) == (LoopState::Terminated, forward_actions(event, convertible))) by {
        assert(Seq::<Action>::empty() + forward_actions(event, convertible) =~= forward_actions(
            event,
            convertible,
        ));
    }
    terminated_is_final(after);
    let asked = so_far.1 + forward_actions(event, convertible);
    assert(asked + Seq::<Action>::empty() =~= asked);
    assert forall|wanted: Action| wanted != Action::Forward(event) implies count(
        #[trigger] forward_actions(event, convertible),
        wanted,
    ) == 0 by {
        reveal_with_fuel(count, 2);
    }
}

/// A poll of events of which none ends the loop leaves the loop polling, and
/// asks for exactly the forwards of those events.
pub proof fn poll_forwards(events: Seq<(PlatformEvent, bool)>)
    requires
        none_ends_loop(events),
    ensures
        run(LoopState::Running(Phase::PollEvents), polled(events)) == (
            LoopState::Running(Phase::PollEvents),
            forwarded(events),
        ),
    decreases events.len(),
{
    if events.len() > 0 {
        let shorter = events.drop_last();
        assert(none_ends_loop(shorter)) by {
            assert forall|i: int| 0 <= i < shorter.len() implies !(#[trigger] shorter[i]).0.ends_loop() by {
                assert(shorter[i] == events[i]);
            }
        }
        poll_forwards(shorter);
        assert(polled(events).drop_last() =~= polled(shorter));
        assert(!events[events.len() - 1].0.ends_loop());
    }
}

/// One whole iteration. Where none of the polled events ends the loop, the
/// iteration leads from polling back to polling and asks, in this order, for
/// the forwards of the poll, the resize of the reconciliation, the rebuild,
/// the redraw and the wait, each of them as its phase decides.
pub proof fn iteration_trace(
    events: Seq<(PlatformEvent, bool)>,
    measured: Option<Measurement>,
    pending: bool,
    changed: bool,
)
    requires
        none_ends_loop(events),
    ensures
        run(
            LoopState::Running(Phase::PollEvents),
            iteration_reports(events, measured, pending, changed),
        ) == (
            LoopState::Running(Phase::PollEvents),
            iteration_actions(events, measured, pending, changed),
        ),
{
    let start = LoopState::Running(Phase::PollEvents);
    let tail = seq![
        Report::Drained { measured },
        Report::PendingInput { any: pending },
        Report::PrimitivesChanged { changed },
        Report::Rest,
    ];
    poll_forwards(events);
    run_concat(start, polled(events), tail);
    let t1 = tail.take(1);
    let t2 = tail.take(2);
    let t3 = tail.take(3);
    assert(t1.drop_last() =~= Seq::<Report>::empty());
    assert(run(start, Seq::<Report>::empty()) == (start, Seq::<Action>::empty()));
    assert(t2.drop_last() =~= t1);
    assert(t3.drop_last() =~= t2);
    assert(tail.drop_last() =~= t3);
    assert(run(start, t1) == (
        LoopState::Running(Phase::MaybeRebuildWidgets),
        Seq::<Action>::empty() + resize_actions(measured),
    ));
    assert(run(start, t2) == (
        LoopState::Running(Phase::MaybeRedraw),
        Seq::<Action>::empty() + resize_actions(measured) + rebuild_actions(pending),
    ));
    assert(run(start, t3) == (
        LoopState::Running(Phase::Idle),
        Seq::<Action>::empty() + resize_actions(measured) + rebuild_actions(pending)
            + redraw_actions(changed),
    ));
    assert(run(start, tail) == (
        start,
        Seq::<Action>::empty() + resize_actions(measured) + rebuild_actions(pending)
            + redraw_actions(changed) + idle_actions(),
    ));
    assert(forwarded(events) + (Seq::<Action>::empty() + resize_actions(measured)
        + rebuild_actions(pending) + redraw_actions(changed) + idle_actions())
        =~= iteration_actions(events, measured, pending, changed));
}

/// The forwards of a poll hold nothing but forwards.
pub proof fn forwards_only(events: Seq<(PlatformEvent, bool)>, wanted: Action)
    requires
        !(wanted is Forward),
    ensures
        count(forwarded(events), wanted) == 0,
    decreases events.len(),
{
    if events.len() > 0 {
        forwards_only(events.drop_last(), wanted);
        let f = forward_actions(events.last().0, events.last().1);
        count_concat(forwarded(events.drop_last()), f, wanted);
        assert(count(f, wanted) == 0) by {
            reveal_with_fuel(count, 2);
        }
    }
}

/// How often an action occurs in one iteration is the sum of how often it
/// occurs in each of its phases.
proof fn count_by_phase(
    events: Seq<(PlatformEvent, bool)>,
    measured: Option<Measurement>,
    pending: bool,
    changed: bool,
    wanted: Action,
)
    ensures
        count(iteration_actions(events, measured, pending, changed), wanted) == count(
            forwarded(events),
            wanted,
        ) + count(resize_actions(measured), wanted) + count(rebuild_actions(pending), wanted)
            + count(redraw_actions(changed), wanted) + count(idle_actions(), wanted),
{
    let a = forwarded(events);
    let b = resize_actions(measured);
    let c = rebuild_actions(pending);
    let d = redraw_actions(changed);
    let e = idle_actions();
    count_concat(a, b, wanted);
    count_concat(a + b, c, wanted);
    count_concat(a + b + c, d, wanted);
    count_concat(a + b + c + d, e, wanted);
}

/// Resize reconciliation. In an iteration that no event ends, the user
/// interface is handed exactly one synthesized resize where its size and the
/// window's were found to differ, and that resize is to the size of the
/// window; it is handed none where the two sizes agree, or where the user
/// interface has no root rectangle.
pub proof fn resize_once_per_divergence(
    events: Seq<(PlatformEvent, bool)>,
    measured: Option<Measurement>,
    pending: bool,
    changed: bool,
)
    requires
        none_ends_loop(events),
    ensures
        ({
            let asked = run(
                LoopState::Running(Phase::PollEvents),
                iteration_reports(events, measured, pending, changed),
            ).1;
            forall|size: Dimensions|
                #[trigger] count(asked, Action::Resize(size)) == if resize_for(measured) == Some(
                    size,
                ) {
                    1nat
                } else {
                    0nat
                }
        }),
{
    iteration_trace(events, measured, pending, changed);
    let asked = iteration_actions(events, measured, pending, changed);
    assert forall|size: Dimensions|
        #[trigger] count(asked, Action::Resize(size)) == if resize_for(measured) == Some(size) {
            1nat
        } else {
            0nat
        } by {
        let wanted = Action::Resize(size);
        count_by_phase(events, measured, pending, changed, wanted);
        forwards_only(events, wanted);
        reveal_with_fuel(count, 5);
    }
}

/// Rebuild gating. In an iteration that no event ends, the widget tree is
/// rebuilt once where the user interface has received input since the last
/// rebuild, and not at all where it has received none.
pub proof fn rebuild_once_when_input_pending(
    events: Seq<(PlatformEvent, bool)>,
    measured: Option<Measurement>,
    pending: bool,
    changed: bool,
)
    requires
        none_ends_loop(events),
    ensures
        count(
            run(
                LoopState::Running(Phase::PollEvents),
                iteration_reports(events, measured, pending, changed),
            ).1,
            Action::Rebuild,
        ) == if pending {
            1nat
        } else {
            0nat
        },
{
    iteration_trace(events, measured, pending, changed);
    count_by_phase(events, measured, pending, changed, Action::Rebuild);
    forwards_only(events, Action::Rebuild);
    reveal_with_fuel(count, 5);
}

/// Redraw gating. In an iteration that no event ends, nothing is drawn where
/// the primitives did not change. Where they changed, the renderer is filled,
/// the frame is cleared to the background colour, drawn and presented, each
/// once and in this order, and after that the iteration only waits before it
/// polls again.
pub proof fn redraw_once_when_changed(
    events: Seq<(PlatformEvent, bool)>,
    measured: Option<Measurement>,
    pending: bool,
    changed: bool,
)
    requires
        none_ends_loop(events),
    ensures
        ({
            let end = run(
                LoopState::Running(Phase::PollEvents),
                iteration_reports(events, measured, pending, changed),
            );
            let once = if changed {
                1nat
            } else {
                0nat
            };
            &&& end.0 == LoopState::Running(Phase::PollEvents)
            &&& end.1 == (forwarded(events) + resize_actions(measured) + rebuild_actions(pending))
                + redraw_actions(changed) + idle_actions()
            &&& count(end.1, Action::Fill) == once
            &&& count(end.1, Action::Draw) == once
            &&& count(end.1, Action::Present) == once
            &&& forall|color: Color|
                #[trigger] count(end.1, Action::Clear(color)) == if color == background() {
                    once
                } else {
                    0nat
                }
        }),
{
    iteration_trace(events, measured, pending, changed);
    let asked = iteration_actions(events, measured, pending, changed);
    count_by_phase(events, measured, pending, changed, Action::Fill);
    forwards_only(events, Action::Fill);
    count_by_phase(events, measured, pending, changed, Action::Draw);
    forwards_only(events, Action::Draw);
    count_by_phase(events, measured, pending, changed, Action::Present);
    forwards_only(events, Action::Present);
    reveal_with_fuel(count, 5);
    assert forall|color: Color|
        #[trigger] count(asked, Action::Clear(color)) == if color == background() {
            if changed {
                1nat
            } else {
                0nat
            }
        } else {
            0nat
        } by {
        count_by_phase(events, measured, pending, changed, Action::Clear(color));
        forwards_only(events, Action::Clear(color));
    }
}

} // verus!
