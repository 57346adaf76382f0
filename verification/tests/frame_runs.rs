use frame_loop::event::{Key, KeyState, PlatformEvent};
use frame_loop::frame::{Action, Color, LoopState, Phase, Report};
use frame_loop::geometry::{Dimensions, Measurement};
use frame_loop::trace::replay;

const RED: Color = Color { red: 255, green: 0, blue: 0, alpha: 255 };

fn start() -> LoopState {
    LoopState::Running(Phase::PollEvents)
}

fn key(key: Key) -> PlatformEvent {
    PlatformEvent::Keyboard { state: KeyState::Pressed, key: Some(key) }
}

fn measured(ui: (u32, u32), window: (u32, u32)) -> Option<Measurement> {
    Some(Measurement {
        ui: Dimensions { width: ui.0, height: ui.1 },
        window: Dimensions { width: window.0, height: window.1 },
    })
}

fn iteration(
    events: &[(PlatformEvent, bool)],
    measured: Option<Measurement>,
    pending: bool,
    changed: bool,
) -> Vec<Report> {
    let mut reports: Vec<Report> = events
        .iter()
        .map(|(event, convertible)| Report::Polled { event: *event, convertible: *convertible })
        .collect();
    reports.push(Report::Drained { measured });
    reports.push(Report::PendingInput { any: pending });
    reports.push(Report::PrimitivesChanged { changed });
    reports.push(Report::Rest);
    reports
}

fn count(actions: &[Action], wanted: impl Fn(&Action) -> bool) -> usize {
    actions.iter().filter(|action| wanted(action)).count()
}

#[test]
fn replay_of_nothing_changes_nothing() {
    let end = replay(LoopState::Running(Phase::MaybeRedraw), &vec![]);
    assert_eq!(end.next, LoopState::Running(Phase::MaybeRedraw));
    assert_eq!(end.actions, vec![]);
}

#[test]
fn busy_iteration_asks_for_everything_in_order() {
    let events = [(key(Key::Other), true), (PlatformEvent::Other, false), (PlatformEvent::Other, true)];
    let end = replay(start(), &iteration(&events, measured((600, 420), (640, 480)), true, true));
    assert_eq!(end.next, start());
    assert_eq!(
        end.actions,
        vec![
            Action::Forward(key(Key::Other)),
            Action::Forward(PlatformEvent::Other),
            Action::Resize(Dimensions { width: 640, height: 480 }),
            Action::Rebuild,
            Action::Fill,
            Action::Clear(RED),
            Action::Draw,
            Action::Present,
            Action::Sleep(16),
        ]
    );
}

#[test]
fn quiet_iteration_only_sleeps() {
    let end = replay(start(), &iteration(&[], measured((600, 420), (600, 420)), false, false));
    assert_eq!(end.next, start());
    assert_eq!(end.actions, vec![Action::Sleep(16)]);
}

#[test]
fn one_resize_for_each_divergence_found() {
    let mut reports = iteration(&[], measured((600, 420), (800, 600)), true, true);
    reports.extend(iteration(&[], measured((800, 600), (800, 600)), false, false));
    reports.extend(iteration(&[], measured((800, 600), (800, 601)), true, true));
    let end = replay(start(), &reports);
    let resizes: Vec<Action> =
        end.actions.iter().copied().filter(|action| matches!(action, Action::Resize(_))).collect();
    assert_eq!(
        resizes,
        vec![
            Action::Resize(Dimensions { width: 800, height: 600 }),
            Action::Resize(Dimensions { width: 800, height: 601 }),
        ]
    );
}

#[test]
fn no_resize_while_the_sizes_agree() {
    let mut reports = Vec::new();
    for _ in 0..5 {
        reports.extend(iteration(&[(PlatformEvent::Other, true)], measured((7, 9), (7, 9)), true, true));
    }
    let end = replay(start(), &reports);
    assert_eq!(count(&end.actions, |action| matches!(action, Action::Resize(_))), 0);
}

#[test]
fn rebuild_once_per_iteration_with_pending_input() {
    let mut reports = Vec::new();
    for pending in [true, false, false, true, true] {
        reports.extend(iteration(&[], None, pending, false));
    }
    let end = replay(start(), &reports);
    assert_eq!(count(&end.actions, |action| *action == Action::Rebuild), 3);
    assert_eq!(count(&end.actions, |action| *action == Action::Sleep(16)), 5);
}

#[test]
fn no_rebuild_without_new_input() {
    let quiet = iteration(&[(PlatformEvent::Other, false)], measured((3, 3), (3, 3)), false, true);
    let mut reports = quiet.clone();
    reports.extend(quiet);
    let end = replay(start(), &reports);
    assert_eq!(count(&end.actions, |action| *action == Action::Rebuild), 0);
}

#[test]
fn each_change_is_drawn_once_before_the_next_poll() {
    let mut reports = iteration(&[], None, false, true);
    reports.extend(iteration(&[], None, false, false));
    reports.extend(iteration(&[], None, true, true));
    let end = replay(start(), &reports);
    assert_eq!(
        end.actions,
        vec![
            Action::Fill,
            Action::Clear(RED),
            Action::Draw,
            Action::Present,
            Action::Sleep(16),
            Action::Sleep(16),
            Action::Rebuild,
            Action::Fill,
            Action::Clear(RED),
            Action::Draw,
            Action::Present,
            Action::Sleep(16),
        ]
    );
}

#[test]
fn escape_stops_all_further_work() {
    let events = [(PlatformEvent::Other, true), (key(Key::Escape), true), (PlatformEvent::Other, true)];
    let end = replay(start(), &iteration(&events, measured((1, 1), (2, 2)), true, true));
    assert_eq!(end.next, LoopState::Terminated);
    assert_eq!(
        end.actions,
        vec![Action::Forward(PlatformEvent::Other), Action::Forward(key(Key::Escape))]
    );
}

#[test]
fn close_request_stops_all_further_work() {
    let events = [(PlatformEvent::CloseRequested, false), (PlatformEvent::Other, true)];
    let mut reports = iteration(&[], None, true, true);
    reports.extend(iteration(&events, measured((1, 1), (2, 2)), true, true));
    reports.extend(iteration(&[], measured((1, 1), (2, 2)), true, true));
    let end = replay(start(), &reports);
    assert_eq!(end.next, LoopState::Terminated);
    assert_eq!(
        end.actions,
        vec![
            Action::Rebuild,
            Action::Fill,
            Action::Clear(RED),
            Action::Draw,
            Action::Present,
            Action::Sleep(16),
        ]
    );
}

#[test]
fn reports_out_of_turn_are_passed_over() {
    let reports = vec![
        Report::Rest,
        Report::PrimitivesChanged { changed: true },
        Report::Drained { measured: None },
        Report::Drained { measured: measured((1, 1), (2, 2)) },
        Report::PendingInput { any: true },
        Report::PendingInput { any: true },
    ];
    let end = replay(start(), &reports);
    assert_eq!(end.next, LoopState::Running(Phase::MaybeRedraw));
    assert_eq!(end.actions, vec![Action::Rebuild]);
}
