use natermity::calendar::CalendarDate;
use natermity::canvas::{Canvas, ClearKind, DrawOp};
use natermity::event_loop::{resolve_due, Control, LoopEvent, LoopState};
use natermity::scene::{CalendarMode, Scene};
use natermity::sky::sky_tick;
use natermity::tableau::{render, Dimensions};

fn full_clears(ops: &[DrawOp]) -> usize {
    ops.iter().filter(|op| **op == DrawOp::Clear { kind: ClearKind::All }).count()
}

fn resolved(scene_date: (i32, u32, u32), dims: Dimensions) -> (LoopState, Canvas) {
    let mut state = LoopState::new();
    let mut canvas = Canvas::new();
    let d = CalendarDate::new(scene_date.0, scene_date.1, scene_date.2).unwrap();
    state.resolve(&mut canvas, &d, CalendarMode::Gregorian, dims);
    (state, canvas)
}

#[test]
fn resolve_sets_scene_and_redraws() {
    let dims = Dimensions { width: 100, height: 30 };
    let (state, mut canvas) = resolved((2024, 12, 25), dims);
    assert_eq!(state.scene, Scene::Nativity);
    assert_eq!(state.dims, dims);
    assert_eq!(state.phase, 0);
    let mut expected = Canvas::new();
    render(&mut expected, Scene::Nativity, dims);
    assert_eq!(canvas.take_ops(), expected.take_ops());
}

#[test]
fn resize_redraws_once_at_the_new_size() {
    let (mut state, mut canvas) = resolved((2025, 1, 20), Dimensions { width: 100, height: 30 });
    canvas.take_ops();
    let stars = vec![(4, 2); 9];
    let r = state.step(&mut canvas, LoopEvent::Resize { width: 90, height: 25 }, &stars);
    assert_eq!(r, Control::Continue);
    assert_eq!(state.scene, Scene::Epiphany);
    assert_eq!(state.dims, Dimensions { width: 90, height: 25 });
    assert_eq!(state.phase, 1);
    let ops = canvas.take_ops();
    assert_eq!(full_clears(&ops), 1);
    let mut expected = Canvas::new();
    render(&mut expected, Scene::Epiphany, Dimensions { width: 90, height: 25 });
    sky_tick(&mut expected, Scene::Epiphany, 90, 1, &stars);
    assert_eq!(ops, expected.take_ops());
}

#[test]
fn poll_tick_on_resize_redraws_once() {
    let (mut state, mut canvas) = resolved((2024, 12, 10), Dimensions { width: 100, height: 30 });
    canvas.take_ops();
    let r = state.poll_tick(&mut canvas, LoopEvent::Resize { width: 60, height: 20 });
    assert_eq!(r, Control::Continue);
    assert_eq!(state.scene, Scene::Anticipation);
    assert_eq!(state.dims, Dimensions { width: 60, height: 20 });
    assert_eq!(full_clears(&canvas.take_ops()), 1);
}

#[test]
fn idle_tick_only_animates_the_sky() {
    let (mut state, mut canvas) = resolved((2024, 12, 25), Dimensions { width: 80, height: 24 });
    canvas.take_ops();
    let stars = vec![(10, 1)];
    for expected_phase in [1u8, 2, 3, 0, 1] {
        let r = state.step(&mut canvas, LoopEvent::Idle, &stars);
        assert_eq!(r, Control::Continue);
        assert_eq!(state.phase, expected_phase);
        let ops = canvas.take_ops();
        assert_eq!(full_clears(&ops), 0);
        let mut expected = Canvas::new();
        sky_tick(&mut expected, Scene::Nativity, 80, expected_phase, &stars);
        assert_eq!(ops, expected.take_ops());
    }
}

#[test]
fn key_press_quits_without_drawing() {
    let (mut state, mut canvas) = resolved((2024, 12, 25), Dimensions { width: 80, height: 24 });
    canvas.take_ops();
    let before = state;
    assert_eq!(state.poll_tick(&mut canvas, LoopEvent::KeyPress), Control::Quit);
    assert_eq!(state, before);
    assert_eq!(canvas.len(), 0);
}

#[test]
fn small_terminal_skips_the_sky() {
    let (mut state, mut canvas) = resolved((2024, 12, 25), Dimensions { width: 20, height: 8 });
    canvas.take_ops();
    state.poll_tick(&mut canvas, LoopEvent::Idle);
    assert_eq!(canvas.len(), 0);
    assert_eq!(state.phase, 1);
}

#[test]
fn scene_is_resolved_again_after_five_minutes() {
    assert!(!resolve_due(0));
    assert!(!resolve_due(299));
    assert!(resolve_due(300));
    assert!(resolve_due(3600));
}
