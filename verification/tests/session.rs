//! The session loop's dispatch policy: one render per accepted press,
//! inert non-press events, and the page-scoped exit condition.

use term_controller::controller::{Controller, Step};
use term_controller::keys::{KeyCode, KeyEvent, KeyEventKind};
use term_controller::model::{HomeEntryState, Model, Page};

fn press(code: KeyCode) -> KeyEvent {
    KeyEvent { code, kind: KeyEventKind::Press }
}

fn release(code: KeyCode) -> KeyEvent {
    KeyEvent { code, kind: KeyEventKind::Release }
}

fn repeat(code: KeyCode) -> KeyEvent {
    KeyEvent { code, kind: KeyEventKind::Repeat }
}

fn home_controller() -> Controller {
    let mut model = Model::new();
    model.state.home_entry_state = HomeEntryState::new(vec![
        String::from("alpha"),
        String::from("beta"),
        String::from("gamma"),
    ]);
    Controller::with_model(model)
}

#[test]
fn single_render_per_accepted_press() {
    let mut controller = home_controller();
    controller.init();
    let events = vec![press(KeyCode::Down), press(KeyCode::Down), press(KeyCode::Up)];
    let outcome = controller.run(&events);
    assert_eq!(outcome.renders, 3);
    assert!(!outcome.exited);
    assert_eq!(controller.model.state.home_entry_state.selected, 1);
}

#[test]
fn unmapped_press_still_renders() {
    let mut controller = home_controller();
    controller.init();
    let outcome = controller.run(&vec![press(KeyCode::Enter), press(KeyCode::Other)]);
    assert_eq!(outcome.renders, 2);
    assert!(!outcome.exited);
    assert_eq!(controller.model.state.home_entry_state.selected, 0);
}

#[test]
fn non_press_events_are_inert() {
    let mut controller = home_controller();
    controller.init();
    let frame_before = controller.canvas.rows.clone();
    let outcome = controller.run(&vec![release(KeyCode::Down), repeat(KeyCode::Up)]);
    assert_eq!(outcome.renders, 0);
    assert!(!outcome.exited);
    assert_eq!(controller.model.state.home_entry_state.selected, 0);
    assert_eq!(controller.canvas.rows, frame_before);
}

#[test]
fn escape_press_exits_on_home() {
    let mut controller = home_controller();
    controller.init();
    let step = controller.handle_event(press(KeyCode::Esc));
    assert_eq!(step, Step::Exit);
}

#[test]
fn escape_release_exits_on_home() {
    let mut controller = home_controller();
    controller.init();
    let frame_before = controller.canvas.rows.clone();
    let step = controller.handle_event(release(KeyCode::Esc));
    assert_eq!(step, Step::Exit);
    assert_eq!(controller.canvas.rows, frame_before);
    assert_eq!(controller.model.state.home_entry_state.selected, 0);
}

#[test]
fn escape_repeat_exits_on_home() {
    let mut controller = home_controller();
    controller.init();
    let step = controller.handle_event(repeat(KeyCode::Esc));
    assert_eq!(step, Step::Exit);
}

#[test]
fn escape_on_other_page_does_not_exit() {
    let mut controller = home_controller();
    controller.model.current_page = Page::SettingsEntry;
    controller.init();
    let step = controller.handle_event(press(KeyCode::Esc));
    assert_eq!(step, Step::Rendered);
    let step = controller.handle_event(release(KeyCode::Esc));
    assert_eq!(step, Step::Ignored);
    let outcome = controller.run(&vec![press(KeyCode::Esc), repeat(KeyCode::Esc)]);
    assert!(!outcome.exited);
}

#[test]
fn run_stops_at_exit_event() {
    let mut controller = home_controller();
    controller.init();
    let events = vec![press(KeyCode::Down), release(KeyCode::Esc), press(KeyCode::Down)];
    let outcome = controller.run(&events);
    assert_eq!(outcome.renders, 1);
    assert!(outcome.exited);
    assert_eq!(controller.model.state.home_entry_state.selected, 1);
}

#[test]
fn exhausted_input_ends_run_cleanly() {
    let mut controller = home_controller();
    controller.init();
    let outcome = controller.run(&Vec::new());
    assert_eq!(outcome.renders, 0);
    assert!(!outcome.exited);
}

#[test]
fn controller_reports_well_formed() {
    let mut controller = Controller::new();
    assert!(controller.is_well_formed());
    controller.init();
    assert!(controller.is_well_formed());
}
