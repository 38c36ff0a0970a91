//! The render trigger: the frame is computed from model state alone,
//! the selected entry carries the marker, and unreached cells are blank.

use term_controller::controller::Controller;
use term_controller::keys::{KeyCode, KeyEvent, KeyEventKind};
use term_controller::model::{HomeEntryState, Model, Page};

const WIDTH: usize = 60;
const HEIGHT: usize = 20;

fn controller_with(items: Vec<String>) -> Controller {
    let mut model = Model::new();
    model.state.home_entry_state = HomeEntryState::new(items);
    Controller::with_model(model)
}

fn padded_row(text: &str) -> Vec<char> {
    let mut row: Vec<char> = text.chars().collect();
    assert!(row.len() <= WIDTH);
    while row.len() < WIDTH {
        row.push(' ');
    }
    row
}

fn blank_row() -> Vec<char> {
    padded_row("")
}

#[test]
fn initial_render_marks_the_selected_entry() {
    let mut controller = controller_with(vec![String::from("alpha"), String::from("beta")]);
    controller.init();
    assert_eq!(controller.canvas.rows.len(), HEIGHT);
    assert_eq!(controller.canvas.rows[0], padded_row("> alpha"));
    assert_eq!(controller.canvas.rows[1], padded_row("  beta"));
    for r in 2..HEIGHT {
        assert_eq!(controller.canvas.rows[r], blank_row());
    }
}

#[test]
fn render_reflects_navigation() {
    let mut controller = controller_with(vec![String::from("alpha"), String::from("beta")]);
    controller.init();
    let step = controller.handle_event(KeyEvent {
        code: KeyCode::Down,
        kind: KeyEventKind::Press,
    });
    assert!(matches!(step, term_controller::controller::Step::Rendered));
    assert_eq!(controller.canvas.rows[0], padded_row("  alpha"));
    assert_eq!(controller.canvas.rows[1], padded_row("> beta"));
}

#[test]
fn render_is_idempotent() {
    let mut controller = controller_with(vec![String::from("alpha"), String::from("beta")]);
    controller.render();
    let first = controller.canvas.rows.clone();
    controller.render();
    assert_eq!(controller.canvas.rows, first);
}

#[test]
fn long_entries_are_clipped_to_the_surface() {
    let long = "x".repeat(WIDTH + 10);
    let mut controller = controller_with(vec![long]);
    controller.init();
    let mut row = vec!['>', ' '];
    row.extend(vec!['x'; WIDTH - 2]);
    assert_eq!(controller.canvas.rows[0], row);
}

#[test]
fn settings_page_renders_blank() {
    let mut controller = controller_with(vec![String::from("alpha")]);
    controller.model.current_page = Page::SettingsEntry;
    controller.init();
    for r in 0..HEIGHT {
        assert_eq!(controller.canvas.rows[r], blank_row());
    }
}

#[test]
fn empty_model_renders_blank_frame() {
    let mut controller = Controller::new();
    controller.init();
    assert_eq!(controller.canvas.rows.len(), HEIGHT);
    for r in 0..HEIGHT {
        assert_eq!(controller.canvas.rows[r], blank_row());
    }
}
