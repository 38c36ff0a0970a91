//! The home page's list navigation: the documented boundary policy is
//! clamping, with no wrap-around at either end.

use term_controller::model::HomeEntryState;

fn three_items() -> HomeEntryState {
    HomeEntryState::new(vec![
        String::from("alpha"),
        String::from("beta"),
        String::from("gamma"),
    ])
}

#[test]
fn move_up_at_top_clamps() {
    let mut state = three_items();
    assert_eq!(state.selected, 0);
    state.to_previous_item();
    assert_eq!(state.selected, 0);
}

#[test]
fn move_down_steps_through_the_list() {
    let mut state = three_items();
    state.to_next_item();
    assert_eq!(state.selected, 1);
    state.to_next_item();
    assert_eq!(state.selected, 2);
}

#[test]
fn move_down_at_bottom_clamps() {
    let mut state = three_items();
    state.to_next_item();
    state.to_next_item();
    state.to_next_item();
    state.to_next_item();
    assert_eq!(state.selected, 2);
}

#[test]
fn move_up_returns_along_the_list() {
    let mut state = three_items();
    state.to_next_item();
    state.to_next_item();
    state.to_previous_item();
    assert_eq!(state.selected, 1);
    state.to_previous_item();
    assert_eq!(state.selected, 0);
}

#[test]
fn empty_list_navigation_is_inert() {
    let mut state = HomeEntryState::new(Vec::new());
    state.to_previous_item();
    assert_eq!(state.selected, 0);
    state.to_next_item();
    assert_eq!(state.selected, 0);
}
