use smart_review::discussion::{DiscussionFilter, DiscussionState};

#[test]
fn the_panel_opens_on_the_newest_comment() {
    let mut state = DiscussionState::default();
    state.open(4);
    assert!(state.panel);
    assert_eq!(state.cursor, 4, "a conversation is read from the end");
    assert_eq!(state.index(), Some(3));
}

#[test]
fn an_empty_conversation_still_has_a_cursor_that_is_not_an_index() {
    let mut state = DiscussionState::default();
    state.open(0);
    assert_eq!(state.cursor, 1);
    assert_eq!(state.index(), Some(0));
    state.move_cursor(-5, 0);
    assert_eq!(state.cursor, 1, "and it cannot move off an empty list");
}

#[test]
fn moving_stops_at_both_ends() {
    let mut state = DiscussionState::default();
    state.open(3);
    state.move_cursor(9, 3);
    assert_eq!(state.cursor, 3);
    state.move_cursor(-9, 3);
    assert_eq!(state.cursor, 1);
    state.move_cursor(1, 3);
    assert_eq!(state.cursor, 2);
}

#[test]
fn a_shorter_list_pulls_the_cursor_back_inside_it() {
    let mut state = DiscussionState::default();
    state.open(5);
    state.clamp(2);
    assert_eq!(state.cursor, 2);
    state.clamp(0);
    assert_eq!(state.cursor, 1);
}

#[test]
fn closing_forgets_the_cursor_as_well_as_the_panel() {
    let mut state = DiscussionState::default();
    state.open(5);
    state.close();
    assert!(!state.panel);
    assert_eq!(state.cursor, 1);
    assert_eq!(state.scroll, 0);
}

#[test]
fn the_filter_comes_round_after_four_turns() {
    let mut state = DiscussionState::default();
    assert_eq!(state.filter, DiscussionFilter::All);
    state.cycle_filter();
    assert_eq!(state.filter.label(), "open");
    state.cycle_filter();
    state.cycle_filter();
    assert_eq!(state.filter, DiscussionFilter::Outdated);
    state.cycle_filter();
    assert_eq!(state.filter, DiscussionFilter::All);
}

#[test]
fn a_moved_cursor_wants_to_be_brought_into_view_once() {
    let mut state = DiscussionState::default();
    state.open(3);
    state.set_visible(7);
    assert!(!state.needs_visibility_sync());
    assert_eq!(state.scroll, 7);
    state.move_cursor(-1, 3);
    assert!(state.needs_visibility_sync());
}
