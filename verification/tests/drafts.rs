use smart_review::draft::{Draft, DraftError, Side};
use smart_review::drafts::{Anchor, DraftState, DraftStatus};

fn now() -> i64 {
    1_700_000_000
}

fn fresh() -> DraftState {
    let mut state = DraftState::default();
    state.open(Draft::new(141, now()), None);
    state
}

#[test]
fn a_composer_stages_a_comment_on_the_line_it_was_opened_for() {
    let mut state = fresh();
    state.compose(Anchor::line("src/a.rs", Side::New, 31));
    state
        .composer
        .as_mut()
        .expect("open")
        .input
        .insert_str("this rounds up");
    state.stage(now()).expect("staged");

    assert!(state.composer.is_none(), "the composer closes on success");
    assert!(state.dirty, "and the loop is told to write");
    let comment = &state.draft.comments[0];
    assert_eq!(comment.path, "src/a.rs");
    assert_eq!(comment.side, Side::New);
    assert_eq!(comment.line, 31);
    assert_eq!(comment.body, "this rounds up");
}

#[test]
fn an_empty_comment_is_refused_in_the_pane_not_at_the_api() {
    let mut state = fresh();
    state.compose(Anchor::line("src/a.rs", Side::New, 31));
    let error = state.stage(now()).expect_err("refused");
    assert_eq!(error, DraftError::EmptyBody);
    assert!(state.draft.comments.is_empty());
    assert!(
        state
            .composer
            .as_ref()
            .expect("still open")
            .refusal
            .is_some(),
        "and the reason is on screen"
    );
    assert!(!state.dirty, "a refusal writes nothing");
}

#[test]
fn a_range_is_read_in_either_direction() {
    let mut state = fresh();
    let top = Anchor::line("src/a.rs", Side::New, 28);
    let bottom = Anchor::line("src/a.rs", Side::New, 31);

    state.start_selection(top.clone());
    assert!(state.selection.is_some(), "the first end waits");
    state
        .compose_range(&top.clone(), bottom.clone())
        .expect("a range");
    let composer = state.composer.as_ref().expect("a range");
    assert_eq!(composer.anchor().expect("a line").start_line, Some(28));
    assert_eq!(composer.anchor().expect("a line").line, 31);
    assert_eq!(composer.anchor().expect("a line").lines(), 4);

    let mut state = fresh();
    state.start_selection(bottom.clone());
    state.compose_range(&bottom, top).expect("a range");
    let composer = state.composer.as_ref().expect("a range");
    assert_eq!(composer.anchor().expect("a line").start_line, Some(28));
    assert_eq!(composer.anchor().expect("a line").line, 31);
}

#[test]
fn a_selection_across_files_is_refused_with_a_reason() {
    let mut state = fresh();
    let start = Anchor::line("src/a.rs", Side::New, 28);
    state.start_selection(start.clone());
    let refusal = state
        .compose_range(&start, Anchor::line("src/b.rs", Side::New, 3))
        .expect_err("refused");
    assert!(refusal.contains("one file"), "{refusal}");
    let composer = state.composer.as_ref().expect("the composer explains");
    assert_eq!(composer.anchor().expect("a line").path, "src/b.rs");
    assert_eq!(
        composer.anchor().expect("a line").start_line,
        None,
        "no range was made"
    );
    assert!(composer.refusal.is_some(), "and the reason is on screen");
}

#[test]
fn a_selection_across_sides_is_refused_too() {
    let mut state = fresh();
    let start = Anchor::line("src/a.rs", Side::Old, 28);
    state.start_selection(start.clone());
    assert!(
        state
            .compose_range(&start, Anchor::line("src/a.rs", Side::New, 31))
            .is_err()
    );
    assert!(state.composer.as_ref().expect("one line").refusal.is_some());
}

#[test]
fn cancelling_a_composer_keeps_the_draft() {
    let mut state = fresh();
    state.compose(Anchor::line("src/a.rs", Side::New, 31));
    state
        .composer
        .as_mut()
        .expect("open")
        .input
        .insert_str("half a thought");
    state.cancel_composer();
    assert!(state.composer.is_none());
    assert!(state.draft.is_empty(), "nothing was staged");
    assert!(!state.dirty);
}

#[test]
fn removing_keeps_the_cursor_inside_the_list() {
    let mut state = fresh();
    for line in 1..=3 {
        state.compose(Anchor::line("src/a.rs", Side::New, line));
        state
            .composer
            .as_mut()
            .expect("open")
            .input
            .insert_str("why?");
        state.stage(now()).expect("staged");
    }
    assert_eq!(state.cursor, 1, "the newest comment is the first row");
    state.move_cursor(5);
    assert_eq!(state.cursor, 3);
    state.move_cursor(5);
    assert_eq!(state.cursor, 3, "and it stops at the end");
    state.remove(3, now()).expect("removed");
    assert_eq!(state.cursor, 2, "the cursor follows the list");
    state.clear(now());
    assert_eq!(state.cursor, 1, "and resets when there is nothing to be on");
}

#[test]
fn a_modal_will_not_open_on_an_empty_draft() {
    let mut state = fresh();
    assert_eq!(state.open_modal(), Err(DraftError::NothingToSay));
    assert!(!state.modal);
    state.compose(Anchor::line("src/a.rs", Side::New, 1));
    state
        .composer
        .as_mut()
        .expect("open")
        .input
        .insert_str("why?");
    state.stage(now()).expect("staged");
    assert_eq!(state.open_modal(), Ok(()));
    assert!(state.modal);
}

#[test]
fn closing_a_completed_dry_run_does_not_precomplete_the_next_post() {
    let mut state = fresh();
    state.status = DraftStatus::DryRun;
    state.modal = true;

    state.close_modal();

    assert_eq!(state.status, DraftStatus::Idle);
    assert!(!state.modal);
}

#[test]
fn publishing_twice_is_prevented_by_the_status_not_by_hope() {
    let mut state = fresh();
    state.compose(Anchor::line("src/a.rs", Side::New, 1));
    state
        .composer
        .as_mut()
        .expect("open")
        .input
        .insert_str("why?");
    state.stage(now()).expect("staged");
    state.open_modal().expect("publishable");

    state.status = DraftStatus::Publishing;
    state.job = 7;
    state.publishing_draft = Some(state.draft.clone());
    assert!(
        state.status.is_publishing(),
        "the second Enter does nothing"
    );

    state.published(Some("https://example.test/review/7"), now());
    assert!(state.draft.is_empty(), "a success clears the draft");
    assert!(!state.modal, "and closes the modal");
    assert_eq!(state.job, 0);
    assert!(state.dirty);
}

#[test]
fn ir_07_a_success_does_not_clear_writing_added_after_dispatch() {
    let mut state = fresh();
    state.compose(Anchor::line("src/a.rs", Side::New, 1));
    state
        .composer
        .as_mut()
        .expect("open")
        .input
        .insert_str("first");
    state.stage(now()).expect("staged");
    state.publishing_draft = Some(state.draft.clone());
    state.draft.set_body("newer writing", now());

    state.published(None, now());

    assert_eq!(state.draft.body.as_deref(), Some("newer writing"));
    assert_eq!(state.draft.comments.len(), 1);
}

#[test]
fn a_failed_publish_keeps_the_draft_and_the_reason() {
    let mut state = fresh();
    state.compose(Anchor::line("src/a.rs", Side::New, 1));
    state
        .composer
        .as_mut()
        .expect("open")
        .input
        .insert_str("why?");
    state.stage(now()).expect("staged");
    state.open_modal().expect("publishable");

    state.publish_failed("the token is not allowed");
    assert_eq!(state.draft.comments.len(), 1);
    assert!(state.modal, "the modal stays open: the draft is still here");
    assert!(!state.armed, "and the confirmation is forgotten");
    assert_eq!(
        state.status.label(),
        "failed: the token is not allowed",
        "in the pane, not in a notice that expires"
    );
}

#[test]
fn the_gutter_asks_about_the_line_it_is_drawing() {
    let mut state = fresh();
    state.compose(Anchor::line("src/a.rs", Side::New, 31));
    state
        .composer
        .as_mut()
        .expect("open")
        .input
        .insert_str("why?");
    state.stage(now()).expect("staged");

    assert!(state.marks("src/a.rs", Some(Side::New), Some(31)));
    assert!(!state.marks("src/a.rs", Some(Side::Old), Some(31)));
    assert!(!state.marks("src/a.rs", Some(Side::New), Some(30)));
    assert!(
        !state.marks("src/a.rs", Some(Side::New), None),
        "a header row has no line to anchor to"
    );
}

#[test]
fn a_closed_draft_has_no_pull_request_to_draft_against() {
    let mut state = fresh();
    state.close();
    assert!(!state.open);
    assert!(state.draft.is_empty());
    assert!(state.draft.pr == 0, "no pull request, no number");
    assert!(!state.takes_keyboard());
}

#[test]
fn the_head_is_remembered_and_compared() {
    let mut state = fresh();
    state.anchor_to("abc123");
    assert_eq!(state.draft.head_sha.as_deref(), Some("abc123"));
    assert!(state.dirty);
    assert!(state.drifted(Some("def456")), "the diff has moved");
    assert!(!state.drifted(Some("abc123")));
    assert!(
        !state.drifted(None),
        "a diff that is not open cannot have moved"
    );

    state.dirty = false;
    state.anchor_to("abc123");
    assert!(!state.dirty, "the same head is not a change");
}

#[test]
fn an_existing_anchor_is_never_relabelled_as_a_newer_head() {
    let mut state = fresh();
    state.anchor_to("h1");
    state.dirty = false;

    state.anchor_to("h2");

    assert_eq!(state.draft.head_sha.as_deref(), Some("h1"));
    assert!(!state.dirty, "a refresh did not rewrite the document");
    assert!(state.drifted(Some("h2")));
}

#[test]
fn staging_and_removing_leaves_the_comments_there_were() {
    let mut state = fresh();
    for text in ["first", "second"] {
        state.compose(Anchor::line("src/a.rs", Side::New, 4));
        state.composer.as_mut().expect("open").input.insert_str(text);
        state.stage(now()).expect("staged");
    }
    assert_eq!(state.draft.comments[0].body, "second", "the newest first");
    let removed = state.remove(1, now()).expect("removed");
    assert_eq!(removed.body, "second");
    assert_eq!(state.draft.comments.len(), 1);
    assert!(state.remove(9, now()).is_none(), "there is no such number");
}

#[test]
fn a_reply_is_not_staged_with_the_review() {
    let mut state = fresh();
    state.compose_conversation();
    state.composer.as_mut().expect("open").input.insert_str("thanks");
    assert_eq!(state.stage(now()), Err(DraftError::EmptyBody));
    assert!(state.draft.comments.is_empty());
    assert!(
        state
            .composer
            .as_ref()
            .expect("still open")
            .refusal
            .as_deref()
            .unwrap_or_default()
            .contains("posted on its own")
    );
}

#[test]
fn each_reason_is_told_in_words() {
    assert_eq!(DraftError::EmptyBody.message(), "a comment needs a body");
    assert_eq!(DraftError::NothingToSay.message(), "the review says nothing yet");
}

#[test]
fn extending_a_range_keeps_all_of_it() {
    let range = Anchor { start_line: Some(10), ..Anchor::line("src/a.rs", Side::New, 20) };
    let below = Anchor::line("src/a.rs", Side::New, 25);
    let whole = Anchor { start_line: Some(10), ..Anchor::line("src/a.rs", Side::New, 25) };
    assert_eq!(range.extended_to(&below), Some(whole.clone()));
    assert_eq!(below.extended_to(&range), Some(whole));
    let inside = Anchor::line("src/a.rs", Side::New, 15);
    assert_eq!(range.extended_to(&inside), Some(range.clone()));
}
