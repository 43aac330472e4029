use smart_review::editor::EditorExit;

#[test]
fn a_failed_editor_is_a_warning_not_a_reason_to_discard_text() {
    assert_eq!(EditorExit::Success.warning(), None);
    assert_eq!(
        EditorExit::Failed(Some(23)).warning().as_deref(),
        Some("$EDITOR exited with status 23; kept its text")
    );
}

#[test]
fn an_interrupted_editor_and_a_negative_status_are_named() {
    assert_eq!(
        EditorExit::Failed(None).warning().as_deref(),
        Some("$EDITOR was interrupted; kept its text")
    );
    assert_eq!(
        EditorExit::Failed(Some(-9)).warning().as_deref(),
        Some("$EDITOR exited with status -9; kept its text")
    );
}

#[test]
fn an_editor_that_succeeds_gives_no_warning_whatever_its_code() {
    assert_eq!(EditorExit::from_status(true, Some(0)), EditorExit::Success);
    assert_eq!(EditorExit::from_status(true, Some(0)).warning(), None);
    assert_eq!(EditorExit::from_status(false, None), EditorExit::Failed(None));
    assert_eq!(EditorExit::from_status(false, Some(3)), EditorExit::Failed(Some(3)));
}
