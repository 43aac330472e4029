use smart_review::catalog::Thinking;
use smart_review::layout::Rect;
use smart_review::model_picker::{PickerRow, PickerState, PickerStep, RowChoice, Step};
use smart_review::paint::Line;

fn rows() -> Vec<PickerRow> {
    vec![
        PickerRow::new(
            RowChoice::Provider("deepseek".to_owned()),
            "DeepSeek",
            "native",
        ),
        PickerRow::new(
            RowChoice::Provider("lmstudio".to_owned()),
            "LM Studio",
            "compatible",
        ),
    ]
}

fn thinking_rows() -> Vec<PickerRow> {
    vec![
        PickerRow::new(
            RowChoice::Thinking(Thinking::Effort {
                value: "high".to_owned(),
            }),
            "high",
            "",
        ),
        PickerRow::new(
            RowChoice::Thinking(Thinking::Effort {
                value: "max".to_owned(),
            }),
            "max",
            "",
        )
        .refused("cannot send effort `max`"),
    ]
}

#[test]
fn the_steps_run_provider_model_thinking_then_confirm() {
    let mut picker = PickerState::new();
    assert_eq!(picker.step(), Step::Provider);
    picker.set_key_present(true);
    picker.set_rows(rows());
    assert_eq!(picker.advance(), PickerStep::Moved);
    assert_eq!(picker.provider(), Some("deepseek"));
    assert_eq!(picker.step(), Step::Model);

    picker.set_rows(vec![PickerRow::new(
        RowChoice::Model("deepseek-v4-pro".to_owned()),
        "DeepSeek V4 Pro",
        "reasoning",
    )]);
    assert_eq!(picker.advance(), PickerStep::Moved);
    assert_eq!(picker.model(), Some("deepseek-v4-pro"));
    assert_eq!(picker.step(), Step::Thinking);

    picker.set_rows(thinking_rows());
    assert_eq!(picker.advance(), PickerStep::Moved);
    assert_eq!(
        picker.thinking(),
        Some(&Thinking::Effort {
            value: "high".to_owned()
        })
    );
    assert_eq!(picker.step(), Step::Confirm, "a key exists, so no key step");

    assert_eq!(
        picker.advance(),
        PickerStep::Commit {
            provider: "deepseek".to_owned(),
            model: "deepseek-v4-pro".to_owned(),
            thinking: Some(Thinking::Effort {
                value: "high".to_owned()
            }),
        }
    );
}

#[test]
fn a_missing_key_sends_the_picker_to_the_masked_step() {
    let mut picker = PickerState::new();
    picker.set_rows(rows());
    picker.advance();
    picker.set_rows(vec![PickerRow::new(
        RowChoice::Model("m".to_owned()),
        "M",
        "",
    )]);
    picker.advance();
    picker.set_rows(thinking_rows());
    picker.advance();
    assert_eq!(picker.step(), Step::Key);

    for character in "sk-secret".chars() {
        picker.push_char(character);
    }
    assert_eq!(picker.key_len(), 9);
    assert!(!picker.describe().contains("sk-secret"));
    assert_eq!(
        picker.advance(),
        PickerStep::KeyTyped {
            provider: "deepseek".to_owned(),
            key: "sk-secret".to_owned()
        }
    );

    picker.key_stored();
    assert_eq!(picker.step(), Step::Confirm);
    assert_eq!(picker.key_len(), 0, "the buffer does not outlive the save");
}

#[test]
fn an_empty_key_is_refused_rather_than_saved() {
    let mut picker = PickerState::new();
    picker.set_rows(rows());
    picker.advance();
    picker.set_rows(vec![PickerRow::new(
        RowChoice::Model("m".to_owned()),
        "M",
        "",
    )]);
    picker.advance();
    picker.set_rows(thinking_rows());
    picker.advance();
    assert!(matches!(picker.advance(), PickerStep::Refused(_)));
    assert_eq!(picker.step(), Step::Key, "still on the key step");
    assert!(picker.notice().unwrap_or_default().contains("type or paste"));
}

#[test]
fn a_refused_row_explains_itself_and_does_not_move_on() {
    let mut picker = PickerState::new();
    picker.set_rows(thinking_rows());
    picker.provider = Some("deepseek".to_owned());
    picker.model = Some("m".to_owned());
    picker.step = Step::Thinking;
    picker.move_cursor(1);
    assert_eq!(picker.cursor(), 1);
    let outcome = picker.advance();
    assert!(matches!(outcome, PickerStep::Refused(_)), "{outcome:?}");
    assert_eq!(picker.step(), Step::Thinking);
    assert_eq!(picker.thinking(), None, "nothing was chosen");
    assert!(
        picker.notice().unwrap_or_default().contains("cannot send"),
        "{:?}",
        picker.notice()
    );
}

#[test]
fn escape_walks_back_one_step_and_then_closes() {
    let mut picker = PickerState::new();
    picker.set_key_present(true);
    picker.set_rows(rows());
    picker.advance();
    picker.set_rows(vec![PickerRow::new(
        RowChoice::Model("m".to_owned()),
        "M",
        "",
    )]);
    picker.advance();
    assert_eq!(picker.step(), Step::Thinking);

    assert!(picker.step_back());
    assert_eq!(picker.step(), Step::Model);
    assert!(picker.model().is_none(), "the model choice was dropped");
    assert!(picker.step_back());
    assert_eq!(picker.step(), Step::Provider);
    assert!(picker.provider().is_none());
    assert!(!picker.step_back(), "the caller closes the picker now");
}

#[test]
fn text_goes_into_the_filter_and_resets_the_cursor() {
    let mut picker = PickerState::new();
    picker.set_rows(rows());
    picker.move_cursor(1);
    assert_eq!(picker.cursor(), 1);
    picker.push_char('d');
    assert_eq!(picker.query(), "d");
    assert_eq!(picker.cursor(), 0, "a new filter starts at the top");
    picker.push_char('e');
    assert_eq!(picker.query(), "de");
    picker.backspace();
    assert_eq!(picker.query(), "d");
    picker.clear_query();
    assert_eq!(picker.query(), "");
}

#[test]
fn on_the_key_step_letters_are_key_material_not_filter_text() {
    let mut picker = PickerState::new();
    picker.step = Step::Key;
    picker.push_char('j');
    picker.push_char('k');
    assert_eq!(picker.query(), "", "the filter is untouched");
    assert_eq!(picker.key_len(), 2);
    picker.clear_query();
    assert_eq!(picker.key_len(), 2, "and clearing does not eat the key");
}

#[test]
fn the_cursor_cannot_leave_the_list() {
    let mut picker = PickerState::new();
    picker.set_rows(rows());
    picker.move_cursor(-1);
    assert_eq!(picker.cursor(), 0);
    picker.move_cursor(5);
    assert_eq!(picker.cursor(), 1, "clamped to the last row");
    picker.set_rows(Vec::new());
    picker.move_cursor(1);
    assert_eq!(picker.cursor(), 0, "an empty list has no position");
}

#[test]
fn shrinking_the_list_keeps_the_cursor_inside_it() {
    let mut picker = PickerState::new();
    picker.set_rows(rows());
    picker.move_cursor(1);
    picker.set_rows(vec![PickerRow::new(
        RowChoice::Provider("only".to_owned()),
        "Only",
        "",
    )]);
    assert_eq!(picker.cursor(), 0);
}

#[test]
fn advancing_with_an_empty_list_says_so() {
    let mut picker = PickerState::new();
    assert!(matches!(picker.advance(), PickerStep::Refused(_)));
}

#[test]
fn a_masked_key_is_drawn_by_its_length_only() {
    let mut picker = PickerState::new();
    picker.provider = Some("deepseek".to_owned());
    picker.step = Step::Key;
    for character in "sk-secret".chars() {
        picker.push_char(character);
    }
    let area = smart_review::layout::Rect { x: 0, y: 0, width: 100, height: 30 };
    let frame = picker.render(area, None);
    let mut text = String::new();
    for span in &frame.header.spans {
        text.push_str(&span.text);
    }
    for line in frame.rows.iter().chain(frame.footer.iter()) {
        for span in &line.spans {
            text.push_str(&span.text);
        }
    }
    assert!(!text.contains("secret"), "{text}");
    assert!(frame.list_area.height > 0);
    assert!(frame.header_area.y < frame.list_area.y);
    assert!(frame.list_area.y + frame.list_area.height <= frame.footer_area.y);
}

#[test]
fn two_keys_of_one_length_look_the_same() {
    let area = Rect::new(0, 0, 100, 30);
    let typed = |key: &str, step: Step| {
        let mut picker = PickerState::new();
        picker.step = step;
        picker.key_input = key.to_owned();
        picker.render(area, None)
    };
    let text = |line: &Line| -> String { line.spans.iter().map(|span| span.text.as_str()).collect() };
    let one = typed("sk-a", Step::Key);
    let other = typed("sk-é", Step::Key);
    assert_eq!(text(&one.header), "key: ••••  (4 characters)");
    assert_eq!(one, other);
    assert_eq!(typed("", Step::Model), typed("sk-secret", Step::Model));
}

#[test]
fn the_parts_of_a_picker_fill_its_box_however_low_it_is() {
    for height in 0u16..40 {
        let frame = PickerState::new().render(Rect::new(2, 5, 100, height), None);
        let inner = frame.area.inside();
        let parts = [frame.header_area, frame.list_area, frame.footer_area];
        let mut next = inner.y;
        for (part, most) in parts.iter().zip([1, inner.height, 2]) {
            assert_eq!((part.x, part.width, part.y), (inner.x, inner.width, next), "{height}");
            assert!(part.height <= most, "{height}: {part:?}");
            next += part.height;
        }
        assert_eq!(next, inner.y + inner.height, "{height}");
        let list = if inner.height >= 6 { inner.height - 3 } else { inner.height.min(3) };
        assert_eq!(frame.list_area.height, list, "{height}");
    }
}
