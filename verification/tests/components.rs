use smart_review::chat::ChatState;
use smart_review::components::analysis::wrap_paragraph;
use smart_review::components::chat::{
    chat_split, compose_rows, CHAT_MIN_HEIGHT, DIFF_MIN_HEIGHT,
};
use smart_review::components::chrome::{body_split, frame_rows, is_too_small, too_small};
use smart_review::components::conversation::{lines, visible};
use smart_review::components::drafts::{
    composer_contents, composer_lines, composer_split, composer_title, keyboard_hint, modal_footer,
    modal_lines, modal_title, panel_footer, panel_lines, verdict_note, COMPOSER_HEIGHT,
};
use smart_review::components::highlight::{highlighted_content, SyntaxSpan};
use smart_review::components::popups::{confirm, frame_for, keys_for, FRAMES};
use smart_review::components::pr_list::{row_at, Columns};
use smart_review::draft::{Decision, Draft, DraftComment, Side};
use smart_review::drafts::{Anchor, Composer, DraftState, DraftStatus, Target};
use smart_review::keys::{Binding, Mode};
use smart_review::layout::Rect;
use smart_review::paint::{padded_line, plain, unpainted, Element, Line, Span, SyntaxClass};
use smart_review::pr::ConversationComment;
use smart_review::text::{align_right, pad, pad_left, truncate};

fn flatten(lines: &[Line]) -> String {
    lines
        .iter()
        .map(|line| line.spans.iter().map(|span| span.text.as_str()).collect::<String>())
        .collect::<Vec<_>>()
        .join("\n")
}

fn row_text(line: &Line) -> String {
    line.spans.iter().map(|span| span.text.as_str()).collect()
}

fn line_of(text: &str) -> Line {
    Line { spans: vec![Span { text: text.to_owned(), paint: unpainted() }] }
}

fn body(height: u16) -> Rect {
    Rect::new(0, 0, 120, height)
}

#[test]
fn a_paragraph_is_wrapped_at_the_width_it_was_given() {
    let text = "one two three four five six seven eight nine ten";
    let lines = wrap_paragraph(text, 20);
    assert!(lines.iter().all(|line| line.len() <= 20), "{lines:?}");
    assert_eq!(
        lines.join(" ").split_whitespace().count(),
        text.split_whitespace().count()
    );
}

#[test]
fn an_empty_paragraph_is_one_empty_line_rather_than_none() {
    assert_eq!(wrap_paragraph("   ", 20), [String::new()]);
}

#[test]
fn a_single_long_word_is_not_split() {
    let word = "x".repeat(50);
    assert_eq!(wrap_paragraph(&word, 20), [word]);
}

#[test]
fn a_paragraph_is_measured_in_bytes() {
    assert_eq!(wrap_paragraph("éé éé", 5), ["éé".to_owned(), "éé".to_owned()]);
    assert_eq!(wrap_paragraph("ee ee", 5), ["ee ee".to_owned()]);
}

#[test]
fn a_closed_pane_leaves_the_body_whole() {
    let (main, chat) = chat_split(body(40), false);
    assert_eq!(main, body(40));
    assert!(chat.is_none());
}

#[test]
fn an_open_pane_takes_a_share_and_leaves_the_diff_usable() {
    let (main, chat) = chat_split(body(40), true);
    let chat = chat.expect("the pane is there");
    assert!(chat.height >= CHAT_MIN_HEIGHT, "{}", chat.height);
    assert!(main.height >= DIFF_MIN_HEIGHT, "{}", main.height);
    assert_eq!(main.height + chat.height, 40, "they tile the body");
    assert!(chat.y > main.y);
}

#[test]
fn a_short_body_gets_no_chat_pane_rather_than_a_sliver() {
    let (main, chat) = chat_split(body(CHAT_MIN_HEIGHT + DIFF_MIN_HEIGHT - 1), true);
    assert!(chat.is_none());
    assert_eq!(main, body(CHAT_MIN_HEIGHT + DIFF_MIN_HEIGHT - 1));
}

#[test]
fn the_split_never_exceeds_the_body_it_was_given() {
    for height in 1..60u16 {
        let (main, chat) = chat_split(body(height), true);
        if let Some(chat) = chat {
            assert_eq!(main.height + chat.height, height, "height {height}");
            assert_eq!(main.y, 0);
            assert_eq!(chat.y, main.height);
        }
    }
}

#[test]
fn the_compose_box_grows_with_the_lines_that_were_typed() {
    let mut chat = ChatState::default();
    assert_eq!(compose_rows(&chat), 4, "one line plus the hints");
    chat.input.set_text("one\ntwo\nthree\nfour\nfive\nsix");
    assert_eq!(
        compose_rows(&chat),
        7,
        "capped at four lines plus the hints"
    );
    chat.awaiting_confirmation = Some("why?".to_owned());
    assert_eq!(compose_rows(&chat), 3, "the confirmation takes the box");
}

#[test]
fn the_confirmation_says_that_nothing_has_happened_yet() {
    let shown = confirm(body(30), "delete the worktree of #7?");
    let keys = flatten(&shown.keys);
    assert!(keys.contains("nothing has happened yet"));
    assert!(flatten(&shown.lines).contains("delete the worktree of #7?"));
    assert_eq!(shown.area, Rect::new(30, 12, 60, 6));
    assert_eq!(shown.footer.height, 2);
    assert_eq!(shown.body.height, 4);
}

fn comment(id: u64, author: &str, body: &str) -> ConversationComment {
    ConversationComment {
        id,
        author: author.to_owned(),
        body: body.to_owned(),
        created_at: 1_700_000_000,
        url: None,
    }
}

fn drawn(comments: &Vec<ConversationComment>, selected: Option<usize>) -> String {
    let ages = comments.iter().map(|_| "10m".to_owned()).collect();
    let bodies = comments.iter().map(|comment| vec![line_of(&comment.body)]).collect();
    flatten(&lines(comments, selected, &ages, &bodies))
}

#[test]
fn every_comment_is_drawn_with_its_author() {
    let comments = vec![
        comment(1, "alice", "this came out of the incident"),
        comment(2, "bob", "and it needs a migration first"),
    ];
    let text = drawn(&comments, Some(1));
    assert!(text.contains("alice · 10m"), "and when it was said: {text}");
    assert!(text.contains("alice"), "{text}");
    assert!(text.contains("this came out of the incident"), "{text}");
    assert!(text.contains("bob"), "{text}");
    assert!(text.contains("and it needs a migration first"), "{text}");
}

#[test]
fn an_empty_conversation_says_so_rather_than_drawing_nothing() {
    let text = drawn(&Vec::new(), None);
    assert!(text.contains("Nothing has been said"), "{text}");
    assert!(
        text.contains("why"),
        "and says what the panel is for: {text}"
    );
}

#[test]
fn the_body_is_rendered_as_markdown_like_every_other_body() {
    let comments = vec![comment(1, "alice", "- one\n- two")];
    let rendered = vec![vec![line_of("• one"), line_of("• two")]];
    let text = flatten(&lines(&comments, None, &vec!["10m".to_owned()], &rendered));
    assert!(text.contains("one"), "{text}");
    assert!(text.contains("two"), "{text}");
    assert!(!text.contains("- one"), "the markdown was rendered: {text}");
}

#[test]
fn the_selected_comment_is_marked_and_the_others_are_not() {
    let comments = vec![comment(1, "alice", "one"), comment(2, "bob", "two")];
    let text = drawn(&comments, Some(1));
    let selected: Vec<&str> = text.lines().filter(|line| line.contains('▸')).collect();
    assert_eq!(selected.len(), 1, "exactly one row is marked: {text}");
    assert!(selected[0].contains("bob"), "{text}");
}

#[test]
fn the_selected_comment_is_brought_into_a_short_window() {
    let comments: Vec<ConversationComment> =
        (0..10).map(|id| comment(id, &format!("author{id}"), "text")).collect();
    let ages: Vec<String> = comments.iter().map(|_| "1h".to_owned()).collect();
    let bodies: Vec<Vec<Line>> = comments.iter().map(|_| vec![line_of("text")]).collect();
    let shown = visible(&comments, Some(9), &ages, &bodies, 0, 5);
    assert_eq!(shown.len(), 5);
    assert!(flatten(&shown).contains("author9"));
}

#[test]
fn the_composer_shows_what_is_typed_and_where_it_will_land() {
    let mut composer = Composer::new(Target::Line(Anchor::line("src/domain/invoice.rs", Side::New, 31)));
    composer.input.insert_str("this rounds up");
    let text = flatten(&composer_lines(&composer, 100));
    assert!(text.contains("this rounds up"), "{text}");
    assert!(composer_title(&composer, 100).contains("src/domain/invoice.rs:31 (new)"));

    let empty = Composer::new(Target::Line(Anchor::line("src/a.rs", Side::New, 1)));
    let text = flatten(&composer_lines(&empty, 100));
    assert!(text.contains("what should change"), "{text}");
}

#[test]
fn a_refusal_is_shown_in_the_composer_rather_than_only_reported() {
    let mut composer = Composer::new(Target::Line(Anchor::line("src/a.rs", Side::New, 1)));
    composer.refusal = Some("a comment needs a body".to_owned());
    let text = flatten(&composer_lines(&composer, 100));
    assert!(text.contains("a comment needs a body"), "{text}");
}

#[test]
fn a_range_anchor_is_labelled_as_one() {
    let anchor = Anchor {
        path: "src/a.rs".to_owned(),
        side: Side::Old,
        line: 31,
        start_line: Some(28),
        head_sha: None,
    };
    let label = anchor.label();
    let mut composer = Composer::new(Target::Line(anchor));
    composer.input.insert_str("this whole block");
    let text = flatten(&composer_contents(&composer, 100));
    assert!(text.contains("this whole block"), "{text}");
    assert!(!text.contains("makes this a range"), "it is one: {text}");
    assert_eq!(label, "src/a.rs:28-31 (old)");
}

#[test]
fn the_modal_names_the_verdict_it_will_give() {
    assert!(verdict_note(Decision::Approve).contains("unblocks"));
    assert!(verdict_note(Decision::RequestChanges).contains("blocks"));
    assert!(verdict_note(Decision::Comment).contains("decides nothing"));
}

#[test]
fn the_panel_numbers_its_comments_from_one() {
    let state = DraftState::default();
    assert_eq!(state.cursor, 1, "the panel starts on the first row");
}

fn staged(count: u32) -> DraftState {
    let mut draft = Draft::new(141, 0);
    for line in 1..=count {
        let comment = DraftComment::new(
            "src/a.rs".to_owned(),
            Side::New,
            line,
            None,
            format!("comment {line}"),
        )
        .unwrap();
        draft.insert(comment, 1);
    }
    let mut state = DraftState::default();
    state.open(draft, None);
    state
}

#[test]
fn the_draft_panel_lists_each_comment_with_its_number_and_place() {
    let mut state = staged(2);
    state.cursor = 2;
    let bodies = vec![vec![line_of("comment 2")], vec![line_of("comment 1")]];
    let text = flatten(&panel_lines(&state, None, 100, &bodies));
    assert!(text.contains("staged comments (2)"), "{text}");
    assert!(text.contains(" 1. src/a.rs:2 (new)"), "{text}");
    assert!(text.contains(" 2. src/a.rs:1 (new)"), "{text}");
    assert!(text.contains("(not chosen: it will be a comment)"), "{text}");
    assert!(text.contains("(empty)"), "{text}");
    assert!(row_text(&panel_footer(&state)).contains("x removes"));

    let empty = staged(0);
    let text = flatten(&panel_lines(&empty, None, 100, &Vec::new()));
    assert!(text.contains("none yet"), "{text}");
    assert!(row_text(&panel_footer(&empty)).contains(":draft list"));
}

#[test]
fn the_draft_panel_warns_when_the_code_has_moved() {
    let mut state = staged(1);
    state.anchor_to("abc");
    let bodies = vec![vec![line_of("comment 1")]];
    let moved = flatten(&panel_lines(&state, Some("def"), 100, &bodies));
    assert!(moved.contains("the diff has moved"), "{moved}");
    let still = flatten(&panel_lines(&state, Some("abc"), 100, &bodies));
    assert!(!still.contains("the diff has moved"), "{still}");
}

#[test]
fn the_modal_shows_everything_that_is_about_to_be_sent() {
    let mut state = staged(1);
    state.set_decision(Some(Decision::Approve), 2);
    state.set_body("looks right", 3);
    let bodies = vec![vec![line_of("comment 1")]];
    let text = flatten(&modal_lines(&state, &vec![line_of("looks right")], &bodies));
    assert!(text.contains("approve — this unblocks the pull request"), "{text}");
    assert!(text.contains("looks right"), "{text}");
    assert!(text.contains("1 comment(s) — sent verbatim"), "{text}");
    assert!(text.contains(" 1. src/a.rs:1 (new)"), "{text}");
    assert_eq!(modal_title(&state, false), " publish review · #141 · approve ");
    assert_eq!(modal_title(&state, true), " publish review · #141 · approve · DRY RUN ");
    assert!(flatten(&modal_footer(&state, false)).contains("Enter to review it once more"));
    state.armed = true;
    assert!(flatten(&modal_footer(&state, false)).contains("Enter again sends it"));
    assert!(flatten(&modal_footer(&state, true)).contains("nothing will be sent"));
    state.status = DraftStatus::Failed { reason: "403".to_owned() };
    assert!(flatten(&modal_footer(&state, false)).contains("nothing was posted"));
}

#[test]
fn the_composer_leaves_what_the_comment_is_about_in_sight() {
    let (main, composer) = composer_split(body(30), true);
    assert_eq!(composer, Some(Rect::new(0, 22, 120, COMPOSER_HEIGHT)));
    assert_eq!(main, body(22));
    assert_eq!(composer_split(body(30), false), (body(30), None));
    assert_eq!(composer_split(body(10), true), (body(10), None));
    assert!(keyboard_hint().contains("Enter stages it"));
}

#[test]
fn the_spinner_moves_and_wraps() {
    let first = frame_for(0);
    assert_ne!(first, frame_for(1));
    assert_eq!(frame_for(0), frame_for(FRAMES));
    assert_eq!(frame_for(FRAMES + 3), "⠸");
}

#[test]
fn padding_fills_the_row_exactly() {
    let mut left = Line::new();
    left.push("ab".to_owned(), unpainted());
    let mut right = Line::new();
    right.push("cd".to_owned(), unpainted());
    let line = padded_line(left, right, 10);
    assert_eq!(row_text(&line), "ab      cd");
}

#[test]
fn padding_never_goes_negative() {
    let line = padded_line(line_of("abcdefghij"), line_of("kl"), 5);
    assert_eq!(row_text(&line), "abcdefghijkl");
}

#[test]
fn the_columns_fit_the_title_into_whatever_is_left() {
    let columns = Columns::for_width(100);
    assert!(columns.title >= 10);
    assert!(
        columns.total() <= 100,
        "total {} exceeds 100",
        columns.total()
    );
    let narrow = Columns::for_width(10);
    assert_eq!(narrow.title, 10);
}

#[test]
fn the_fixed_columns_leave_the_title_the_rest() {
    let columns = Columns::for_width(100);
    assert_eq!(columns.title, 56);
    assert_eq!(columns.total(), 99);
    assert_eq!(Columns::for_width(53).total(), 53);
}

#[test]
fn a_row_of_the_list_is_found_below_its_header() {
    let area = Rect::new(0, 3, 80, 10);
    assert_eq!(row_at(area, 0, 5), None, "the rule under the header");
    assert_eq!(row_at(area, 0, 6), Some(0));
    assert_eq!(row_at(area, 4, 8), Some(6));
    assert_eq!(row_at(area, 0, 11), Some(5));
    assert_eq!(row_at(area, 0, 12), None, "the border");
}

#[test]
fn syntax_foregrounds_keep_the_diff_background() {
    let base = plain(Element::DiffAdd);
    let syntax = vec![SyntaxSpan { start: 0, end: 3, class: SyntaxClass::Keyword }];
    let line = highlighted_content("let answer = 42;", &syntax, 40, base, false);
    assert_eq!(row_text(&line), "let answer = 42;");
    assert!(line.spans.iter().all(|span| span.paint.element == Some(Element::DiffAdd)));
    assert_eq!(line.spans[0].text, "let");
    assert_eq!(line.spans[0].paint.syntax, Some(SyntaxClass::Keyword));
    assert_eq!(line.spans[1].paint.syntax, None);
}

#[test]
fn highlighted_split_content_remains_column_bounded() {
    let syntax = vec![SyntaxSpan { start: 0, end: 3, class: SyntaxClass::Keyword }];
    let line = highlighted_content("let 東京 = \"wide\";", &syntax, 10, unpainted(), true);
    let rendered = row_text(&line);
    assert_eq!(ratatui::text::Span::raw(rendered.clone()).width(), 10);
    assert!(rendered.contains('…'));
}

#[test]
fn a_range_that_splits_a_character_leaves_the_line_in_one_paint() {
    let syntax = vec![SyntaxSpan { start: 1, end: 2, class: SyntaxClass::Literal }];
    let line = highlighted_content("é!", &syntax, 10, unpainted(), false);
    assert_eq!(line.spans.len(), 1);
    assert_eq!(line.spans[0].text, "é!");
    assert_eq!(line.spans[0].paint.syntax, None);
}

#[test]
fn overlapping_ranges_are_painted_once() {
    let syntax = vec![
        SyntaxSpan { start: 0, end: 4, class: SyntaxClass::Function },
        SyntaxSpan { start: 2, end: 6, class: SyntaxClass::Number },
    ];
    let line = highlighted_content("abcdefgh", &syntax, 10, unpainted(), false);
    let texts: Vec<&str> = line.spans.iter().map(|span| span.text.as_str()).collect();
    assert_eq!(texts, vec!["abcd", "ef", "gh"]);
    assert_eq!(line.spans[1].paint.syntax, Some(SyntaxClass::Number));
}

#[test]
fn the_too_small_message_names_the_requirement() {
    let area = Rect::new(0, 0, 60, 10);
    assert!(is_too_small(area));
    let rendered = flatten(&too_small(area));
    assert!(rendered.contains("terminal too small"), "{rendered}");
    assert!(rendered.contains("80x24"), "{rendered}");
    assert!(rendered.contains("this terminal is 60x10"), "{rendered}");
    assert!(!is_too_small(Rect::new(0, 0, 80, 24)));
}

#[test]
fn the_rows_of_a_frame_follow_each_other() {
    let area = Rect::new(0, 0, 100, 30);
    let rows = frame_rows(area, Mode::Command);
    assert_eq!(rows.header, Rect::new(0, 0, 100, 1));
    assert_eq!(rows.body, Rect::new(0, 1, 100, 24));
    assert_eq!(rows.palette, Rect::new(0, 25, 100, 3));
    assert_eq!(rows.status, Rect::new(0, 28, 100, 1));
    assert_eq!(rows.command, Rect::new(0, 29, 100, 1));
    let (bar, list) = body_split(rows.body);
    assert_eq!(bar, Rect::new(0, 1, 100, 2));
    assert_eq!(list, Rect::new(0, 3, 100, 22));
}

#[test]
fn text_is_cut_and_filled_by_columns() {
    assert_eq!(truncate("東京タワー", 5), "東京…");
    assert_eq!(truncate("short", 5), "short");
    assert_eq!(truncate("short", 0), "");
    assert_eq!(pad("東", 4), "東  ");
    assert_eq!(pad_left("42", 5), "   42");
    assert_eq!(align_right("42", 5), "   42");
}

#[test]
fn the_keys_of_an_action_are_listed_in_order_with_their_modes() {
    let binding = |keys: &str, mode: Option<Mode>, action: &str| Binding {
        keys: keys.to_owned(),
        mode,
        action: action.to_owned(),
    };
    let bindings = vec![
        binding("q", Some(Mode::Normal), "app.quit"),
        binding("<C-c>", None, "app.quit"),
        binding("x", Some(Mode::Popup), "app.quit"),
        binding("?", Some(Mode::Normal), "app.help"),
    ];
    assert_eq!(keys_for(&bindings, "app.quit"), "<C-c>, q, x (popup)");
    assert_eq!(keys_for(&bindings, "app.doctor"), "·");
}

#[test]
fn the_rows_of_a_frame_fill_it_however_low_it_is() {
    for mode in [Mode::Normal, Mode::Command] {
        let full = frame_rows(Rect::new(0, 0, 80, 60), mode);
        let palette = full.palette.height;
        for start in [0u16, 7] {
            for height in 0u16..40 {
                let rows = frame_rows(Rect::new(3, start, 80, height), mode);
                let parts = [rows.header, rows.body, rows.palette, rows.status, rows.command];
                let mut next = start;
                for (part, most) in parts.iter().zip([1, height, palette, 1, 1]) {
                    assert_eq!((part.x, part.width, part.y), (3, 80, next), "{height}: {rows:?}");
                    assert!(part.height <= most, "{height}: {rows:?}");
                    next += part.height;
                }
                assert_eq!(next, start + height, "{rows:?}");
                let body = if height >= 6 + palette { height - 3 - palette } else { height.min(3) };
                assert_eq!(rows.body.height, body, "{height}: {rows:?}");
            }
        }
    }
}
