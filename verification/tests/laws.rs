use smart_review::app::{App, AppState, Config, Pane, Startup};
use smart_review::components::analysis::{context, panel, raw};
use smart_review::components::files::split_line;
use smart_review::components::files::RowSyntax;
use smart_review::diff_view::DiffView;
use smart_review::drafts::DraftState;
use smart_review::effect::AnalysisIntent;
use smart_review::input::TextInput;
use smart_review::jobs::{AnalysisRun, Completion, Outcome, Progress, ProgressUpdate, Update};
use smart_review::keys::KeyCode;
use smart_review::layout::{center_share, centered, split_two, Constraint, Direction, Rect};
use smart_review::notices::{
    add_notice, drop_expired, newest_notice, Notice, NoticeLevel, MAX_NOTICES, NOTICE_LIFETIME_MS,
};
use smart_review::paint::Line;
use smart_review::panel::{AnalysisState, Bundle, Segment};
use smart_review::patch::{DiffLine, FileDiff, FileKind, FileStatus, Hunk, LineKind, Patch, PatchStats};
use smart_review::pr::{CheckSummary, PrState, PullRequestDetail, PullRequestSummary};
use smart_review::scroll::{clamp_offset, ensure_visible};
use smart_review::stream::{StreamBuffer, MAX_STREAM_BYTES};
use smart_review::strings::{is_before, lines, number, sort, split, trim, words};
use smart_review::text::{fill, truncate, Measure};
use smart_review::time::{moment, now_year, LAST_SECOND};
use smart_review::tree::TreeKind;

fn startup() -> Startup {
    Startup {
        config: Config {
            mouse: true,
            page_size: 50,
            max_pages: 10,
            context_lines: 3,
            ignore_whitespace: false,
            workspace_mode: "auto".to_owned(),
            active: None,
            max_context_tokens: None,
            max_file_bytes: 65_536,
        },
        config_source: "defaults".to_owned(),
        config_keys: 0,
        theme: "dark".to_owned(),
        theme_source: "built in".to_owned(),
        theme_request: "dark".to_owned(),
        theme_names: vec!["dark".to_owned(), "light".to_owned()],
        state: AppState {
            theme: None,
            focus: None,
            analysis_opt_in: Vec::new(),
            context_files: Vec::new(),
        },
        warnings: Vec::new(),
        repo: None,
        pr: None,
        path: None,
        remote: None,
        prompt_version: 1,
    }
}


fn app() -> App {
    App::new(startup()).unwrap()
}

fn text(line: &Line) -> String {
    line.spans.iter().map(|span| span.text.as_str()).collect()
}

fn texts(lines: &[Line]) -> String {
    lines.iter().map(|line| text(line) + "\n").collect()
}

fn owned(parts: &[&str]) -> Vec<String> {
    parts.iter().map(|part| (*part).to_owned()).collect()
}

#[test]
fn a_fixed_part_has_its_length_and_the_other_the_rest() {
    for start in [0u16, 1, 7, 500, 30_000] {
        for n in [0u16, 1, 2, 3, 30, 34, 100] {
            for m in [0u16, 1, 3, 10] {
                for extra in [0u16, 1, 2, 5, 50, 997, 30_000] {
                    let whole = n + m + extra;
                    let area = Rect::new(start, 2, whole, 9);
                    let (left, right) = split_two(
                        Direction::Horizontal,
                        Constraint::Length(n),
                        Constraint::Min(m),
                        area,
                    );
                    assert_eq!(left, Rect::new(start, 2, n, 9));
                    assert_eq!(right, Rect::new(start + n, 2, whole - n, 9));

                    let area = Rect::new(2, start, 9, whole);
                    let (top, bottom) = split_two(
                        Direction::Vertical,
                        Constraint::Min(m),
                        Constraint::Length(n),
                        area,
                    );
                    assert_eq!(top, Rect::new(2, start, 9, whole - n));
                    assert_eq!(bottom, Rect::new(2, start + whole - n, 9, n));
                }
            }
        }
    }
}

#[test]
fn where_there_is_too_little_the_growing_part_comes_first() {
    for start in [0u16, 3, 40_000] {
        for n in [1u16, 2, 5, 30] {
            for m in [1u16, 3, 20] {
                for whole in 0..n + m {
                    let kept = m.min(whole);
                    let area = Rect::new(start, 2, whole, 9);
                    let (left, right) = split_two(
                        Direction::Horizontal,
                        Constraint::Length(n),
                        Constraint::Min(m),
                        area,
                    );
                    assert_eq!(left, Rect::new(start, 2, whole - kept, 9));
                    assert_eq!(right, Rect::new(start + whole - kept, 2, kept, 9));
                    let area = Rect::new(2, start, 9, whole);
                    let (top, bottom) = split_two(
                        Direction::Vertical,
                        Constraint::Min(m),
                        Constraint::Length(n),
                        area,
                    );
                    assert_eq!(top, Rect::new(2, start, 9, kept));
                    assert_eq!(bottom, Rect::new(2, start + kept, 9, whole - kept));
                }
            }
        }
    }
}

#[test]
fn a_share_is_centred_and_rounded_to_the_nearest_cell() {
    let rounded = |whole: u16, percent: u16| {
        ((u32::from(whole) * u32::from(percent) + 50) / 100) as u16
    };
    for start in [0u16, 1, 777] {
        for whole in (0u16..130).chain([250, 999, 12_345, 64_000]) {
            for percent in [0u16, 1, 33, 50, 60, 70, 75, 80, 99, 100] {
                let side = (100 - percent) / 2;
                let begin = rounded(whole, side);
                let len = rounded(whole, side + percent) - begin;
                let share = center_share(Rect::new(start, 4, whole, 10), percent, 100);
                assert_eq!(share, Rect::new(start + begin, 4, len, 10), "{percent}% of {whole}");
                let share = center_share(Rect::new(4, start, 10, whole), 100, percent);
                assert_eq!(share, Rect::new(4, start + begin, 10, len), "{percent}% of {whole}");
            }
        }
    }
}

#[test]
fn what_lies_beyond_the_grid_is_not_divided() {
    let edge = Rect { x: 65_530, y: 1, width: 100, height: 5 };
    let (top, bottom) = split_two(
        Direction::Vertical,
        Constraint::Length(1),
        Constraint::Min(3),
        edge,
    );
    assert_eq!((top.width, bottom.width), (100, 100));
    let (left, right) = split_two(
        Direction::Horizontal,
        Constraint::Length(2),
        Constraint::Min(1),
        edge,
    );
    assert_eq!((left.x, left.width), (65_530, 2));
    assert_eq!((right.x, right.width), (65_532, 3));
    assert_eq!(centered(Rect::new(10, 10, 20, 10), 8, 4), Rect::new(16, 13, 8, 4));
}

#[test]
fn the_calendar_knows_the_year_and_where_it_ends() {
    assert_eq!(now_year(0), 1970);
    assert_eq!(now_year(951_782_400), 2000, "the end of February");
    assert_eq!(now_year(1_735_689_599), 2024, "one second before midnight");
    assert_eq!(now_year(1_735_689_600), 2025);
    assert_eq!(now_year(u64::MAX), 1970, "beyond the calendar");
    assert_eq!(now_year(4_133_980_799), 2100, "a hundredth year without a leap day");
    assert_eq!(now_year(4_133_980_800), 2101);
    assert_eq!(now_year(253_402_300_799), 9_999);
    assert_eq!(now_year(253_402_300_800), 10_000);
    assert_eq!(now_year(LAST_SECOND as u64), 262_142);
    assert_eq!(now_year(LAST_SECOND as u64 + 1), 1970);
    assert_eq!(moment(1_000), 1_000);
    assert_eq!(moment(u64::MAX), 0, "beyond the clock");
    assert_eq!(moment(i64::MAX as u64), 0, "beyond the calendar");
    assert_eq!(moment(LAST_SECOND as u64), LAST_SECOND);
    assert_eq!(moment(LAST_SECOND as u64 + 1), 0);
}

#[test]
fn panes_cycle_both_ways_and_survive_being_written_down() {
    for pane in [Pane::PullRequests, Pane::Diff, Pane::Chat] {
        assert_eq!(pane.next().prev(), pane);
        assert_eq!(pane.prev().next(), pane);
        assert_eq!(pane.next().next().next(), pane);
        assert_eq!(Pane::parse(pane.label()), pane);
    }
}

#[test]
fn texts_are_put_in_order_and_none_is_lost() {
    let sorted = sort(&owned(&["b", "", "ab", "é", "a", "b"]));
    assert_eq!(sorted, owned(&["", "a", "ab", "b", "b", "é"]));
    assert!(is_before("a", "ab") && !is_before("ab", "a") && !is_before("a", "a"));
}

#[test]
fn numbers_lines_and_words_are_written_and_read() {
    assert_eq!(number(0), "0");
    assert_eq!(number(u64::MAX), "18446744073709551615");
    assert_eq!(trim("\u{2003} a b\t\n"), "a b");
    assert_eq!(words(" a\u{a0}b  c\n"), owned(&["a", "b", "c"]));
    assert_eq!(lines("a\r\n\nb"), owned(&["a", "", "b"]));
    assert_eq!(split("a/b//", '/'), owned(&["a", "b", "", ""]));
}

#[test]
fn blank_is_what_the_property_says() {
    let blank = |c: char| {
        matches!(
            c as u32,
            0x9..=0xd | 0x20 | 0x85 | 0xa0 | 0x1680 | 0x2000..=0x200a | 0x2028 | 0x2029 | 0x202f
                | 0x205f | 0x3000
        )
    };
    for c in '\0'..=char::MAX {
        assert_eq!(trim(&c.to_string()).is_empty(), blank(c), "{:x}", c as u32);
    }
}

#[test]
fn wrapping_keeps_every_word_and_no_line_is_too_long() {
    let all = words("the quick brown fox jumps over an incomprehensibilities dog");
    let wrapped = fill(&all, 12, Measure::Chars);
    assert_eq!(wrapped.join(" "), all.join(" "));
    for line in &wrapped {
        assert!(line.len() <= 12 || !line.contains(' '), "{line}");
    }
    assert_eq!(truncate("東京都", 5), "東京…");
    assert_eq!(truncate("tokyo", 5), "tokyo");
}

#[test]
fn typing_is_undone_and_the_cursor_stays_in_the_text() {
    let mut input = TextInput::new();
    input.set_text("one\ntwo");
    input.up();
    let before = (input.text(), input.position());
    input.insert('é');
    assert_ne!(input.text(), before.0);
    input.backspace();
    assert_eq!((input.text(), input.position()), before);
    for code in [
        KeyCode::Left,
        KeyCode::Up,
        KeyCode::Home,
        KeyCode::Backspace,
        KeyCode::Delete,
        KeyCode::Right,
        KeyCode::Down,
        KeyCode::End,
        KeyCode::Right,
    ] {
        input.press(code);
        assert!(input.cursor <= input.chars.len());
    }
    assert_eq!(input.lines().len(), 2);
}

#[test]
fn a_stream_is_bounded_and_is_cut_between_characters() {
    let mut stream = StreamBuffer::default();
    stream.push(&"a".repeat(MAX_STREAM_BYTES - 1));
    assert!(!stream.is_truncated());
    stream.push("éb");
    assert!(stream.is_truncated());
    assert_eq!(stream.text().len(), MAX_STREAM_BYTES - 1, "half a character is not kept");
    stream.clear();
    stream.push("again");
    assert_eq!(stream.text(), "again");
    assert!(!stream.is_truncated());
}

fn said(notices: &[Notice]) -> Vec<&str> {
    notices.iter().map(|notice| notice.text.as_str()).collect()
}

#[test]
fn notices_are_bounded_and_an_error_is_the_last_to_go() {
    let mut notices: Vec<Notice> = Vec::new();
    add_notice(&mut notices, NoticeLevel::Error, "broken", 0);
    for at in 1..=5 {
        add_notice(&mut notices, NoticeLevel::Info, &format!("news {at}"), at);
        assert!(notices.len() <= MAX_NOTICES);
    }
    assert_eq!(said(&notices), vec!["broken", "news 4", "news 5"]);
    assert_eq!(newest_notice(&notices, 6).map(|n| n.text.as_str()), Some("news 5"));
    drop_expired(&mut notices, NOTICE_LIFETIME_MS + 100);
    assert_eq!(said(&notices), vec!["broken"]);
    for at in 0..3 {
        add_notice(&mut notices, NoticeLevel::Error, &format!("worse {at}"), at);
    }
    assert_eq!(said(&notices), vec!["worse 0", "worse 1", "worse 2"]);
}

#[test]
fn a_window_that_shows_the_cursor_stays() {
    assert_eq!(ensure_visible(5, 3, 4, 10), 3);
    assert_eq!(ensure_visible(9, 3, 4, 10), 6);
    assert_eq!(ensure_visible(1, 3, 4, 10), 1);
    assert_eq!(ensure_visible(0, 9, 4, 3), 0);
    assert_eq!(clamp_offset(8, 4, 10), 6);
    let once = ensure_visible(7, 0, 4, 10);
    assert_eq!(ensure_visible(7, once, 4, 10), once);
}

fn line(kind: LineKind, old_line: Option<u32>, new_line: Option<u32>, content: &str) -> DiffLine {
    DiffLine { kind, old_line, new_line, content: content.to_owned(), no_newline: false }
}

fn file(path: &str) -> FileDiff {
    FileDiff {
        path: Some(path.to_owned()),
        display_path: path.to_owned(),
        size_label: "+1 −1".to_owned(),
        placeholder: None,
        status: FileStatus::Modified,
        kind: FileKind::Text,
        hunks: vec![Hunk {
            header: "@@ -1,2 +1,2 @@".to_owned(),
            lines: vec![
                line(LineKind::Context, Some(1), Some(1), "kept"),
                line(LineKind::Delete, Some(2), None, "before"),
                line(LineKind::Add, None, Some(2), "after"),
            ],
        }],
    }
}

fn patch(paths: &[&str]) -> Patch {
    Patch {
        files: paths.iter().map(|path| file(path)).collect(),
        stats: PatchStats { files: paths.len(), label: format!("{} files", paths.len()) },
    }
}

fn row_texts(view: &DiffView) -> Vec<String> {
    view.rows.iter().map(|row| row.text.clone()).collect()
}

#[test]
fn folding_twice_gives_back_the_rows_and_the_header_stays() {
    let mut view = DiffView::new(patch(&["a.rs", "b.rs"]));
    let before = row_texts(&view);
    view.select_row(1);
    view.toggle_hunk();
    assert!(view.current_hunk_is_folded());
    assert_eq!(view.rows.len(), before.len() - 2, "two rows stand for the hunk");
    assert_eq!(row_texts(&view)[..2], before[..2]);
    assert_eq!(view.cursor, 1);
    view.toggle_hunk();
    assert_eq!(row_texts(&view), before);
}

#[test]
fn folding_twice_from_the_row_below_the_header_restores_the_view() {
    let mut view = DiffView::new(patch(&["a.rs", "b.rs"]));
    let before = (row_texts(&view), view.split_rows.clone(), view.tree.len());
    view.select_row(2);
    view.toggle_hunk();
    assert_eq!(view.cursor, 2);
    assert_eq!((view.rows[2].file, view.rows[2].hunk), (0, Some(0)));
    view.toggle_hunk();
    assert_eq!(view.cursor, 2);
    assert_eq!((row_texts(&view), view.split_rows.clone(), view.tree.len()), before);
    assert!(view.folded_hunks.is_empty());
}

#[test]
fn the_tree_holds_every_file_once() {
    let paths = ["src/b/two.rs", "README.md", "src/a.rs", "src/b/one.rs"];
    let view = DiffView::new(patch(&paths));
    let mut found: Vec<usize> = view
        .tree
        .iter()
        .filter_map(|row| match row.kind {
            TreeKind::File { index } => Some(index),
            _ => None,
        })
        .collect();
    found.sort_unstable();
    assert_eq!(found, vec![0, 1, 2, 3]);
}

#[test]
fn both_views_show_the_same_lines_and_the_sides_fill_the_width() {
    let mut view = DiffView::new(patch(&["a.rs"]));
    view.split = true;
    view.rebuild();
    let bare = RowSyntax { left: Vec::new(), right: Vec::new() };
    let beside: Vec<String> = view
        .split_rows
        .iter()
        .map(|row| text(&split_line(&view, row, false, 60, &DraftState::default(), &bare)))
        .collect();
    for words in ["kept", "before", "after"] {
        assert!(beside.iter().any(|row| row.contains(words)), "{beside:?}");
    }
    let pair = beside.iter().find(|row| row.contains("before")).expect("drawn");
    assert!(pair.contains("after"), "{pair}");
    assert_eq!(pair.chars().count(), 60, "{pair:?}");
}

fn detail() -> PullRequestDetail {
    PullRequestDetail {
        summary: PullRequestSummary {
            number: 141,
            title: "Round half up".to_owned(),
            author: "alice".to_owned(),
            state: PrState::Open,
            work_in_progress: false,
            base_ref: "main".to_owned(),
            head_ref: "topic".to_owned(),
            head_sha: "abc123".to_owned(),
            changed_files: 1,
            review_decision: None,
            checks: CheckSummary::default(),
        },
        body: String::new(),
        commits: Vec::new(),
        checks: Vec::new(),
        reviews: Vec::new(),
        comments: Vec::new(),
        conversation: Vec::new(),
    }
}

fn review_app() -> App {
    let mut app = app();
    app.open_review(detail(), DiffView::new(patch(&["a.rs"])));
    app
}

fn bundle() -> Bundle {
    Bundle {
        summary: "~12 tokens of context".to_owned(),
        segments: vec![Segment {
            label: "metadata".to_owned(),
            included: true,
            truncated: false,
            tokens: 12,
            detail: None,
        }],
    }
}

const SCREEN: Rect = Rect { x: 0, y: 0, width: 120, height: 40 };

#[test]
fn an_analysis_is_gathered_streamed_and_stopped() {
    let mut app = review_app();
    app.apply_context(bundle(), AnalysisIntent::Estimate);
    assert!(app.analysis_state().is_confirming());
    let asked = texts(&panel(SCREEN, &app, "", &None).lines);
    assert!(!asked.is_empty());
    let shown = texts(&context(SCREEN, &app).lines);
    assert!(shown.contains("~12 tokens of context"), "{shown}");
    assert!(shown.contains("metadata"), "{shown}");

    app.begin_analysis();
    app.record_analysis_job(4);
    app.apply_progress(Progress {
        job: 3,
        update: ProgressUpdate::Analysis(Update::Delta("stale".to_owned())),
    });
    assert_eq!(app.analysis_stream(), "");
    app.apply_progress(Progress {
        job: 4,
        update: ProgressUpdate::Analysis(Update::Delta("fresh".to_owned())),
    });
    assert_eq!(app.analysis_stream(), "fresh");
    app.cancelled_analysis();
    assert_eq!(*app.analysis_state(), AnalysisState::Cancelled);
}

#[test]
fn an_unusable_answer_can_be_read_and_lands_once() {
    let mut app = review_app();
    app.begin_analysis();
    app.record_analysis_job(4);
    let landed = || Completion {
        job: 4,
        outcome: Outcome::Analyzed(AnalysisRun::Unparsed {
            reason: "no json".to_owned(),
            raw: "Sure!\nHere it is.".to_owned(),
        }),
    };
    app.apply_completion(landed());
    assert_eq!(
        *app.analysis_state(),
        AnalysisState::Unusable { reason: "no json".to_owned() }
    );
    let shown = texts(&raw(SCREEN, &app).lines);
    assert!(shown.contains("why it could not be used: no json"), "{shown}");
    assert!(shown.contains("Here it is."), "{shown}");

    app.forget_analysis();
    app.apply_completion(landed());
    assert!(app.raw_answer().is_none(), "the job is not waited for again");
}
