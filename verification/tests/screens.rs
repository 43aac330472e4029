use smart_review::app::{App, AppState, Config, EnvironmentError, Startup};
use smart_review::components::analysis::{failed, running, shown_preview, Arrived, PreviewRisk};
use smart_review::components::chrome::{
    body_split, chip_line, command_line, header, palette, search_line, status_line,
};
use smart_review::components::files::{
    diff_lines, diff_title, drawn_rows, has_draft, tree_lines, tree_title, unified_line, RowSyntax,
    SPLIT_MIN_WIDTH,
};
use smart_review::components::guidance::{
    compact, evidence, expanded, guide, offset, room_for, title, Evidence, FileGuidance,
};
use smart_review::components::highlight::SyntaxSpan;
use smart_review::components::overview::{checks, overview, OverviewText};
use smart_review::components::popups::{doctor, help, leader_menu, opening_popup, theme_picker};
use smart_review::components::pr_list::{list_lines, list_title, row_at, rows_in, state};
use smart_review::components::review::{layout, tab_at, tab_label, tabs, ReviewTab};
use smart_review::components::threads::{discussion, discussion_title, matches_filter, DiscussionText};
use smart_review::diff_view::DiffView;
use smart_review::discussion::{DiscussionFilter, DiscussionState};
use smart_review::draft::Side;
use smart_review::drafts::DraftState;
use smart_review::keys::{Binding, Mode};
use smart_review::layout::Rect;
use smart_review::list_view::PullRequestPage;
use smart_review::notices::NoticeLevel;
use smart_review::paint::{Element, Line, SyntaxClass};
use smart_review::panel::{
    Analysis, AnalysisKey, AnalysisState, FileNote, PanelModel, PanelPlanStep, PanelRisk, Severity,
    StoredAnalysis,
};
use smart_review::patch::{
    DiffLine, FileDiff, FileKind, FileStatus, Hunk, LineKind, Patch, PatchStats, ReviewComment,
};
use smart_review::plan::{OrderMode, Plan, PlanGroup, PlanSource};
use smart_review::pr::{
    CheckLifecycle, CheckRun, CheckState, CheckSummary, ConversationComment, PrState,
    PullRequestDetail, PullRequestSummary, Review, ReviewDecision,
};
use smart_review::text::pad;

fn startup() -> Startup {
    Startup {
        config: Config {
            mouse: true,
            page_size: 50,
            max_pages: 10,
            context_lines: 3,
            ignore_whitespace: false,
            workspace_mode: "auto".to_owned(),
            active: None,
            max_context_tokens: None,
            max_file_bytes: 65_536,
        },
        config_source: "defaults".to_owned(),
        config_keys: 0,
        theme: "dark".to_owned(),
        theme_source: "built in".to_owned(),
        theme_request: "dark".to_owned(),
        theme_names: vec!["dark".to_owned(), "light".to_owned()],
        state: AppState {
            theme: None,
            focus: None,
            analysis_opt_in: Vec::new(),
            context_files: Vec::new(),
        },
        warnings: Vec::new(),
        repo: None,
        pr: None,
        path: None,
        remote: None,
        prompt_version: 1,
    }
}


fn app() -> App {
    App::new(startup()).unwrap()
}

fn text(line: &Line) -> String {
    line.spans.iter().map(|span| span.text.as_str()).collect()
}

fn texts(lines: &[Line]) -> String {
    lines.iter().map(|line| text(line) + "\n").collect()
}

fn plain(words: &str) -> Line {
    Line::literal(words, Element::Fg)
}

fn summary(number: u64, title: &str) -> PullRequestSummary {
    PullRequestSummary {
        number,
        title: title.to_owned(),
        author: "alice".to_owned(),
        state: PrState::Open,
        work_in_progress: false,
        base_ref: "main".to_owned(),
        head_ref: "topic".to_owned(),
        head_sha: "abc".to_owned(),
        changed_files: 1,
        review_decision: Some(ReviewDecision::Approved),
        checks: CheckSummary { state: CheckState::Success, passed: 3, total: 3 },
    }
}

fn complete(items: Vec<PullRequestSummary>) -> PullRequestPage {
    let count = items.len();
    PullRequestPage {
        items,
        matches: (0..count).collect(),
        total: Some(count as u64),
        may_have_more: false,
    }
}

fn search(app: &mut App, words: &str) {
    let found = app
        .list
        .items
        .iter()
        .enumerate()
        .filter(|(_, item)| item.title.contains(words))
        .map(|(index, _)| index)
        .collect();
    app.list.set_search(words.to_owned(), found);
}

/// The two rows of the filter bar.
fn bar(app: &App) -> String {
    texts(&[chip_line(app), search_line(app)])
}

/// The list pane, with its title.
fn list_pane(app: &App, width: u16, height: u16) -> String {
    let ages: Vec<String> = app.list.items.iter().map(|_| "2h".to_owned()).collect();
    let area = Rect::new(0, 0, width, height);
    let error: Vec<String> = app.list.error.iter().cloned().collect();
    list_title(app) + "\n" + &texts(&list_lines(app, area, &ages, &error))
}

#[test]
fn a_fresh_list_shows_the_state_chip_and_a_hint() {
    let app = app();
    let rendered = bar(&app);
    assert!(rendered.contains("[is:open]"), "{rendered}");
    assert!(rendered.contains("<leader>f adds one"), "{rendered}");
    assert!(rendered.contains("/ filters"), "{rendered}");
}

#[test]
fn every_chip_is_visible_and_the_hint_changes() {
    let mut app = app();
    app.list.chips.push("author:alice".to_owned());
    app.list.chips.push("label:\"needs review\"".to_owned());
    app.list.filtered = true;
    let rendered = bar(&app);
    assert!(rendered.contains("[author:alice]"), "{rendered}");
    assert!(rendered.contains("[label:\"needs review\"]"), "{rendered}");
    assert!(rendered.contains("x clear"), "{rendered}");
}

#[test]
fn the_search_box_shows_the_count_while_filtering() {
    let mut app = app();
    app.list.replace(complete(vec![
        summary(1, "retry the webhook"),
        summary(2, "billing"),
    ]));
    search(&mut app, "webhook");
    let rendered = bar(&app);
    assert!(rendered.contains("webhook"), "{rendered}");
    assert!(rendered.contains("(1 matching)"), "{rendered}");
}

#[test]
fn the_search_box_looks_like_an_input_while_it_is_being_typed_in() {
    let mut app = app();
    app.mode = Mode::Search;
    search(&mut app, "bill");
    let rendered = bar(&app);
    assert!(rendered.contains("/ bill"), "{rendered}");
    assert!(rendered.contains('_'), "a caret while typing: {rendered}");
}

const SCREEN: Rect = Rect { x: 0, y: 0, width: 100, height: 20 };

fn opening(app: &App) -> String {
    match opening_popup(SCREEN, app) {
        Some(popup) => popup.title + "\n" + &texts(&popup.lines),
        None => String::new(),
    }
}

#[test]
fn nothing_is_drawn_when_nothing_is_opening() {
    assert!(opening(&app()).trim().is_empty());
}

#[test]
fn the_indicator_names_the_pull_request_the_step_and_the_way_out() {
    let mut app = app();
    app.begin_opening(141);

    let rendered = opening(&app);
    assert!(rendered.contains("Opening"), "{rendered}");
    assert!(rendered.contains("#141"), "{rendered}");
    assert!(rendered.contains("pull request"), "{rendered}");
    assert!(rendered.contains("Esc gives up"), "{rendered}");

    app.advance_opening();
    let rendered = opening(&app);
    assert!(rendered.contains("diff"), "{rendered}");
}

#[test]
fn the_elapsed_time_is_shown_once_it_is_worth_showing() {
    let mut app = app();
    app.set_now(1_000);
    app.begin_opening(7);
    assert!(
        !opening(&app).contains("s ·") && !opening(&app).contains(" 0s"),
        "a fraction of a second is not worth a notice"
    );

    app.set_now(1_004);
    assert!(opening(&app).contains("4s"), "{}", opening(&app));
}

#[test]
fn the_body_shows_the_list_when_no_pull_request_is_open() {
    let app = app();
    assert!(app.review_screen().is_none());
    let (bar_area, list) = body_split(Rect::new(0, 0, 120, 30));
    assert_eq!(bar_area, Rect::new(0, 0, 120, 2));
    assert_eq!(list, Rect::new(0, 2, 120, 28));
    let rendered = bar(&app) + &list_pane(&app, list.width, list.height);
    assert!(rendered.contains("filters"), "{rendered}");
    assert!(rendered.contains("[is:open]"), "{rendered}");
    assert!(!rendered.contains("order ("), "{rendered}");
}

fn no_files() -> Patch {
    Patch { files: Vec::new(), stats: PatchStats { files: 0, label: "0 files".to_owned() } }
}

#[test]
fn the_body_shows_the_review_when_a_pull_request_is_open() {
    let mut app = app();
    app.set_review(DiffView::new(no_files()));
    let view = app.review_screen().expect("a review");
    let rendered = tree_title(view, &Some("patch".to_owned()), None);
    assert_eq!(view.order, OrderMode::Path);
    assert!(rendered.contains("path order · patch (0)"), "{rendered}");
    assert!(
        !files_screen(&app, 120, 30).contains("[is:open]"),
        "the list is not drawn behind the review screen"
    );
}

#[test]
fn an_empty_list_explains_itself_rather_than_showing_a_blank_pane() {
    let mut app = app();
    app.environment_running = false;
    app.list.loading = true;
    let rendered = list_pane(&app, 100, 12);
    assert!(rendered.contains("Loading pull requests"), "{rendered}");
}

#[test]
fn a_failed_environment_shows_the_message_and_the_next_step() {
    let mut app = app();
    app.environment_running = false;
    app.environment_error = Some(EnvironmentError {
        message: "`gh` was not found".to_owned(),
        advice: "install the GitHub CLI from https://cli.github.com".to_owned(),
    });
    let rendered = list_pane(&app, 100, 14);
    assert!(rendered.contains("Cannot read pull requests"), "{rendered}");
    assert!(rendered.contains("was not found"), "{rendered}");
    assert!(rendered.contains("cli.github.com"), "{rendered}");
}

#[test]
fn rows_show_the_number_draft_marker_title_author_age_checks_and_decision() {
    let mut app = app();
    let mut draft = summary(141, "WIP refactor of billing");
    draft.work_in_progress = true;
    draft.author = "bruno".to_owned();
    draft.review_decision = Some(ReviewDecision::ChangesRequested);
    draft.checks = CheckSummary { state: CheckState::Failure, passed: 1, total: 3 };
    app.list.replace(complete(vec![summary(142, "Add retry"), draft]));

    let rendered = list_pane(&app, 110, 14);
    assert!(rendered.contains("Add retry"), "{rendered}");
    assert!(rendered.contains("142"), "{rendered}");
    assert!(rendered.contains('◌'), "the draft marker: {rendered}");
    assert!(rendered.contains("bruno"), "{rendered}");
    assert!(rendered.contains("2h"), "{rendered}");
    assert!(rendered.contains("3/3"), "{rendered}");
    assert!(rendered.contains("1/3"), "{rendered}");
    assert!(rendered.contains("ok"), "an approval marker: {rendered}");
    assert!(
        rendered.contains("no"),
        "a changes-requested marker: {rendered}"
    );
    assert!(rendered.contains('▶'), "the cursor: {rendered}");
}

#[test]
fn a_search_that_matches_nothing_echoes_the_query() {
    let mut app = app();
    app.environment_running = false;
    app.list.replace(complete(vec![summary(1, "one")]));
    search(&mut app, "nothing matches this");

    let rendered = list_pane(&app, 100, 14);
    assert!(rendered.contains("Nothing matches"), "{rendered}");
    assert!(rendered.contains("query:"), "{rendered}");
    assert!(rendered.contains("nothing matches this"), "{rendered}");
}

#[test]
fn a_fetch_failure_offers_a_retry() {
    let mut app = app();
    app.environment_running = false;
    app.list.error = Some("gh pr list failed (exit 1): no network".to_owned());
    let rendered = list_pane(&app, 100, 14);
    assert!(
        rendered.contains("Could not list pull requests"),
        "{rendered}"
    );
    assert!(rendered.contains("no network"), "{rendered}");
    assert!(rendered.contains("R retries"), "{rendered}");
}

#[test]
fn the_title_says_what_is_being_listed_and_how_much_of_it() {
    let mut app = app();
    app.list.replace(complete(vec![summary(1, "one")]));
    app.list.set_total(137);
    let rendered = list_pane(&app, 120, 10);
    assert!(rendered.contains("showing 1 of 137"), "{rendered}");
    assert!(rendered.contains("open"), "{rendered}");
}

#[test]
fn a_long_title_is_cut_to_the_column_and_never_wraps() {
    let mut app = app();
    app.list
        .replace(complete(vec![summary(1, &"很长的标题".repeat(40))]));
    let rendered = list_pane(&app, 100, 10);
    for line in rendered.lines() {
        assert!(line.chars().count() <= 100, "a row wrapped: {line:?}");
    }
    assert!(rendered.contains('…'), "the cut is marked: {rendered}");
}

#[test]
fn a_row_that_does_not_fit_the_height_is_not_laid_out() {
    let mut app = app();
    app.list
        .replace(complete((1..=50).map(|number| summary(number, "x")).collect()));
    let rendered = list_pane(&app, 100, 12);
    assert!(rendered.contains("showing 50"), "{rendered}");
    let rows = rendered
        .lines()
        .filter(|line| line.contains("alice"))
        .count();
    assert!(rows <= 8, "drew {rows} rows in a 12-row pane");
    assert_eq!(rows, rows_in(Rect::new(0, 0, 100, 12)));
}

#[test]
fn the_state_accessor_matches_the_app() {
    let app = app();
    assert_eq!(state(&app).items.len(), 0);
}

#[test]
fn a_row_is_found_where_it_is_drawn() {
    let area = Rect::new(0, 4, 100, 12);
    assert_eq!(row_at(area, 0, 6), None, "the heading and its rule");
    assert_eq!(row_at(area, 0, 7), Some(0));
    assert_eq!(row_at(area, 5, 9), Some(7));
    assert_eq!(row_at(area, 0, 14), Some(7));
    assert_eq!(row_at(area, 0, 15), None, "the border");
}

fn line(kind: LineKind, old_line: Option<u32>, new_line: Option<u32>, content: &str) -> DiffLine {
    DiffLine { kind, old_line, new_line, content: content.to_owned(), no_newline: false }
}

fn invoice() -> Patch {
    Patch {
        files: vec![FileDiff {
            path: Some("src/domain/invoice.rs".to_owned()),
            display_path: "src/domain/invoice.rs".to_owned(),
            size_label: "+2 −1".to_owned(),
            placeholder: None,
            status: FileStatus::Modified,
            kind: FileKind::Text,
            hunks: vec![Hunk {
                header: "@@ -12,3 +14,4 @@ impl Invoice {".to_owned(),
                lines: vec![
                    line(LineKind::Context, Some(12), Some(14), "    pub fn total(&self) -> Money {"),
                    line(LineKind::Delete, Some(13), None, "        self.lines.sum()"),
                    line(LineKind::Add, None, Some(15), "        let gross = self.lines.sum();"),
                    line(LineKind::Add, None, Some(16), "        gross - self.discount"),
                    line(LineKind::Context, Some(14), Some(17), "    }"),
                ],
            }],
        }],
        stats: PatchStats { files: 1, label: "1 file +2 −1".to_owned() },
    }
}

fn opened(number: u64, files: u64) -> PullRequestDetail {
    let mut shown = summary(number, "Refactor the billing domain");
    shown.author = "bruno".to_owned();
    shown.review_decision = None;
    shown.changed_files = files;
    shown.checks = CheckSummary::default();
    PullRequestDetail {
        summary: shown,
        body: String::new(),
        commits: Vec::new(),
        checks: Vec::new(),
        reviews: Vec::new(),
        comments: Vec::new(),
        conversation: Vec::new(),
    }
}

fn app_with_patch() -> App {
    let mut app = app();
    app.open_review(opened(141, 1), DiffView::new(invoice()));
    app
}

fn no_syntax(view: &DiffView) -> Vec<RowSyntax> {
    let count = view.rows.len().max(view.split_rows.len());
    (0..count)
        .map(|_| RowSyntax { left: Vec::new(), right: Vec::new() })
        .collect()
}

/// The two panes of the Files screen, with their titles, as a terminal of this width draws them.
fn files_screen(app: &App, terminal: u16, height: u16) -> String {
    let view = app.review.as_ref().expect("a review");
    let marks: Vec<String> = view.patch.files.iter().map(|_| "□".to_owned()).collect();
    let (_, count) = drawn_rows(view, terminal, height);
    let syntax: Vec<RowSyntax> = no_syntax(view).into_iter().take(count).collect();
    let width = terminal.saturating_sub(34);
    tree_title(view, &Some(view.plan.as_ref().map_or("rules", |plan| plan.source.label()).to_owned()), None)
        + "\n"
        + &texts(&tree_lines(view, &marks, height as usize))
        + &diff_title(view, app, terminal, false)
        + "\n"
        + &texts(&diff_lines(view, &DraftState::default(), terminal, width, height, &syntax))
}

#[test]
fn a_diff_row_uses_its_cached_language_ranges() {
    let app = app_with_patch();
    let view = app.review.as_ref().expect("review");
    let row = view
        .rows
        .iter()
        .find(|row| row.text.contains("let gross"))
        .expect("Rust addition");
    let start = row.text.find("let").expect("a keyword");
    let keyword_range = SyntaxSpan { start, end: start + 3, class: SyntaxClass::Keyword };
    let marked = has_draft(view, &DraftState::default(), row);
    let rendered = unified_line(row, false, 100, marked, &vec![keyword_range]);
    let keyword = rendered
        .spans
        .iter()
        .find(|span| span.text == "let")
        .expect("highlighted keyword");

    assert_eq!(keyword.paint.syntax, Some(SyntaxClass::Keyword));
    assert_eq!(keyword.paint.element, Some(Element::DiffAdd));
}

#[test]
fn the_screen_shows_a_tree_and_a_diff() {
    let mut app = app_with_patch();
    app.review.as_mut().expect("review").set_order(OrderMode::Recommended);
    let rendered = files_screen(&app, 120, 30);
    assert!(
        rendered.contains("recommended order · rules (1)"),
        "{rendered}"
    );
    assert!(rendered.contains("□M invoice.rs"), "{rendered}");
    assert!(rendered.contains("invoice.rs"), "{rendered}");
    assert!(rendered.contains("unified"), "{rendered}");
    assert!(
        rendered.contains("impl Invoice"),
        "the hunk heading: {rendered}"
    );
    assert!(rendered.contains("gross - self.discount"), "{rendered}");
}

fn money() -> Patch {
    let file = |path: &str, before: &str, after: &str| FileDiff {
        path: Some(path.to_owned()),
        display_path: path.to_owned(),
        size_label: "+1 −1".to_owned(),
        placeholder: None,
        status: FileStatus::Modified,
        kind: FileKind::Text,
        hunks: vec![Hunk {
            header: "@@ -1,1 +1,1 @@".to_owned(),
            lines: vec![
                line(LineKind::Delete, Some(1), None, before),
                line(LineKind::Add, None, Some(1), after),
            ],
        }],
    };
    Patch {
        files: vec![
            file("src/domain/money.rs", "floor", "round"),
            file("src/api/invoices.rs", "cents", "money"),
        ],
        stats: PatchStats { files: 2, label: "2 files +2 −2".to_owned() },
    }
}

fn reading_plan() -> Plan {
    Plan {
        groups: vec![
            PlanGroup {
                group: "domain".to_owned(),
                order: 1,
                rationale: "rules first".to_owned(),
                files: vec!["src/domain/money.rs".to_owned()],
            },
            PlanGroup {
                group: "api".to_owned(),
                order: 2,
                rationale: "then its callers".to_owned(),
                files: vec!["src/api/invoices.rs".to_owned()],
            },
        ],
        source: PlanSource::Analysis,
        overridden: false,
        head_sha: "abc123".to_owned(),
    }
}

fn stored_analysis(head: &str) -> StoredAnalysis {
    StoredAnalysis {
        key: AnalysisKey {
            repo: "github.com/acme/service".to_owned(),
            pr: 141,
            head_sha: head.to_owned(),
            provider: "deepseek".to_owned(),
            model: "deepseek-v4-pro".to_owned(),
            thinking: None,
            prompt_version: 1,
        },
        analysis: Analysis {
            head_sha: head.to_owned(),
            prompt_version: 1,
            notes: vec![FileNote {
                path: "src/domain/money.rs".to_owned(),
                notes: "check the sign".to_owned(),
                change: "rounds half up".to_owned(),
                review_focus: vec!["negative amounts".to_owned()],
            }],
            plan: reading_plan(),
            panel: PanelModel {
                summary: "Rounds money.".to_owned(),
                intent: "Fix the totals.".to_owned(),
                risks: vec![PanelRisk {
                    severity: Severity::High,
                    title: "rounding".to_owned(),
                    why: "totals change".to_owned(),
                    files: vec!["src/domain/money.rs".to_owned()],
                    supported: true,
                }],
                questions: vec!["Does it round half up?".to_owned()],
                steps: vec![PanelPlanStep {
                    order: 1,
                    name: "domain".to_owned(),
                    rationale: "rules first".to_owned(),
                    files: vec!["src/domain/money.rs".to_owned()],
                }],
                analyzed_files: vec![
                    "src/domain/money.rs".to_owned(),
                    "src/api/invoices.rs".to_owned(),
                ],
                truncated_files: Vec::new(),
                limitations: vec!["tests were not read".to_owned()],
            },
        },
        raw: "{}".to_owned(),
        warnings: Vec::new(),
        repaired: false,
        stored_at: 900,
    }
}

/// An app whose pull request is the one the analysis describes.
fn app_with_analysed_patch() -> App {
    let mut app = app();
    let mut detail = opened(141, 2);
    detail.summary.head_sha = "abc123".to_owned();
    app.open_review(detail, DiffView::new(money()));
    app.panel.analysis = Some(stored_analysis("abc123"));
    app
}

fn note_on_money() -> FileGuidance {
    FileGuidance {
        path: "src/domain/money.rs".to_owned(),
        what_changed: "rounds half up".to_owned(),
        inferred_why: "totals were a cent short".to_owned(),
        verify: vec!["check the sign".to_owned(), "large amounts".to_owned()],
        truncated: false,
        evidence: vec![Evidence {
            path: "src/domain/money.rs".to_owned(),
            side: Some(Side::New),
            line: Some(1),
            label: "new rounding rule".to_owned(),
        }],
    }
}

fn said_nothing() -> FileGuidance {
    FileGuidance {
        path: "src/domain/money.rs".to_owned(),
        what_changed: String::new(),
        inferred_why: String::new(),
        verify: Vec::new(),
        truncated: true,
        evidence: Vec::new(),
    }
}

/// The expanded guidance, each text on a line of its own, with its title.
fn expanded_pane(guidance: &FileGuidance) -> String {
    let bodies = guide(guidance).into_iter().map(|entry| vec![entry.body]).collect();
    let places = evidence(guidance).into_iter().map(|entry| vec![entry.body]).collect();
    title(&guidance.path, true) + "\n" + &texts(&expanded(guidance, &bodies, &places))
}

#[test]
fn the_plan_view_shows_groups_with_their_reason_and_both_positions() {
    let mut app = app_with_analysed_patch();
    if let Some(view) = app.review.as_mut() {
        view.set_order(OrderMode::Recommended);
        view.set_plan(Some(reading_plan()));
    }
    let rendered = files_screen(&app, 140, 30) + &text(&status_line(&app, 400).0);
    assert!(rendered.contains("recommended order"), "{rendered}");
    assert!(rendered.contains("1. domain"), "{rendered}");
    assert!(rendered.contains("rules first"), "{rendered}");
    assert!(rendered.contains("plan ·"), "{rendered}");
    assert!(rendered.contains("path"), "{rendered}");
    assert!(rendered.contains("AI"), "{rendered}");
}

#[test]
fn the_diff_header_carries_the_analysis_note_for_the_file_on_screen() {
    let app = app_with_analysed_patch();
    assert_eq!(app.current_file_note().as_deref(), Some("check the sign"));
    let rendered = texts(&compact(&note_on_money(), 120));
    assert!(rendered.contains("check the sign"), "{rendered}");
}

#[test]
fn ir_16_compact_guidance_keeps_code_visible_at_80_by_24() {
    let app = app_with_analysed_patch();
    let rows = smart_review::components::chrome::frame_rows(Rect::new(0, 0, 80, 24), app.mode());
    let parts = layout(rows.body, false, false, 5);
    let guidance = parts.guidance.expect("room for the guidance");
    let rendered = title("src/domain/money.rs", false)
        + &texts(&compact(&note_on_money(), guidance.width.saturating_sub(2) as usize));
    assert!(rendered.contains("What"), "{rendered}");
    assert!(rendered.contains("Why · inferred"), "{rendered}");
    assert!(rendered.contains("Verify"), "{rendered}");
    assert!(rendered.contains("e: expand"), "{rendered}");
    let code = files_screen(&app, 80, parts.diff.height.saturating_sub(2));
    assert!(
        code.contains("@@ -1,1"),
        "code remains the main surface: {code}"
    );
}

#[test]
fn ir_16_expanded_guidance_shows_validated_evidence_and_scroll_hint() {
    let rendered = expanded_pane(&note_on_money());
    assert!(rendered.contains("Evidence 1"), "{rendered}");
    assert!(rendered.contains("new rounding rule"), "{rendered}");
    assert!(rendered.contains(":evidence 1"), "{rendered}");
    assert!(rendered.contains("j/k: scroll"), "{rendered}");
}

#[test]
fn ir_16_missing_note_and_truncated_source_are_visible_not_invented() {
    let rendered = expanded_pane(&said_nothing());
    assert!(
        rendered.contains("not supplied for this file"),
        "{rendered}"
    );
    assert!(rendered.contains("Source was truncated"), "{rendered}");
    assert!(rendered.contains("Evidence: none supplied"), "{rendered}");
}

fn overview_text() -> OverviewText {
    OverviewText {
        body: vec![plain("What the author wrote.")],
        summary: vec![plain("Rounds money.")],
        intent: vec![plain("Fix the totals.")],
        origin: "deepseek/deepseek-v4-pro".to_owned(),
    }
}

#[test]
fn ir_16_overview_separates_ai_brief_inference_plan_and_coverage() {
    let app = app_with_analysed_patch();
    let rendered = texts(&overview(&app, &overview_text()));
    for expected in [
        "Review brief · AI",
        "Purpose · inferred",
        "Reading plan",
        "Coverage: 2 / 2",
        "Suggested questions",
        ":chat suggested 1",
    ] {
        assert!(
            rendered.contains(expected),
            "missing {expected}: {rendered}"
        );
    }
}

fn tab_row(app: &App, width: u16) -> String {
    text(&tabs(app, Rect::new(0, 0, width, 1), ReviewTab::Files))
}

#[test]
fn ir_10_tabs_name_real_pull_request_destinations() {
    let rendered = tab_row(&app_with_patch(), 140);
    assert!(rendered.contains("[1 Overview]"), "{rendered}");
    assert!(rendered.contains("[2 Files"), "{rendered}");
    assert!(rendered.contains("[3 Checks"), "{rendered}");
    assert!(rendered.contains("[4 Discussion"), "{rendered}");
    assert!(rendered.contains("[5 Ask]"), "{rendered}");
}

#[test]
fn ir_10_compact_tabs_keep_every_destination_visible_at_80_columns() {
    let rendered = tab_row(&app_with_patch(), 80);
    for label in [
        "[1 Overview]",
        "[2 Files]",
        "[3 Checks]",
        "[4 Discussion]",
        "[5 Ask]",
    ] {
        assert!(rendered.contains(label), "missing {label}: {rendered}");
    }
    assert!(rendered.chars().count() <= 80, "{rendered}");
}

#[test]
fn the_split_toggle_explains_itself_when_the_terminal_is_too_narrow() {
    let mut app = app_with_patch();
    if let Some(view) = app.review.as_mut() {
        view.split = true;
    }

    let narrow = files_screen(&app, 100, 24);
    assert!(
        narrow.contains("split needs 140 columns"),
        "the toggle must say why: {narrow}"
    );

    let wide = files_screen(&app, SPLIT_MIN_WIDTH, 24);
    assert!(wide.contains("split"), "{wide}");
    assert!(!wide.contains("needs 140"), "{wide}");
}

#[test]
fn the_split_view_draws_both_sides_of_a_change() {
    let mut app = app_with_patch();
    if let Some(view) = app.review.as_mut() {
        view.split = true;
    }
    let rendered = files_screen(&app, 160, 24);
    assert!(rendered.contains("self.lines.sum()"), "{rendered}");
    assert!(rendered.contains("let gross"), "{rendered}");
}

#[test]
fn a_pane_that_is_too_short_still_renders_the_rows_that_fit() {
    let app = app_with_patch();
    let rendered = files_screen(&app, 100, 24);
    assert!(rendered.contains("order"), "{rendered}");
    assert!(rendered.contains("unified"), "{rendered}");
    let short = files_screen(&app, 100, 2);
    assert!(short.contains("invoice.rs"), "{short}");
    assert!(!short.contains("gross - self.discount"), "{short}");
}

#[test]
fn an_empty_patch_says_so_instead_of_showing_an_empty_pane() {
    let mut app = app_with_patch();
    app.set_review(DiffView::new(no_files()));
    let rendered = files_screen(&app, 120, 24);
    assert!(rendered.contains("no changes to show"), "{rendered}");
}

#[test]
fn the_tree_marks_the_file_the_cursor_is_in() {
    let mut app = app_with_patch();
    if let Some(view) = app.review.as_mut() {
        view.tree_focused = true;
    }
    let view = app.review.as_ref().expect("review");
    let rendered = texts(&tree_lines(view, &vec!["□".to_owned()], 24));
    assert!(
        rendered.contains('·'),
        "the current-file marker: {rendered}"
    );
}

#[test]
fn the_split_view_pairs_a_deletion_with_the_addition_that_replaced_it() {
    let mut app = app_with_patch();
    if let Some(view) = app.review.as_mut() {
        view.split = true;
    }
    let rendered = files_screen(&app, 160, 24);
    let pair = rendered
        .lines()
        .find(|line| line.contains("self.lines.sum()"))
        .unwrap_or_default();
    assert!(
        pair.contains("let gross"),
        "the deletion and its replacement should share a row: {pair:?}"
    );
}

#[test]
fn a_drawn_tab_is_the_one_a_click_on_it_finds() {
    let mut app = app_with_patch();
    let area = Rect::new(3, 1, 140, 1);
    let row = tab_row(&app, 140);
    assert!(row.contains("[2 Files (1)]"), "{row}");
    assert_eq!(tab_label(&app, ReviewTab::Files, true), "[2 Files (1)] ");
    assert_eq!(tab_label(&app, ReviewTab::Files, false), "[2 Files] ");
    for (words, tab) in [
        ("[1 Overview]", ReviewTab::Overview),
        ("[2 Files", ReviewTab::Files),
        ("[3 Checks", ReviewTab::Checks),
        ("[4 Discussion", ReviewTab::Discussion),
        ("[5 Ask]", ReviewTab::Ask),
    ] {
        let before = &row[..row.find(words).expect("drawn")];
        let column = area.x + before.chars().count() as u16;
        assert_eq!(tab_at(area, &app, column), Some(tab), "{words}");
    }
    assert_eq!(tab_at(area, &app, 0), None, "left of the row");
    app.detail = None;
    assert_eq!(tab_at(area, &app, 4), None);
}

#[test]
fn the_chat_pane_and_the_composer_take_room_from_the_diff() {
    let body = Rect::new(0, 1, 120, 20);
    let parts = layout(body, false, false, 0);
    assert_eq!(parts.tabs, Rect::new(0, 1, 120, 1));
    assert_eq!(parts.content, Rect::new(0, 2, 120, 19));
    assert_eq!(parts.guidance, None);
    assert_eq!(parts.tree.x, 0);
    assert_eq!(parts.diff.x, parts.tree.width);
    assert_eq!(parts.tree.width + parts.diff.width, 120);

    let guided = layout(body, false, false, 5);
    let above = guided.guidance.expect("guidance");
    assert_eq!(above.height, 5);
    assert_eq!(above.height + guided.diff.height, parts.diff.height);
}

#[test]
fn guidance_scrolls_to_its_last_line_and_no_further() {
    assert_eq!(offset(0, 10, 6), 0);
    assert_eq!(offset(3, 10, 6), 3);
    assert_eq!(offset(99, 10, 6), 6);
    assert_eq!(offset(99, 3, 6), 0);
    assert_eq!(room_for("What", 40), 34);
    assert_eq!(room_for("What", 2), 1);
}

fn check(name: &str, state: CheckState) -> CheckRun {
    CheckRun {
        name: name.to_owned(),
        state,
        lifecycle: CheckLifecycle::Completed,
        description: None,
        conclusion: None,
        url: None,
    }
}

#[test]
fn checks_name_every_record_and_say_when_they_may_be_old() {
    let mut app = app_with_patch();
    let rendered = texts(&checks(&app, true, 0));
    assert!(rendered.contains("Cached check data"), "{rendered}");
    assert!(rendered.contains("No checks are configured"), "{rendered}");

    if let Some(detail) = app.detail.as_mut() {
        detail.checks.push(check("build", CheckState::Success));
        detail.checks.push(check("lint", CheckState::Failure));
    }
    let lines = checks(&app, false, 1);
    let rendered = texts(&lines);
    assert!(rendered.contains("build"), "{rendered}");
    assert!(rendered.contains("lint"), "{rendered}");
    assert!(!rendered.contains("Cached"), "{rendered}");
    let selected = lines
        .iter()
        .find(|line| text(line).contains("lint"))
        .expect("drawn");
    assert_eq!(selected.spans[0].paint.element, Some(Element::Selection));
}

#[test]
fn without_an_analysis_the_overview_says_what_to_do() {
    let mut app = app_with_patch();
    let rendered = texts(&overview(&app, &overview_text()));
    assert!(rendered.contains("No description was provided."), "{rendered}");
    if let Some(detail) = app.detail.as_mut() {
        detail.body = "What the author wrote.".to_owned();
    }
    let rendered = texts(&overview(&app, &overview_text()));
    assert!(rendered.contains("What the author wrote."), "{rendered}");
    assert!(rendered.contains("Select a model with <leader>m"), "{rendered}");
    assert!(!rendered.contains("Review brief"), "{rendered}");
    app.panel.state = AnalysisState::Gathering;
    let rendered = texts(&overview(&app, &overview_text()));
    assert!(rendered.contains("Analysis is running"), "{rendered}");
}

fn comment(id: u64, in_reply_to: Option<u64>, resolved: bool) -> ReviewComment {
    ReviewComment {
        id,
        author: "carol".to_owned(),
        path: "src/domain/invoice.rs".to_owned(),
        line: Some(15),
        side: Some("RIGHT".to_owned()),
        body: format!("comment {id}"),
        created_at: 1_000,
        in_reply_to,
        diff_hunk: None,
        url: None,
        thread_id: None,
        resolved,
        outdated: false,
    }
}

#[test]
fn the_discussion_shows_each_thread_with_its_answers() {
    let mut detail = opened(141, 1);
    detail.reviews.push(Review {
        author: "dave".to_owned(),
        state: "APPROVED".to_owned(),
        body: "fine".to_owned(),
    });
    detail.conversation.push(ConversationComment {
        id: 9,
        author: "erin".to_owned(),
        body: "thanks".to_owned(),
        created_at: 1_000,
        url: None,
    });
    detail.comments.push(comment(1, None, false));
    detail.comments.push(comment(2, Some(1), false));
    detail.comments.push(comment(3, Some(2), false));
    detail.comments.push(comment(4, None, true));
    let words = DiscussionText {
        reviews: vec![vec![plain("fine")]],
        comments: (1..=4).map(|id| vec![plain(&format!("comment {id}"))]).collect(),
        conversation: vec![vec![plain("thanks")]],
    };
    let mut state = DiscussionState::default();
    let rendered = texts(&discussion(&detail, &state, false, &words));
    for expected in ["dave", "erin", "comment 1", "comment 2", "comment 3", "comment 4"] {
        assert!(rendered.contains(expected), "missing {expected}: {rendered}");
    }
    let at = |words: &str| rendered.find(words).expect("shown");
    assert!(at("comment 1") < at("comment 2") && at("comment 2") < at("comment 3"));
    assert!(discussion_title(&detail, &state).contains("discussion · all (2)"));

    state.filter = DiscussionFilter::Resolved;
    let rendered = texts(&discussion(&detail, &state, false, &words));
    assert!(!rendered.contains("comment 1"), "{rendered}");
    assert!(rendered.contains("comment 4"), "{rendered}");
    assert!(discussion_title(&detail, &state).contains("discussion · resolved (1)"));
    assert!(matches_filter(DiscussionFilter::Open, &detail.comments[0]));
    assert!(!matches_filter(DiscussionFilter::Open, &detail.comments[3]));
}

#[test]
fn the_status_line_names_the_mode_the_file_and_the_newest_notice() {
    let mut app = app_with_patch();
    let (line, background) = status_line(&app, 200);
    let rendered = text(&line);
    assert_eq!(background, Element::StatusNormal);
    assert!(rendered.contains("M src/domain/invoice.rs +2 −1"), "{rendered}");
    assert!(rendered.contains("· — "), "no model: {rendered}");
    assert!(rendered.ends_with("? help · <leader> actions · : commands "), "{rendered}");
    assert_eq!(rendered.chars().count(), 200);
    app.notice(NoticeLevel::Error, "boom");
    let (line, background) = status_line(&app, 200);
    assert!(text(&line).ends_with("boom "));
    assert_eq!(background, Element::StatusError);
}

#[test]
fn the_header_and_the_command_line_name_what_is_going_on() {
    let mut app = app();
    let top = text(&header(&app, "1.2.3", 120));
    assert!(top.starts_with(" smart-review v1.2.3 config: defaults"), "{top}");
    assert_eq!(text(&command_line(&app)), "");
    app.open_command("theme ");
    let typed = text(&command_line(&app));
    assert!(typed.starts_with(": theme "), "{typed}");
}

#[test]
fn the_palette_lists_what_may_be_typed() {
    let candidates: Vec<(String, String)> = vec![
        ("doctor".to_owned(), "check the setup".to_owned()),
        ("drafts".to_owned(), "show the drafts".to_owned()),
    ];
    let rendered = texts(&palette("d", &candidates));
    assert!(rendered.contains("doctor"), "{rendered}");
    assert!(rendered.contains("show the drafts"), "{rendered}");
}

#[test]
fn the_popups_name_the_keys_the_themes_and_the_checks() {
    let area = Rect::new(0, 0, 100, 40);
    let bindings = vec![
        Binding { keys: "<Space>t".to_owned(), mode: Some(Mode::Normal), action: "app.theme_picker".to_owned() },
        Binding { keys: "?".to_owned(), mode: Some(Mode::Normal), action: "app.help".to_owned() },
    ];
    let menu = leader_menu(area, "<Space>", &bindings);
    assert_eq!(menu.title, " leader <Space> ");
    assert_eq!(menu.area.width, 48);

    let mut app = app();
    let themes = texts(&theme_picker(area, &app).lines);
    assert!(themes.contains("dark") && themes.contains("light"), "{themes}");

    let shown = help(area, &app, &bindings);
    let rendered = texts(&shown.lines);
    assert!(rendered.contains('?'), "{rendered}");
    assert_eq!(shown.offset, 0);
    app.help_scroll = usize::MAX;
    assert!(help(area, &app, &bindings).offset < shown.lines.len());

    app.start_doctor();
    let waiting = texts(&doctor(area, &app).lines);
    assert!(!waiting.trim().is_empty());
}

#[test]
fn a_run_without_an_answer_says_what_to_try() {
    let rendered = texts(&failed("connection refused"));
    assert!(rendered.starts_with(" the provider did not answer\n\n connection refused\n"));
    assert!(rendered.contains("<leader>a tries again"), "{rendered}");
}

fn arrived(summary: &str) -> Arrived {
    Arrived {
        summary: summary.to_owned(),
        intent: String::new(),
        risks: Vec::new(),
        questions: Vec::new(),
        plan: Vec::new(),
    }
}

#[test]
fn a_preview_is_shown_once_something_usable_has_arrived() {
    assert!(shown_preview(arrived("")).is_none());
    let mut some = arrived("Rounds money.");
    some.risks.push(PreviewRisk {
        severity: Severity::High,
        title: "rounding".to_owned(),
        why: "totals change".to_owned(),
    });
    let preview = shown_preview(some).expect("a preview");
    assert_eq!(preview.summary, "Rounds money.");
    assert_eq!(
        preview.risks,
        vec![PanelRisk {
            severity: Severity::High,
            title: "rounding".to_owned(),
            why: "totals change".to_owned(),
            files: Vec::new(),
            supported: true,
        }]
    );
    let mut app = app_with_patch();
    app.panel.state = AnalysisState::Streaming { stage: "asking".to_owned() };
    app.panel.stream.push("{\"summary\": \"Rounds money.\"");
    let rendered = texts(&running(&app, &Some(preview)));
    assert!(rendered.contains("rounding"), "{rendered}");
    assert!(rendered.contains("still streaming"), "{rendered}");
    let tail = texts(&running(&app, &None));
    assert!(tail.contains("\"summary\""), "the raw text: {tail}");
}

#[test]
fn a_drafted_line_is_marked_in_the_diff() {
    let app = app_with_patch();
    let view = app.review.as_ref().expect("review");
    let none = DraftState::default();
    assert!(!view.rows.iter().any(|row| has_draft(view, &none, row)));
    assert_eq!(pad("東", 4), "東  ");
}
