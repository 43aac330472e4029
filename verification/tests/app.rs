use smart_review::action::is_known;
use smart_review::app::{
    App, AppState, Check, CheckStatus, Config, DiffSource, Environment, Overlay, Pane, ResolvedSelection,
    Startup,
};
use smart_review::app_keys::{Lookup, Pressed};
use smart_review::app_overlay::LoadedTheme;
use smart_review::catalog::{CatalogState, ModelSelection};
use smart_review::chat::ChatStatus;
use smart_review::components::chrome::frame_rows;
use smart_review::components::files::tree_lines;
use smart_review::components::pr_list::list_lines;
use smart_review::components::review::layout;
use smart_review::diff_view::DiffView;
use smart_review::effect::{AnalysisIntent, CatalogPolicy, Effect};
use smart_review::jobs::{ChatRun, Completion, FetchOutcome, Outcome, Update};
use smart_review::keys::{
    KeyCode, KeyCombo, KeyModifiers, Mode, MouseAction, MouseEvent, Resolution,
};
use smart_review::layout::Rect;
use smart_review::list_view::PullRequestPage;
use smart_review::notices::{NoticeLevel, NOTICE_LIFETIME_MS};
use smart_review::paint::Line;
use smart_review::panel::{AnalysisState, Bundle, Segment};
use smart_review::patch::{
    DiffLine, FileDiff, FileKind, FileStatus, Hunk, LineKind, Patch, PatchStats,
};
use smart_review::pr::{CheckSummary, PrState, PullRequestDetail, PullRequestSummary};
use smart_review::session::{Estimate, HistoryPlan, Message, Role, Session};

fn startup() -> Startup {
    Startup {
        config: Config {
            mouse: true,
            page_size: 50,
            max_pages: 10,
            context_lines: 3,
            ignore_whitespace: false,
            workspace_mode: "auto".to_owned(),
            active: None,
            max_context_tokens: None,
            max_file_bytes: 65_536,
        },
        config_source: "defaults".to_owned(),
        config_keys: 0,
        theme: "dark".to_owned(),
        theme_source: "built in".to_owned(),
        theme_request: "dark".to_owned(),
        theme_names: vec!["dark".to_owned(), "light".to_owned()],
        state: AppState {
            theme: None,
            focus: None,
            analysis_opt_in: Vec::new(),
            context_files: Vec::new(),
        },
        warnings: Vec::new(),
        repo: None,
        pr: None,
        path: None,
        remote: None,
        prompt_version: 1,
    }
}

fn app() -> App {
    let mut app = App::new(startup()).unwrap();
    app.set_now(1_000);
    app
}

fn plain(code: KeyCode) -> KeyCombo {
    KeyCombo {
        code,
        modifiers: KeyModifiers { control: false, alt: false, shift: false, other: false },
    }
}

fn control(c: char) -> KeyCombo {
    KeyCombo {
        code: KeyCode::Char(c),
        modifiers: KeyModifiers { control: true, alt: false, shift: false, other: false },
    }
}

fn shifted(code: KeyCode) -> KeyCombo {
    KeyCombo {
        code,
        modifiers: KeyModifiers { control: false, alt: false, shift: true, other: false },
    }
}

/// The keys of a text in which `<..>` names one.
fn parse(keys: &str) -> Vec<KeyCombo> {
    let mut out = Vec::new();
    let mut rest = keys;
    while let Some(first) = rest.chars().next() {
        if first == '<' {
            let end = rest.find('>').expect("closed");
            out.push(match &rest[1..end] {
                "C-c" => control('c'),
                "C-x" => control('x'),
                "Space" => plain(KeyCode::Char(' ')),
                "Esc" => plain(KeyCode::Esc),
                "CR" | "Enter" => plain(KeyCode::Enter),
                "S-Enter" => shifted(KeyCode::Enter),
                "Tab" => plain(KeyCode::Tab),
                "Backspace" => plain(KeyCode::Backspace),
                other => panic!("no key {other}"),
            });
            rest = &rest[end + 1..];
        } else {
            out.push(plain(KeyCode::Char(first)));
            rest = &rest[first.len_utf8()..];
        }
    }
    out
}

/// A binding: the mode, where it is not bound in all of them, the keys and the action.
type Bound = (Option<Mode>, &'static str, &'static str);

const KEYMAP: [Bound; 18] = [
    (None, "<C-c>", "app.quit"),
    (Some(Mode::Normal), "?", "app.help"),
    (Some(Mode::Normal), ":", "app.command"),
    (Some(Mode::Popup), ":", "app.command"),
    (Some(Mode::Normal), "<Space>", "app.leader_menu"),
    (Some(Mode::Popup), "<Space>", "app.leader_menu"),
    (Some(Mode::Normal), "<Space>?", "app.help"),
    (Some(Mode::Normal), "<Space>t", "app.theme_picker"),
    (Some(Mode::Popup), "<Space>t", "app.theme_picker"),
    (Some(Mode::Normal), "<Space>T", "theme.toggle"),
    (Some(Mode::Normal), "<Space>c", "chat.open"),
    (Some(Mode::Normal), "j", "nav.down"),
    (Some(Mode::Normal), "k", "nav.up"),
    (Some(Mode::Normal), "G", "nav.bottom"),
    (Some(Mode::Normal), "gg", "nav.top"),
    (Some(Mode::Normal), "za", "diff.fold"),
    (Some(Mode::Insert), "<Enter>", "chat.send"),
    (Some(Mode::Insert), "<S-Enter>", "chat.newline"),
];

fn resolve(keymap: &[Bound], mode: Option<Mode>, keys: &[KeyCombo]) -> Resolution {
    let mut exact = None;
    let mut longer = false;
    for (bound_in, text, action) in keymap {
        if bound_in.is_some() && *bound_in != mode {
            continue;
        }
        let bound = parse(text);
        if bound == keys {
            exact = Some((*action).to_owned());
        } else if bound.len() > keys.len() && bound[..keys.len()] == *keys {
            longer = true;
        }
    }
    match (exact, longer) {
        (Some(action), false) => Resolution::Match(action),
        (Some(action), true) => Resolution::Ambiguous(action),
        (None, true) => Resolution::Prefix,
        (None, false) => Resolution::Unbound,
    }
}

fn describe(keys: &[KeyCombo]) -> String {
    keys.iter()
        .map(|combo| match combo.code {
            KeyCode::Char(c) => c.to_string(),
            other => format!("{other:?}"),
        })
        .collect()
}

fn looked_up(app: &App, keymap: &[Bound], combo: Option<KeyCombo>) -> Lookup {
    let mut sequence = app.pending.clone();
    sequence.extend(combo);
    let alone: Vec<KeyCombo> = combo.into_iter().collect();
    Lookup {
        sequence: resolve(keymap, Some(app.mode()), &sequence),
        global: resolve(keymap, None, &alone),
        insert: resolve(keymap, Some(Mode::Insert), &alone),
        keys: describe(&sequence),
        now_ms: app.clock_ms,
        timeout_ms: 500,
    }
}

fn load(name: &str) -> Result<LoadedTheme, String> {
    Ok(LoadedTheme {
        theme: name.to_owned(),
        source: "built in".to_owned(),
        warnings: Vec::new(),
    })
}

fn dispatch(app: &mut App, action: &str) -> Effect {
    match action {
        "app.quit" => app.quit(),
        "app.help" => {
            app.open_overlay(Overlay::Help);
        }
        "app.command" => app.open_command(""),
        "app.leader_menu" => {
            app.open_overlay(Overlay::Leader);
            return Effect::KeepPending;
        }
        "app.theme_picker" => {
            if let Some(name) = app.open_overlay(Overlay::ThemePicker) {
                app.preview_picker(load(&name));
            }
        }
        "theme.toggle" => {
            if let Some(name) = app.toggle_theme() {
                return app.set_theme(&name, load(&name));
            }
        }
        "chat.open" => {
            app.show_chat();
            app.focus = Pane::Chat;
            app.mode = Mode::Insert;
        }
        "chat.send" => return Effect::AskChat,
        "chat.newline" => app.chat.input.insert('\n'),
        "nav.down" => app.list.move_cursor(1),
        "nav.up" => app.list.move_cursor(-1),
        "nav.top" => app.list.select_visible(0),
        "nav.bottom" => app.list.select_visible(usize::MAX),
        other => panic!("no action {other}"),
    }
    Effect::Nothing
}

fn run(app: &mut App, command: &str) -> Effect {
    match command {
        "q" => app.quit(),
        "doctor" => {
            app.start_doctor();
            return Effect::RunDoctor;
        }
        "messages" => app.dismiss_notices(),
        other => app.command_error(&format!("`{other}` is not a command")),
    }
    Effect::Nothing
}

fn follow(app: &mut App, pressed: Pressed) -> Effect {
    match pressed {
        Pressed::Done(effect) | Pressed::Refill(effect) => effect,
        Pressed::Dispatch { action, ends } => {
            let effect = dispatch(app, &action);
            app.after_dispatch(ends, &effect);
            effect
        }
        Pressed::Run(text) => run(app, &text),
        Pressed::Complete(text) => {
            app.complete_command(if text == "doc" { "doctor".to_owned() } else { text });
            Effect::Nothing
        }
        Pressed::Search(text) => {
            let matches = app
                .list
                .items
                .iter()
                .enumerate()
                .filter(|(_, item)| item.title.contains(&text))
                .map(|(index, _)| index)
                .collect();
            app.apply_search(text, matches);
            Effect::Nothing
        }
        Pressed::Preview(name) => {
            app.preview_picker(load(&name));
            Effect::Nothing
        }
        Pressed::Choose(name) => app.set_theme(&name, load(&name)),
    }
}

fn press_with(app: &mut App, keymap: &[Bound], keys: &str) -> Effect {
    let mut effect = Effect::Nothing;
    for combo in parse(keys) {
        let lookup = looked_up(app, keymap, Some(combo));
        let pressed = app.on_key(combo, &lookup);
        effect = follow(app, pressed);
    }
    effect
}

fn press(app: &mut App, keys: &str) -> Effect {
    press_with(app, &KEYMAP, keys)
}

fn wait_with(app: &mut App, keymap: &[Bound]) -> Effect {
    let lookup = looked_up(app, keymap, None);
    let pressed = app.on_timeout(&lookup);
    follow(app, pressed)
}

fn wait(app: &mut App) -> Effect {
    wait_with(app, &KEYMAP)
}

fn is_nothing(effect: &Effect) -> bool {
    matches!(effect, Effect::Nothing)
}

fn summary(number: u64) -> PullRequestSummary {
    PullRequestSummary {
        number,
        title: format!("PR {number}"),
        author: "alice".to_owned(),
        state: PrState::Open,
        work_in_progress: false,
        base_ref: "main".to_owned(),
        head_ref: "topic".to_owned(),
        head_sha: "abc123".to_owned(),
        changed_files: 1,
        review_decision: None,
        checks: CheckSummary::default(),
    }
}

fn page(count: u64) -> PullRequestPage {
    PullRequestPage {
        items: (1..=count).map(summary).collect(),
        matches: (0..count as usize).collect(),
        total: Some(count),
        may_have_more: false,
    }
}

fn detail() -> PullRequestDetail {
    PullRequestDetail {
        summary: summary(141),
        body: String::new(),
        commits: vec!["c1".to_owned()],
        checks: Vec::new(),
        reviews: Vec::new(),
        comments: Vec::new(),
        conversation: Vec::new(),
    }
}

fn changed(path: &str) -> FileDiff {
    let line = |kind, old_line, new_line, content: &str| DiffLine {
        kind,
        old_line,
        new_line,
        content: content.to_owned(),
        no_newline: false,
    };
    FileDiff {
        path: Some(path.to_owned()),
        display_path: path.to_owned(),
        size_label: "+1 −1".to_owned(),
        placeholder: None,
        status: FileStatus::Modified,
        kind: FileKind::Text,
        hunks: vec![Hunk {
            header: "@@ -1 +1 @@".to_owned(),
            lines: vec![
                line(LineKind::Delete, Some(1), None, "a"),
                line(LineKind::Add, None, Some(1), "b"),
            ],
        }],
    }
}

fn patch(paths: &[&str]) -> Patch {
    Patch {
        files: paths.iter().map(|path| changed(path)).collect(),
        stats: PatchStats {
            files: paths.len(),
            label: format!("{} files", paths.len()),
        },
    }
}

fn list_app() -> App {
    let mut app = app();
    app.set_pull_requests(page(5));
    app
}

fn review_app() -> App {
    let mut app = list_app();
    app.set_review(DiffView::new(patch(&["src/one.rs", "src/two.rs"])));
    app
}

fn environment() -> Environment {
    Environment {
        repo_key: "github.com/acme/service".to_owned(),
        repo_slug: "acme/service".to_owned(),
        account: Some("alice".to_owned()),
    }
}

fn chat_app() -> App {
    let mut app = list_app();
    app.open_review(detail(), DiffView::new(patch(&["src/one.rs"])));
    app.active_model = Some(ResolvedSelection {
        provider: "deepseek".to_owned(),
        model: "deepseek-v4-pro".to_owned(),
        label: "DeepSeek V4 Pro".to_owned(),
        thinking_label: "off".to_owned(),
        env_var: Some("DEEPSEEK_API_KEY".to_owned()),
        warnings: Vec::new(),
    });
    app.set_environment(environment());
    app
}

fn session(id: &str, model: &str) -> Session {
    Session::new(id, "github.com/acme/service", 141, "abc123", model, None, 1_000)
}

fn bundle() -> Bundle {
    Bundle {
        summary: "~12 tokens of context".to_owned(),
        segments: vec![Segment {
            label: "metadata".to_owned(),
            included: true,
            truncated: false,
            tokens: 12,
            detail: None,
        }],
    }
}

fn model() -> ModelSelection {
    ModelSelection {
        provider: "fake".to_owned(),
        model: "fake-analysis-1".to_owned(),
        reasoning: None,
    }
}

fn frame(app: &mut App, width: u16, height: u16) {
    let rows = frame_rows(Rect::new(0, 0, width, height), app.mode());
    app.record_geometry(rows.body);
    app.sync_scroll();
}

fn text(line: &Line) -> String {
    line.spans.iter().map(|span| span.text.as_str()).collect()
}

/// The terminal row of the list pane whose text contains `needle`.
fn list_row(app: &App, needle: &str) -> u16 {
    let ages: Vec<String> = app.list.items.iter().map(|_| "1d".to_owned()).collect();
    let lines = list_lines(app, app.geometry.list, &ages, &Vec::new());
    let at = lines
        .iter()
        .position(|line| text(line).contains(needle))
        .expect("on screen");
    app.geometry.list.y + 1 + at as u16
}

/// The terminal row of the tree whose text contains `needle`.
fn tree_row(app: &App, needle: &str) -> u16 {
    let lines = tree_lines(app.review.as_ref().unwrap(), &Vec::new(), 40);
    let at = lines
        .iter()
        .position(|line| text(line).contains(needle))
        .expect("on screen");
    app.geometry.review_top + 1 + at as u16
}

fn click(column: u16, row: u16) -> MouseEvent {
    MouseEvent { action: MouseAction::Click, column, row }
}

fn wheel(column: u16, row: u16, down: bool) -> MouseEvent {
    MouseEvent {
        action: if down { MouseAction::ScrollDown } else { MouseAction::ScrollUp },
        column,
        row,
    }
}

#[test]
fn starts_in_normal_mode_with_nothing_open() {
    let app = app();
    assert_eq!(app.mode(), Mode::Normal);
    assert_eq!(app.overlay(), Overlay::Closed);
    assert!(!app.should_quit());
}

#[test]
fn ctrl_c_quits() {
    let mut app = app();
    press(&mut app, "<C-c>");
    assert!(app.should_quit());
}

#[test]
fn question_mark_opens_help() {
    let mut app = app();
    press(&mut app, "?");
    assert_eq!(app.overlay(), Overlay::Help);
    assert_eq!(app.mode(), Mode::Popup);
}

#[test]
fn escape_closes_a_popup() {
    let mut app = app();
    press(&mut app, "?");
    press(&mut app, "<Esc>");
    assert_eq!(app.overlay(), Overlay::Closed);
    assert_eq!(app.mode(), Mode::Normal);
}

#[test]
fn colon_opens_the_command_line_and_escape_cancels_it() {
    let mut app = app();
    press(&mut app, ":");
    assert_eq!(app.mode(), Mode::Command);
    press(&mut app, "q");
    assert_eq!(app.command.input, "q");
    press(&mut app, "<Esc>");
    assert_eq!(app.mode(), Mode::Normal);
    assert!(app.command.input.is_empty());
    assert!(!app.should_quit());
}

#[test]
fn colon_q_quits() {
    let mut app = app();
    press(&mut app, ":");
    press(&mut app, "q");
    press(&mut app, "<CR>");
    assert!(app.should_quit());
}

#[test]
fn navigation_moves_the_list_cursor_and_stops_at_the_ends() {
    let mut app = list_app();
    assert_eq!(app.list.selected().unwrap().number, 1);

    press(&mut app, "j");
    assert_eq!(app.list.selected().unwrap().number, 2);
    press(&mut app, "j");
    assert_eq!(app.list.selected().unwrap().number, 3);
    press(&mut app, "k");
    press(&mut app, "k");
    assert_eq!(app.list.selected().unwrap().number, 1);
    press(&mut app, "k");
    assert_eq!(
        app.list.selected().unwrap().number,
        1,
        "and not past the top"
    );

    press(&mut app, "G");
    assert_eq!(app.list.selected().unwrap().number, 5);
    press(&mut app, "gg");
    assert_eq!(app.list.selected().unwrap().number, 1);
}

#[test]
fn an_unbound_key_reports_itself_and_clears_the_sequence() {
    let mut app = app();
    press(&mut app, "Q");
    assert!(app.pending.is_empty());
    let notice = app.latest_notice().expect("a notice should be shown");
    assert!(notice.text.contains('Q'), "{:?}", notice.text);
    assert_eq!(notice.level, NoticeLevel::Warn);
}

#[test]
fn the_leader_menu_opens_on_the_key_press() {
    let mut app = app();
    press(&mut app, "<Space>");
    assert_eq!(app.pending.len(), 1, "the sequence stays open");
    assert!(app.leader_open);
    assert_eq!(app.overlay(), Overlay::Leader);

    press(&mut app, "?");
    assert_eq!(app.overlay(), Overlay::Help);
    assert!(app.pending.is_empty());
}

#[test]
fn an_ambiguous_binding_that_is_not_a_hint_still_waits() {
    let keymap: [Bound; 2] = [
        (Some(Mode::Normal), "g", "nav.top"),
        (Some(Mode::Normal), "gg", "nav.bottom"),
    ];
    let mut app = list_app();
    app.list.move_cursor(3);
    assert_eq!(app.list.selected().unwrap().number, 4);

    press_with(&mut app, &keymap, "g");
    assert_eq!(
        app.list.selected().unwrap().number,
        4,
        "the shorter binding must not fire yet"
    );
    assert_eq!(app.deadline, Some(app.clock_ms + 500));
    wait_with(&mut app, &keymap);
    assert_eq!(
        app.list.selected().unwrap().number,
        1,
        "the timeout fires `g`, which is nav.top"
    );

    app.list.move_cursor(3);
    press_with(&mut app, &keymap, "gg");
    assert_eq!(
        app.list.selected().unwrap().number,
        5,
        "the longer binding is the one that fires"
    );
}

#[test]
fn a_prefix_that_is_bound_to_nothing_is_dropped_when_the_wait_is_over() {
    let mut app = list_app();
    press(&mut app, "z");
    assert_eq!(app.pending.len(), 1);
    assert!(is_nothing(&wait(&mut app)));
    assert!(app.pending.is_empty());
    assert!(app.latest_notice().is_none(), "silently");
}

#[test]
fn toggling_cycles_through_every_theme() {
    let mut app = app();
    assert_eq!(app.theme, "dark");
    assert_eq!(
        app.theme_names,
        vec!["dark".to_owned(), "light".to_owned()],
        "the list is read once at startup"
    );

    let effect = press(&mut app, "<Space>T");
    assert!(matches!(effect, Effect::SaveState));
    assert_eq!(app.theme, "light");

    press(&mut app, "<Space>T");
    assert_eq!(app.theme, "dark");
}

#[test]
fn toggling_and_the_picker_agree_on_the_current_theme() {
    let mut app = app();
    press(&mut app, "<Space>T");
    assert_eq!(app.theme, "light");
    press(&mut app, "<Space>t");
    assert_eq!(app.picker_cursor(), 1, "the picker marks the toggled theme");
}

#[test]
fn escape_closes_the_leader_menu() {
    let mut app = app();
    press(&mut app, "<Space>");
    wait(&mut app);
    assert!(app.leader_open);
    press(&mut app, "<Esc>");
    assert!(!app.leader_open);
    assert!(app.pending.is_empty());
    assert_eq!(app.overlay(), Overlay::Closed);
}

#[test]
fn an_unknown_leader_continuation_closes_the_menu() {
    let mut app = app();
    press(&mut app, "<Space>");
    wait(&mut app);
    press(&mut app, "z");
    assert!(!app.leader_open);
    assert_eq!(
        app.overlay(),
        Overlay::Closed,
        "the menu must not outlive its sequence"
    );
    assert!(app.latest_notice().is_some());
}

#[test]
fn ctrl_c_works_while_a_popup_is_open() {
    let mut app = app();
    press(&mut app, "?");
    assert_eq!(app.overlay(), Overlay::Help);
    press(&mut app, "<C-c>");
    assert!(app.should_quit(), "global bindings apply in every mode");
}

#[test]
fn ctrl_c_works_on_the_command_line() {
    let mut app = app();
    press(&mut app, ":");
    press(&mut app, "hel");
    press(&mut app, "<C-c>");
    assert!(app.should_quit());
}

#[test]
fn bare_keys_are_text_on_the_command_line() {
    let mut app = app();
    press(&mut app, ":");
    for character in "set ui.timeoutlen=120".chars() {
        press(&mut app, &character.to_string());
    }
    assert_eq!(app.mode(), Mode::Command);
    assert_eq!(app.command.input, "set ui.timeoutlen=120");
    assert_eq!(app.overlay(), Overlay::Closed, "the leader must not open");
}

#[test]
fn theme_picker_applies_the_selected_theme_and_remembers_it() {
    let mut app = app();
    press(&mut app, "<Space>t");
    assert_eq!(app.overlay(), Overlay::ThemePicker);

    let effect = press(&mut app, "j");
    assert!(is_nothing(&effect), "moving only previews");
    assert_eq!(app.theme, "light", "moving previews the theme");

    let effect = press(&mut app, "<CR>");
    assert!(matches!(effect, Effect::SaveState), "committing persists the choice");
    assert_eq!(app.theme, "light");
    assert_eq!(app.state.theme.as_deref(), Some("light"));
    assert_eq!(app.overlay(), Overlay::Closed);
}

#[test]
fn cancelling_the_theme_picker_restores_the_previous_theme() {
    let mut app = app();
    assert_eq!(app.theme, "dark");
    press(&mut app, "<Space>t");
    press(&mut app, "j");
    assert_eq!(app.theme, "light");
    press(&mut app, "<Esc>");
    assert_eq!(app.theme, "dark", "cancelling undoes the preview");
    assert!(app.state.theme.is_none(), "nothing was persisted");
}

#[test]
fn a_toggle_after_a_cancelled_picker_starts_from_the_theme_in_force() {
    let mut app = app();
    press(&mut app, "<Space>tj<Esc>");
    assert_eq!((app.theme.as_str(), app.theme_request.as_str()), ("dark", "dark"));
    press(&mut app, "<Space>T");
    assert_eq!(app.theme, "light", "the theme after the one in force");
}

#[test]
fn streamed_text_brings_the_pane_to_its_end() {
    let mut app = chat_app();
    app.chat.scroll = 4;
    app.apply_chat_progress(Update::Stage("asking".to_owned()));
    assert_eq!(app.chat.scroll, 4, "nothing new to read");
    app.apply_chat_progress(Update::Delta("one".to_owned()));
    assert_eq!((app.chat.scroll, app.chat.stream.text()), (0, "one"));
}

#[test]
fn moving_back_to_a_loaded_theme_previews_it_again() {
    let mut app = app();
    press(&mut app, "<Space>tj");
    assert_eq!(app.theme, "light");
    press(&mut app, "k");
    assert_eq!(app.theme, "dark");
}

fn good() -> Check {
    Check {
        name: "home".to_owned(),
        status: CheckStatus::Good,
        marker: "ok".to_owned(),
        detail: "ok".to_owned(),
    }
}

#[test]
fn doctor_opens_immediately_and_fills_in_from_the_job() {
    let mut app = app();
    press(&mut app, ":");
    for character in "doctor".chars() {
        press(&mut app, &character.to_string());
    }
    let effect = press(&mut app, "<CR>");
    assert!(matches!(effect, Effect::RunDoctor));
    assert_eq!(app.overlay(), Overlay::Doctor);
    assert!(app.doctor_running);
    assert!(app.checks().is_empty());

    let job = 7;
    app.record_job(&Effect::RunDoctor, job);
    app.apply_checks(job, vec![good()]);
    assert!(!app.doctor_running);
    assert_eq!(app.checks().len(), 1);
}

#[test]
fn a_stale_doctor_report_is_discarded() {
    let mut app = app();
    press(&mut app, ":");
    for character in "doctor".chars() {
        press(&mut app, &character.to_string());
    }
    press(&mut app, "<CR>");
    app.record_job(&Effect::RunDoctor, 1);

    press(&mut app, ":");
    for character in "doctor".chars() {
        press(&mut app, &character.to_string());
    }
    press(&mut app, "<CR>");
    app.record_job(&Effect::RunDoctor, 2);

    app.apply_checks(1, Vec::new());
    assert!(
        app.doctor_running,
        "the stale report must not resolve the job"
    );

    app.apply_checks(2, vec![good()]);
    assert!(!app.doctor_running);
}

#[test]
fn a_leader_binding_closes_the_menu_when_it_fires() {
    let mut app = list_app();
    press(&mut app, "<Space>");
    wait(&mut app);
    assert_eq!(app.overlay(), Overlay::Leader);

    press(&mut app, "T");
    assert_eq!(app.theme, "light");
    assert!(!app.leader_open);
    assert_eq!(
        app.overlay(),
        Overlay::Closed,
        "the leader menu must not outlive the binding it fired"
    );

    press(&mut app, "j");
    assert_eq!(app.list.selected().map(|pr| pr.number), Some(2));
}

#[test]
fn the_leader_menu_opened_from_a_popup_still_completes() {
    let mut app = app();
    press(&mut app, "?");
    assert_eq!(app.overlay(), Overlay::Help);

    press(&mut app, "<Space>");
    wait(&mut app);
    assert_eq!(app.overlay(), Overlay::Leader);
    assert_eq!(app.pending.len(), 1, "the leader must stay pending");

    press(&mut app, "t");
    assert_eq!(app.overlay(), Overlay::ThemePicker);
}

#[test]
fn the_command_line_closes_an_open_popup() {
    let mut app = app();
    press(&mut app, "?");
    press(&mut app, ":");
    assert_eq!(app.mode(), Mode::Command);
    assert_eq!(app.overlay(), Overlay::Closed);

    press(&mut app, "<Esc>");
    assert_eq!(app.mode(), Mode::Normal);
    assert_eq!(app.overlay(), Overlay::Closed);
}

#[test]
fn a_modified_global_still_works_mid_sequence() {
    let mut app = app();
    press(&mut app, "<Space>");
    wait(&mut app);
    assert!(app.leader_open);
    press(&mut app, "<C-c>");
    assert!(app.should_quit());
}

#[test]
fn popup_bindings_from_the_keymap_fire() {
    let keymap: [Bound; 3] = [
        (Some(Mode::Normal), "?", "app.help"),
        (Some(Mode::Popup), "x", "app.theme_picker"),
        (Some(Mode::Popup), "zz", "app.help"),
    ];
    let mut app = app();
    press_with(&mut app, &keymap, "?");
    assert_eq!(app.overlay(), Overlay::Help);
    press_with(&mut app, &keymap, "x");
    assert_eq!(app.overlay(), Overlay::ThemePicker);

    press_with(&mut app, &keymap, "<Esc>");
    press_with(&mut app, &keymap, "?");
    press_with(&mut app, &keymap, "z");
    press_with(&mut app, &keymap, "z");
    assert_eq!(
        app.overlay(),
        Overlay::Help,
        "multi-key popup sequences work"
    );
}

#[test]
fn a_persistent_error_survives_the_notice_queue() {
    let mut app = app();
    app.notice(NoticeLevel::Error, "boom");
    for text in ["one", "two", "three", "four"] {
        app.notice(NoticeLevel::Info, text);
    }
    assert!(
        app.notices
            .iter()
            .any(|notice| notice.level == NoticeLevel::Error),
        "an error must not be evicted by informational notices"
    );
}

#[test]
fn an_unknown_command_reaches_the_status_line() {
    let mut app = app();
    press(&mut app, ":");
    for character in "bogus".chars() {
        press(&mut app, &character.to_string());
    }
    press(&mut app, "<CR>");
    let notice = app.latest_notice().expect("a notice should be shown");
    assert_eq!(notice.level, NoticeLevel::Error);
    assert!(notice.text.contains("bogus"), "{}", notice.text);
    assert!(app.latest_notice().is_some());
    app.tick_at(600_000);
    assert!(app.latest_notice().is_some(), "errors do not expire");
}

#[test]
fn informational_notices_expire() {
    let mut app = app();
    app.notice(NoticeLevel::Info, "hello");
    assert!(app.latest_notice().is_some());
    app.tick_at(NOTICE_LIFETIME_MS + 1_000);
    assert!(app.latest_notice().is_none());
}

#[test]
fn a_configured_model_gets_the_catalog_fetched_without_the_picker() {
    let mut app = app();
    app.config.active = Some(model());
    app.record_catalog_job(9);
    assert!(matches!(
        app.catalog_unavailable(9),
        Some(Effect::LoadCatalog(CatalogPolicy::Refresh))
    ));
    let mut bare = self::app();
    bare.record_catalog_job(9);
    assert!(bare.catalog_unavailable(9).is_none());
    let mut loaded = self::app();
    loaded.config.active = Some(model());
    loaded.record_catalog_job(9);
    loaded.catalog = Some(CatalogState {
        summary: "0 models".to_owned(),
        providers: Vec::new(),
        models: Vec::new(),
    });
    assert!(loaded.catalog_unavailable(9).is_none());
}

#[test]
fn the_automatic_catalog_fetch_happens_once() {
    let mut app = app();
    app.config.active = Some(model());
    app.record_catalog_job(9);
    assert!(app.catalog_unavailable(9).is_some());
    app.record_catalog_job(10);
    assert!(app.catalog_unavailable(10).is_none());
}

#[test]
fn a_gathered_bundle_is_not_a_run_in_flight() {
    let mut app = app();
    app.panel.state = AnalysisState::Gathering;
    app.apply_context(bundle(), AnalysisIntent::Estimate);
    assert_eq!(app.panel.state, AnalysisState::Confirming);
    assert!(!app.analysis_state().is_running());
    assert!(app.analysis_state().is_confirming());
}

#[test]
fn identical_notices_are_deduplicated() {
    let mut app = app();
    app.notice(NoticeLevel::Warn, "same");
    app.notice(NoticeLevel::Warn, "same");
    app.notice(NoticeLevel::Warn, "same");
    assert_eq!(app.notices.len(), 1);

    app.notice(NoticeLevel::Error, "same");
    assert_eq!(app.notices.len(), 2, "a different level is a new notice");
}

#[test]
fn notices_can_be_dismissed() {
    let mut app = app();
    app.notice(NoticeLevel::Error, "boom");
    press(&mut app, ":");
    for character in "messages".chars() {
        press(&mut app, &character.to_string());
    }
    press(&mut app, "<CR>");
    assert!(app.latest_notice().is_none());
}

#[test]
fn tab_completes_a_command() {
    let mut app = app();
    press(&mut app, ":");
    for character in "doc".chars() {
        press(&mut app, &character.to_string());
    }
    press(&mut app, "<Tab>");
    assert_eq!(app.command.input, "doctor");
}

#[test]
fn a_click_on_a_list_row_selects_that_row() {
    let mut app = list_app();
    frame(&mut app, 100, 30);

    let row = list_row(&app, "PR 3");
    app.on_mouse(click(10, row));
    assert_eq!(app.list.selected().unwrap().number, 3);

    let row = list_row(&app, "PR 5");
    app.on_mouse(click(10, row));
    assert_eq!(app.list.selected().unwrap().number, 5);

    let bar = app.geometry.filter_bar.y;
    app.on_mouse(click(10, bar));
    assert_eq!(app.list.selected().unwrap().number, 5);
}

#[test]
fn a_click_lands_on_the_right_row_when_the_list_is_scrolled() {
    let mut app = app();
    app.set_pull_requests(page(40));
    press(&mut app, "G");
    frame(&mut app, 100, 24);

    let row = list_row(&app, "PR 40");
    assert!(
        app.list.scroll > 0,
        "the list scrolled to reach the last row"
    );

    app.on_mouse(click(10, row));
    assert_eq!(
        app.list.selected().unwrap().number,
        40,
        "a click maps through the scroll offset"
    );
}

#[test]
fn the_wheel_scrolls_the_list_rather_than_only_moving_the_cursor() {
    let mut app = app();
    app.set_pull_requests(page(40));
    frame(&mut app, 100, 24);
    assert_eq!(app.list.scroll, 0);

    app.on_mouse(wheel(10, 10, true));
    assert!(app.list.scroll > 0, "a wheel-down event moves the text");

    let scrolled = app.list.scroll;
    app.on_mouse(wheel(10, 10, false));
    assert!(
        app.list.scroll < scrolled,
        "and a wheel-up event moves it back"
    );
    assert_eq!(app.list.scroll, 0, "back to the top");
}

#[test]
fn the_wheel_scrolls_the_diff_and_the_tree() {
    let mut app = review_app();
    let paths: Vec<String> = (0..40).map(|n| format!("src/file{n:02}.rs")).collect();
    let names: Vec<&str> = paths.iter().map(String::as_str).collect();
    app.set_review(DiffView::new(patch(&names)));
    frame(&mut app, 120, 30);
    assert_eq!(app.review.as_ref().unwrap().scroll, 0);

    let row = app.geometry.review_top + 4;
    app.on_mouse(wheel(60, row, true));
    let after = app.review.as_ref().unwrap().scroll;
    assert!(after > 0, "the wheel moves the diff text");

    app.on_mouse(wheel(60, row, false));
    assert!(
        app.review.as_ref().unwrap().scroll < after,
        "and moves it back"
    );

    app.on_mouse(wheel(5, row, true));
    assert_eq!(app.review.as_ref().unwrap().tree_scroll, 3);
}

#[test]
fn a_click_below_the_last_tree_row_does_nothing() {
    let mut app = review_app();
    frame(&mut app, 120, 30);
    let before = app.review.as_ref().unwrap().current_path().cloned();

    let row = app.geometry.review_top + 12;
    app.on_mouse(click(5, row));
    assert_eq!(
        app.review.as_ref().unwrap().current_path().cloned(),
        before,
        "the empty space under the tree is not a row"
    );
}

#[test]
fn a_click_on_a_file_row_opens_that_file() {
    let mut app = review_app();
    frame(&mut app, 120, 30);

    let row = tree_row(&app, "two.rs");
    app.on_mouse(click(5, row));
    assert_eq!(
        app.review
            .as_ref()
            .unwrap()
            .current_path()
            .unwrap()
            .as_str(),
        "src/two.rs"
    );
    assert!(app.review.as_ref().unwrap().current_file_label().is_some());
}

#[test]
fn a_click_on_a_directory_row_folds_it_and_keeps_the_tree_focused() {
    let mut app = review_app();
    frame(&mut app, 120, 30);

    let row = app.geometry.review_top + 1;
    app.on_mouse(click(5, row));
    let view = app.review.as_ref().unwrap();
    assert!(view.tree_focused, "the tree has the cursor");
    assert!(view.folded_dirs.contains(&"src".to_owned()), "the folder folded");
    assert!(
        !view.tree.iter().any(|row| row.label == "one.rs"),
        "and its files are hidden"
    );
}

#[test]
fn the_chat_pane_opens_and_the_compose_box_takes_the_keyboard() {
    let mut app = chat_app();
    press(&mut app, "<Space>c");
    assert!(app.chat.open, "the pane is on screen");
    assert_eq!(app.focus(), Pane::Chat);
    assert_eq!(
        app.mode(),
        Mode::Insert,
        "the keyboard belongs to the question"
    );
    press(&mut app, "why does it round?");
    assert_eq!(app.chat.input.text(), "why does it round?");
}

#[test]
fn enter_sends_and_a_modified_enter_adds_a_line() {
    let mut app = chat_app();
    press(&mut app, "<Space>c");
    press(&mut app, "does ");
    press(&mut app, "<S-Enter>");
    press(&mut app, "it round?");
    assert_eq!(app.chat.input.text(), "does \nit round?");
    let effect = press(&mut app, "<Enter>");
    assert!(matches!(effect, Effect::AskChat));
    assert_eq!(app.chat.input.text(), "does \nit round?");
}

#[test]
fn an_unbound_modified_key_is_not_typed_into_a_question() {
    let mut app = chat_app();
    press(&mut app, "<Space>c");
    press(&mut app, "a<C-x>b");
    assert_eq!(app.chat.input.text(), "ab");
    assert!(app.latest_notice().expect("it is named").text.contains("not bound"));
}

#[test]
fn a_gathered_context_is_what_the_question_sends() {
    let mut app = chat_app();
    press(&mut app, "<Space>c");
    press(&mut app, "why?");
    assert!(matches!(press(&mut app, "<Enter>"), Effect::AskChat));
    app.await_chat_confirmation();
    app.chat_bundle = Some(bundle());
    app.chat_bundle_for = app
        .detail
        .as_ref()
        .map(|detail| (detail.summary.number, detail.summary.head_sha.clone()));
    assert!(app.chat.is_confirming());
    assert!(matches!(press(&mut app, "<Enter>"), Effect::AskChat));
    assert!(app.take_chat_bundle().is_some());
}

#[test]
fn recording_the_opt_in_asks_for_the_state_file_to_be_written() {
    let mut app = chat_app();
    assert!(!app.take_state_dirty(), "nothing to write at startup");
    app.record_analysis_opt_in();
    assert!(app.analysis_opt_in_recorded());
    assert!(app.take_state_dirty(), "the opt-in is worth writing");
    assert!(!app.take_state_dirty(), "and only once");
}

#[test]
fn a_late_diff_does_not_pull_the_keyboard_out_of_the_compose_box() {
    let mut app = chat_app();
    press(&mut app, "<Space>c");
    assert_eq!(app.focus(), Pane::Chat);
    app.diff_loading = true;

    let effect = app.apply_completion(Completion {
        job: app.patch_job,
        outcome: Outcome::Patch {
            outcome: FetchOutcome::Fresh(patch(&["src/one.rs"])),
            source: DiffSource::Worktree,
        },
    });
    assert!(effect.is_none());
    assert_eq!(app.focus(), Pane::Chat, "the compose box kept the keyboard");
    assert_eq!(app.mode(), Mode::Insert);
    press(&mut app, "why?");
    assert_eq!(app.chat.input.text(), "why?");
}

#[test]
fn opening_a_review_takes_the_focus_from_the_list() {
    let mut app = list_app();
    assert_eq!(app.focus(), Pane::PullRequests);
    app.open_review(detail(), DiffView::new(patch(&["src/one.rs"])));
    assert_eq!(app.focus(), Pane::Diff);
    assert_eq!(app.mode(), Mode::Normal);
}

#[test]
fn the_first_question_shows_an_estimate_and_waits() {
    let mut app = chat_app();
    press(&mut app, "<Space>c");
    press(&mut app, "why does it round?");
    assert!(
        matches!(press(&mut app, "<Enter>"), Effect::AskChat),
        "the effect asks"
    );
    app.await_chat_confirmation();
    app.record_chat_load(42);

    assert!(app.chat_request(Some("sk-test".to_owned())).is_some(), "a request");
    app.apply_completion(Completion {
        job: 42,
        outcome: Outcome::ChatGathered {
            bundle: bundle(),
            question: "why does it round?".to_owned(),
            estimate: Some(Estimate {
                context_bytes: 48,
                history: HistoryPlan { kept: 0, dropped: 0 },
                label: "~12 tokens of context".to_owned(),
            }),
        },
    });
    assert!(app.chat.is_confirming(), "still waiting for agreement");
    let estimate = app.chat.estimate.as_ref().expect("an estimate");
    assert!(estimate.context_bytes > 0);
    assert!(estimate.label.contains("context"), "{}", estimate.label);
    assert!(
        estimate.label.starts_with('~'),
        "the label is an estimate and says so: {}",
        estimate.label
    );
    assert!(app.take_chat_bundle().is_some());
}

fn stopped(text: &str) -> Message {
    let mut partial = Message::assistant(text, 1_000, None, Vec::new());
    partial.partial = true;
    partial
}

#[test]
fn a_cancelled_answer_is_still_stored_when_its_job_finishes() {
    let mut app = chat_app();
    press(&mut app, "<Space>c");
    app.begin_chat_answer("why?", session("1-0", "m"));
    app.chat.job = 12;
    app.chat.status = ChatStatus::Streaming {
        stage: "asking".to_owned(),
    };
    app.stop_chat();
    assert_eq!(
        app.chat.status,
        ChatStatus::Stopped,
        "the pane says so immediately"
    );
    app.chat_dirty = false;

    app.apply_completion(Completion {
        job: 12,
        outcome: Outcome::ChatAnswered {
            run: ChatRun::Cancelled(stopped("half an ans")),
            session: "1-0".to_owned(),
        },
    });
    let session = app.chat.session.as_ref().expect("session");
    assert_eq!(
        session.messages.len(),
        2,
        "the question and the partial answer"
    );
    assert!(session.messages[1].partial);
    assert!(app.chat_dirty, "and it is to be written");
}

#[test]
fn a_stopped_answer_is_stored_and_shown_as_stopped() {
    let mut app = chat_app();
    press(&mut app, "<Space>c");
    app.chat.session = Some(session("1-0", "deepseek/deepseek-v4-pro"));
    app.chat.job = 7;
    app.apply_completion(Completion {
        job: 7,
        outcome: Outcome::ChatAnswered {
            run: ChatRun::Cancelled(stopped("half an ans")),
            session: "1-0".to_owned(),
        },
    });
    let session = app.chat.session.as_ref().expect("the session");
    assert_eq!(session.messages.len(), 1);
    assert!(session.messages[0].partial);
    assert!(
        app.chat_dirty,
        "a stopped answer is stored: restarting must not pretend it completed"
    );
    assert_eq!(app.chat.status, ChatStatus::Stopped);
}

#[test]
fn a_successful_answer_lands_in_the_conversation_the_question_opened() {
    let mut app = chat_app();
    press(&mut app, "<Space>c");
    app.chat.input.set_text("does it round?");
    app.begin_chat_answer("does it round?", session("1-0", "deepseek/deepseek-v4-pro"));
    assert_eq!(app.chat.session.as_ref().expect("session").turns(), 1);
    assert!(
        app.chat_dirty,
        "the question is stored before its answer exists"
    );
    app.chat.job = 9;
    app.chat.input.set_text("a question typed while waiting");
    app.apply_completion(Completion {
        job: 9,
        outcome: Outcome::ChatAnswered {
            run: ChatRun::Answered(Message::assistant(
                "It rounds half up.",
                1_000,
                None,
                Vec::new(),
            )),
            session: "1-0".to_owned(),
        },
    });
    assert_eq!(app.chat.status, ChatStatus::Idle);
    assert_eq!(
        app.chat.input.text(),
        "a question typed while waiting",
        "the answer landing does not touch what the user has typed since"
    );
    let session = app.chat.session.as_ref().expect("session");
    assert_eq!(session.messages.len(), 2, "the question and its answer");
    assert_eq!(session.messages[0].role, Role::User);
    assert_eq!(session.messages[1].role, Role::Assistant);
}

#[test]
fn an_answer_for_a_conversation_that_is_no_longer_open_is_dropped() {
    let mut app = chat_app();
    press(&mut app, "<Space>c");
    app.chat.session = Some(session("2-0", "m"));
    app.chat.job = 3;
    app.apply_completion(Completion {
        job: 3,
        outcome: Outcome::ChatAnswered {
            run: ChatRun::Cancelled(Message::assistant("late", 1, None, Vec::new())),
            session: "1-0".to_owned(),
        },
    });
    assert!(
        app.chat
            .session
            .as_ref()
            .expect("session")
            .messages
            .is_empty(),
        "the late answer went nowhere"
    );
    assert!(!app.chat_dirty);
}

#[test]
fn adding_a_file_the_pull_request_does_not_have_is_refused_with_the_reason() {
    let mut app = chat_app();
    let error = app
        .add_context_file("src/nowhere.rs", false, false)
        .expect_err("refused");
    assert!(error.contains("src/nowhere.rs"), "{error}");
    assert!(app.chat.added.is_empty());
    app.add_context_file("src/one.rs", false, false).expect("accepted");
    app.add_context_file("src/one.rs", false, false).expect("idempotent");
    assert_eq!(app.chat.added, vec!["src/one.rs".to_owned()]);
    assert!(app.remove_context_file("src/one.rs").is_ok());
    assert!(app.chat.added.is_empty());
}

#[test]
fn a_secret_path_is_never_added_to_the_context() {
    let mut app = chat_app();
    let error = app
        .add_context_file(".env.local", true, false)
        .expect_err("refused");
    assert!(error.contains("secret"), "{error}");
    assert!(app.chat.added.is_empty());
}

#[test]
fn the_context_of_a_pull_request_survives_a_restart() {
    let mut app = chat_app();
    app.add_context_file("src/one.rs", false, false).expect("accepted");
    app.remember_context_files();
    let key = app.context_files_key().expect("a key");
    assert_eq!(
        app.state
            .context_files
            .iter()
            .find(|(name, _)| *name == key)
            .map(|(_, files)| files.clone()),
        Some(vec!["src/one.rs".to_owned()])
    );
    let mut fresh = App::new(Startup { state: app.state, ..startup() }).unwrap();
    fresh.open_review(detail(), DiffView::new(patch(&["src/one.rs"])));
    fresh.set_environment(environment());
    fresh.load_context_files();
    assert_eq!(fresh.chat.added, vec!["src/one.rs".to_owned()]);
}

#[test]
fn a_click_in_the_diff_moves_the_diff_cursor() {
    let mut app = review_app();
    frame(&mut app, 120, 30);

    let row = app.geometry.review_top + 3;
    app.on_mouse(click(80, row));
    let view = app.review.as_ref().unwrap();
    assert!(!view.tree_focused);
    assert_eq!(view.cursor, 2, "the row under the pointer");
}

#[test]
fn pane_focus_cycles_and_is_remembered() {
    let mut app = app();
    assert_eq!(app.focus(), Pane::PullRequests);
    app.focus = app.focus().next();
    assert_eq!(app.focus(), Pane::Diff);
    app.focus = app.focus().prev();
    assert_eq!(app.focus(), Pane::PullRequests);
    assert_eq!(Pane::parse(Pane::Chat.label()), Pane::Chat);
}

#[test]
fn a_theme_change_asks_the_loop_to_persist_state() {
    let mut app = app();
    let effect = press(&mut app, "<Space>T");
    assert!(matches!(effect, Effect::SaveState));
    assert_eq!(app.state.theme.as_deref(), Some("light"));
}

#[test]
fn the_bindings_of_these_tests_name_known_actions() {
    for (_, _, action) in KEYMAP {
        assert!(
            is_known(action) || action == "diff.fold" || action == "chat.newline",
            "{action}"
        );
    }
}

#[test]
fn a_search_filters_the_loaded_list_as_it_is_typed() {
    let mut app = list_app();
    app.mode = Mode::Search;
    press(&mut app, "3");
    assert_eq!(app.list.search, "3");
    assert_eq!(app.list.selected().unwrap().number, 3);
    press(&mut app, "<Backspace>");
    assert_eq!(app.list.visible_len(), 5);
    press(&mut app, "n<Esc>");
    assert_eq!(app.mode(), Mode::Normal);
    assert_eq!(app.list.search, "n", "leaving keeps what was typed");
}

#[test]
fn a_superseded_page_is_dropped_and_the_newest_is_taken() {
    let mut app = app();
    app.record_job(&Effect::LoadPullRequests, 4);
    assert!(app.list.loading);
    app.record_job(&Effect::LoadPullRequests, 5);
    let stale = Completion { job: 4, outcome: Outcome::Page(FetchOutcome::Fresh(page(2))) };
    assert!(app.apply_completion(stale).is_none());
    assert_eq!(app.list.items.len(), 0);

    let mut full = page(3);
    full.total = None;
    full.may_have_more = true;
    let fresh = Completion { job: 5, outcome: Outcome::Page(FetchOutcome::Fresh(full)) };
    assert!(matches!(app.apply_completion(fresh), Some(Effect::CountPullRequests)));
    assert_eq!(app.list.items.len(), 3);
    assert!(!app.list.loading);
}

#[test]
fn a_cached_page_is_shown_while_the_network_is_asked() {
    let mut app = app();
    app.record_job(&Effect::LoadPullRequests, 2);
    let cached = |job: u64| Completion {
        job,
        outcome: Outcome::CachedPage { page: page(2), age_secs: 90, stale: true },
    };
    assert!(app.apply_completion(cached(1)).is_none());
    assert_eq!(app.list.items.len(), 0, "a superseded page is not painted");
    assert_eq!(app.list.stale, None);
    assert!(app.apply_completion(cached(2)).is_none());
    assert_eq!(app.list.items.len(), 2);
    assert_eq!(app.list.stale.as_deref(), Some("cached 90s ago"));
    assert!(app.list.loading);
}

#[test]
fn an_environment_asks_for_the_list_and_is_announced() {
    let mut app = app();
    app.record_job(&Effect::DetectEnvironment, 3);
    let found = Completion { job: 3, outcome: Outcome::Environment(environment()) };
    assert!(matches!(app.apply_completion(found), Some(Effect::LoadPullRequests)));
    assert_eq!(
        app.latest_notice().map(|notice| notice.text.as_str()),
        Some("reading acme/service as alice")
    );
}

#[test]
fn a_detail_is_announced_and_its_diff_is_asked_for() {
    let mut app = app();
    app.record_job(&Effect::OpenPullRequest(141), 6);
    assert!(app.opening().is_some());
    let opened = Completion { job: 6, outcome: Outcome::Detail(FetchOutcome::Fresh(detail())) };
    assert!(matches!(app.apply_completion(opened), Some(Effect::ReloadDiff)));
    assert_eq!(
        app.latest_notice().map(|notice| notice.text.as_str()),
        Some("opened #141 · 1 commit(s) · 1 file(s)")
    );
    let shown = Completion {
        job: app.patch_job,
        outcome: Outcome::Patch {
            outcome: FetchOutcome::Fresh(patch(&["src/one.rs"])),
            source: DiffSource::Forge,
        },
    };
    assert!(app.apply_completion(shown).is_none());
    assert!(app.opening().is_none());
    assert_eq!(app.focus(), Pane::Diff);
    assert_eq!(
        app.latest_notice().map(|notice| notice.text.as_str()),
        Some("1 files · from the forge · showing 0 of 0")
    );
}

#[test]
fn a_failure_is_recorded_where_it_will_be_seen() {
    let mut app = app();
    app.record_job(&Effect::LoadPullRequests, 2);
    app.apply_completion(Completion { job: 2, outcome: Outcome::Failed("no network".to_owned()) });
    assert_eq!(app.list.error.as_deref(), Some("no network"));
    assert!(!app.list.loading);

    app.record_job(&Effect::OpenPullRequest(7), 8);
    app.apply_completion(Completion { job: 8, outcome: Outcome::Failed("gone".to_owned()) });
    assert_eq!(
        app.latest_notice().map(|notice| notice.text.as_str()),
        Some("could not open it: gone")
    );
    assert!(app.opening().is_none());

    app.apply_completion(Completion { job: 99, outcome: Outcome::Failed("late".to_owned()) });
    assert_ne!(
        app.latest_notice().map(|notice| notice.text.as_str()),
        Some("late"),
        "nobody waits for it"
    );
}

#[test]
fn a_failed_question_is_reported_in_its_pane() {
    let mut app = chat_app();
    app.begin_chat_answer("why?", session("1-0", "m"));
    app.record_chat_job(12);
    assert!(app.is_current_job(12));
    assert!(!app.is_current_job(13));
    app.apply_completion(Completion { job: 12, outcome: Outcome::Failed("no answer".to_owned()) });
    assert_eq!(app.chat.status, ChatStatus::Failed { reason: "no answer".to_owned() });
    assert_eq!(
        app.latest_notice().map(|notice| notice.text.as_str()),
        Some("the question failed: no answer")
    );

    app.record_analysis_job(14);
    app.record_stored_job(15);
    app.record_context_job(16);
    app.record_chat_load(17);
    for job in [14, 15, 16, 17] {
        assert!(app.is_current_job(job), "{job}");
    }
    app.apply_completion(Completion { job: 17, outcome: Outcome::Failed("no store".to_owned()) });
    assert!(!app.is_current_job(17), "a failed load is forgotten");
}

#[test]
fn removed_worktrees_are_counted() {
    let mut app = app();
    app.record_workspace_job(3);
    app.apply_completion(Completion {
        job: 3,
        outcome: Outcome::WorkspacesCleaned {
            removed: 2,
            kept: 1,
            failed: vec!["busy".to_owned()],
        },
    });
    assert_eq!(
        app.latest_notice().map(|notice| notice.text.as_str()),
        Some("removed 2 worktree(s), kept 1; 1 could not be removed")
    );
}

#[test]
fn the_model_picker_takes_every_key_while_it_is_open() {
    let mut app = app();
    app.catalog = Some(CatalogState {
        summary: "1 model".to_owned(),
        providers: Vec::new(),
        models: Vec::new(),
    });
    let search = smart_review::jobs::PickerSearch { matched: Vec::new(), models: Vec::new() };
    app.open_model_picker(&search);
    press(&mut app, "j?:");
    assert_eq!(app.picker().unwrap().query(), "j?:");
    assert_eq!(app.overlay(), Overlay::Closed);
    press(&mut app, "<Esc>");
    assert!(app.picker().is_none(), "from the first step it closes");
}

#[test]
fn the_panes_of_a_review_are_drawn_where_clicks_are_looked_for() {
    let mut app = review_app();
    frame(&mut app, 120, 30);
    let rows = frame_rows(Rect::new(0, 0, 120, 30), app.mode());
    let parts = layout(rows.body, false, false, 0);
    assert_eq!(parts.tree.y, app.geometry.review_top);
    assert_eq!(parts.tree.width, app.geometry.tree_width);
    assert_eq!(parts.tabs.height + parts.content.height, rows.body.height);
    assert_eq!(parts.tree.width + parts.diff.width, 120);
}

#[test]
fn a_combination_is_named_as_bindings_name_it() {
    assert_eq!(shifted(KeyCode::Char('G')).normalized(), plain(KeyCode::Char('G')));
    assert_eq!(shifted(KeyCode::BackTab).normalized(), plain(KeyCode::BackTab));
    assert_eq!(shifted(KeyCode::Enter).normalized(), shifted(KeyCode::Enter));
    assert_eq!(control('c').normalized(), control('c'));
}

#[test]
fn a_click_below_the_panes_of_a_review_is_in_none_of_them() {
    let mut app = review_app();
    frame(&mut app, 120, 30);
    app.focus = Pane::Chat;
    let body = app.geometry.body;
    assert_eq!(app.pane_at(60, body.y), None, "the tabs");
    assert_eq!(app.pane_at(60, app.geometry.review_top), Some(Pane::Diff));
    assert_eq!(app.pane_at(60, body.y + body.height), None, "the status line");
    app.on_mouse(click(60, body.y + body.height));
    assert_eq!(app.focus(), Pane::Chat);
}
