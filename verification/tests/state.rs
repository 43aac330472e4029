use smart_review::app::{
    App, AppState, Config, Environment, EnvironmentError, Pane, ResolvedSelection, Startup, Workspace,
};
use smart_review::app_overlay::LoadedTheme;
use smart_review::catalog::{CatalogModel, CatalogState, ModelSelection, Thinking};
use smart_review::diff_view::DiffView;
use smart_review::effect::{effect_name, AnalysisIntent, CatalogPolicy, Effect};
use smart_review::jobs::{AnalysisRun, Completion, FetchOutcome, Outcome, PickerSearch, ReadyAnalysis};
use smart_review::keys::Mode;
use smart_review::list_view::PullRequestPage;
use smart_review::model_picker::{PickerState, Step};
use smart_review::notices::NoticeLevel;
use smart_review::panel::{Analysis, AnalysisState, FileNote, PanelModel};
use smart_review::patch::{FileDiff, FileKind, FileStatus, Patch, PatchStats};
use smart_review::plan::{OrderMode, Plan, PlanGroup, PlanSource};
use smart_review::pr::{CheckSummary, PrState, PullRequestDetail, PullRequestSummary};
use smart_review::session::{Session, Usage};

fn startup() -> Startup {
    Startup {
        config: Config {
            mouse: true,
            page_size: 50,
            max_pages: 10,
            context_lines: 3,
            ignore_whitespace: false,
            workspace_mode: "auto".to_owned(),
            active: None,
            max_context_tokens: None,
            max_file_bytes: 65_536,
        },
        config_source: "defaults".to_owned(),
        config_keys: 0,
        theme: "dark".to_owned(),
        theme_source: "built in".to_owned(),
        theme_request: "dark".to_owned(),
        theme_names: vec!["dark".to_owned(), "light".to_owned()],
        state: AppState {
            theme: None,
            focus: None,
            analysis_opt_in: Vec::new(),
            context_files: Vec::new(),
        },
        warnings: Vec::new(),
        repo: None,
        pr: None,
        path: None,
        remote: None,
        prompt_version: 1,
    }
}


fn app() -> App {
    App::new(startup()).unwrap()
}

fn said(app: &App) -> Option<&str> {
    app.latest_notice().map(|notice| notice.text.as_str())
}

fn detail() -> PullRequestDetail {
    PullRequestDetail {
        summary: PullRequestSummary {
            number: 141,
            title: "Round half up".to_owned(),
            author: "alice".to_owned(),
            state: PrState::Open,
            work_in_progress: false,
            base_ref: "main".to_owned(),
            head_ref: "topic".to_owned(),
            head_sha: "abc123".to_owned(),
            changed_files: 2,
            review_decision: None,
            checks: CheckSummary::default(),
        },
        body: String::new(),
        commits: Vec::new(),
        checks: Vec::new(),
        reviews: Vec::new(),
        comments: Vec::new(),
        conversation: Vec::new(),
    }
}

fn file(path: &str) -> FileDiff {
    FileDiff {
        path: Some(path.to_owned()),
        display_path: path.to_owned(),
        size_label: "+0 −0".to_owned(),
        placeholder: Some("nothing to show".to_owned()),
        status: FileStatus::Modified,
        kind: FileKind::Text,
        hunks: Vec::new(),
    }
}

fn patch() -> Patch {
    Patch {
        files: vec![file("src/a.rs"), file("src/b.rs")],
        stats: PatchStats { files: 2, label: "2 files".to_owned() },
    }
}

fn resolved() -> ResolvedSelection {
    ResolvedSelection {
        provider: "deepseek".to_owned(),
        model: "v4".to_owned(),
        label: "DeepSeek V4".to_owned(),
        thinking_label: "off".to_owned(),
        env_var: None,
        warnings: vec!["it is slow".to_owned()],
    }
}

fn selection() -> ModelSelection {
    ModelSelection {
        provider: "deepseek".to_owned(),
        model: "v4".to_owned(),
        reasoning: Some(Thinking::Budget { tokens: 512 }),
    }
}

fn catalog() -> CatalogState {
    CatalogState {
        summary: "1 model".to_owned(),
        providers: Vec::new(),
        models: vec![CatalogModel {
            provider: "deepseek".to_owned(),
            id: "v4".to_owned(),
            output_limit: Some(8_192),
            context_limit: Some(65_536),
            cost: Some("$1 / $2 per Mtok".to_owned()),
            thinking: Vec::new(),
        }],
    }
}

fn environment() -> Environment {
    Environment {
        repo_key: "github.com/acme/service".to_owned(),
        repo_slug: "acme/service".to_owned(),
        account: None,
    }
}

fn review_app() -> App {
    let mut app = app();
    app.set_environment(environment());
    app.open_review(detail(), DiffView::new(patch()));
    app
}

fn plan() -> Plan {
    Plan {
        groups: vec![PlanGroup {
            group: "domain".to_owned(),
            order: 1,
            rationale: "rules first".to_owned(),
            files: vec!["src/b.rs".to_owned()],
        }],
        source: PlanSource::Analysis,
        overridden: false,
        head_sha: "abc123".to_owned(),
    }
}

fn analysis() -> Analysis {
    Analysis {
        head_sha: "abc123".to_owned(),
        prompt_version: 1,
        notes: vec![FileNote {
            path: "src/a.rs".to_owned(),
            notes: String::new(),
            change: String::new(),
            review_focus: vec!["signs".to_owned(), "zero".to_owned()],
        }],
        plan: plan(),
        panel: PanelModel {
            summary: String::new(),
            intent: String::new(),
            risks: Vec::new(),
            questions: Vec::new(),
            steps: Vec::new(),
            analyzed_files: Vec::new(),
            truncated_files: Vec::new(),
            limitations: Vec::new(),
        },
    }
}

#[test]
fn an_effect_is_named_without_its_key() {
    let stored = Effect::SaveKey { provider: "deepseek".to_owned(), key: "sk-secret".to_owned() };
    assert_eq!(effect_name(&stored), "save-key");
    assert_eq!(stored.describe(), "SaveKey { provider: \"deepseek\", key: \"<redacted>\" }");
    assert_eq!(effect_name(&Effect::OpenPullRequest(141)), "open-pull-request(141)");
    assert_eq!(effect_name(&Effect::LoadCatalog(CatalogPolicy::Refresh)), "load-catalog(Refresh)");
    assert_eq!(effect_name(&Effect::RunAnalysis { force: true }), "run-analysis(force=true)");
    assert_eq!(Effect::OpenChat("1-0".to_owned()).describe(), "OpenChat(\"1-0\")");
    let odd = "a\"b\\c\n\u{200b}é".to_owned();
    assert_eq!(Effect::ExportChat(odd.clone()).describe(), format!("ExportChat({odd:?})"));
    assert_eq!(Effect::Nothing.describe(), "none");
}

#[test]
fn a_picker_is_described_without_its_key() {
    let mut picker = PickerState::new();
    picker.key_input = "sk-ø".to_owned();
    picker.step = Step::Key;
    picker.provider = Some("deepseek".to_owned());
    picker.thinking = Some(Thinking::Budget { tokens: 512 });
    assert_eq!(
        picker.describe(),
        "PickerState { step: Key, query: \"\", cursor: 0, rows: 0, provider: Some(\"deepseek\"), \
         model: None, thinking: Some(Budget { tokens: 512 }), \
         key_input: \"<4 characters, redacted>\", key_present: false, checking: false, \
         notice: None }"
    );
}

#[test]
fn the_wait_for_an_event_ends_with_the_sequence() {
    let mut app = app();
    assert_eq!(app.poll_timeout(), 250);
    app.deadline = Some(400);
    app.tick(100);
    assert_eq!(app.poll_timeout(), 300);
    app.tick(1_000);
    assert_eq!(app.poll_timeout(), 1, "late, but never not at all");
}

#[test]
fn startup_warnings_are_announced_up_to_what_fits() {
    let warnings = ["one", "two", "three", "four"].map(str::to_owned).to_vec();
    let app = App::new(Startup { warnings, ..startup() }).unwrap();
    let texts: Vec<&str> = app.notices.iter().map(|notice| notice.text.as_str()).collect();
    assert_eq!(texts, vec!["one", "two", "three"]);
    assert_eq!(app.warnings.len(), 4);
    assert_eq!(app.list.page_size, 50);
    assert_eq!(app.list.max_items, 500);
}

#[test]
fn the_remembered_pane_has_the_focus_at_the_start() {
    let state = AppState { focus: Some("chat".to_owned()), ..startup().state };
    let app = App::new(Startup { state, ..startup() }).unwrap();
    assert_eq!(app.focus(), Pane::Chat);
    let state = AppState { focus: Some("nowhere".to_owned()), ..startup().state };
    let app = App::new(Startup { state, ..startup() }).unwrap();
    assert_eq!(app.focus(), Pane::PullRequests);
}

#[test]
fn closing_a_review_goes_back_to_the_list() {
    let mut app = review_app();
    assert!(app.close_review());
    assert!(app.review_screen().is_none() && app.detail().is_none());
    assert_eq!(app.focus(), Pane::PullRequests);
    assert!(!app.close_review(), "there is nothing left to close");
}

#[test]
fn a_transcript_is_named_after_its_conversation() {
    let mut app = app();
    assert_eq!(
        app.export_name("md", "1-0"),
        Err("there is no conversation to export yet".to_owned())
    );
    app.chat.session = Some(Session::new("1-0", "repo", 141, "abc123", "m", None, 1));
    assert_eq!(app.export_name(" markdown ", "1-0"), Ok("chat-141-1-0.md".to_owned()));
    assert_eq!(app.export_name("", "1-0"), Ok("chat-141-1-0.md".to_owned()));
    assert_eq!(app.export_name("json", "1-0"), Ok("chat-141-1-0.json".to_owned()));
    assert_eq!(
        app.export_name("pdf", "1-0"),
        Err("pdf is not a format; use md or json".to_owned())
    );
}

#[test]
fn a_model_is_resolved_against_the_catalog() {
    let mut app = app();
    app.set_active_selection(selection(), Ok(resolved()));
    assert!(!app.has_model(), "without a catalog nothing is known of it");
    app.apply_completion(Completion {
        job: app.catalog_job,
        outcome: Outcome::Catalog {
            catalog: catalog(),
            resolved: Ok(resolved()),
            search: PickerSearch { matched: Vec::new(), models: Vec::new() },
        },
    });
    assert!(app.has_model());
    assert_eq!(app.model_label(), "deepseek/v4");
    assert_eq!(app.model_cost().as_deref(), Some("$1 / $2 per Mtok"));
    assert_eq!(app.limits(), (Some(8_192), Some(65_536)));
    let texts: Vec<&str> = app.notices.iter().map(|notice| notice.text.as_str()).collect();
    assert_eq!(texts, vec!["model: it is slow", "model catalog: 1 model"]);

    app.resolve_active_model(Err("unknown model".to_owned()));
    assert!(!app.has_model());
    assert_eq!(app.model_problem(), Some("unknown model"));
    assert_eq!(app.model_label(), "the configured model");
}

#[test]
fn a_checked_model_says_what_it_answered() {
    let mut app = app();
    app.finish_check(
        "  hello ",
        Some(Usage { prompt: 3, completion: 4, total: 7, reasoning: None }),
    );
    assert_eq!(
        said(&app),
        Some("the provider answered (3 prompt + 4 completion tokens)")
    );
    app.finish_check(" \n", None);
    let notice = said(&app).expect("a notice");
    assert!(notice.starts_with("the provider answered with no text ("), "{notice}");
}

#[test]
fn an_analysis_is_asked_for_only_with_a_model_and_a_key() {
    let mut app = review_app();
    assert!(app.analysis_request(Some("sk-test".to_owned())).is_none());
    app.catalog = Some(catalog());
    app.set_active_selection(selection(), Ok(resolved()));
    assert!(app.analysis_request(None).is_none());
    assert!(app.check_request(None).is_none());
    app.workspace = Some(Workspace { path: "/w".to_owned(), head_sha: "abc123".to_owned() });
    let request = app.analysis_request(Some("sk-test".to_owned())).expect("a request");
    assert_eq!(request.key.repo, "github.com/acme/service");
    assert_eq!((request.key.pr, request.key.head_sha.as_str()), (141, "abc123"));
    assert_eq!(request.key.thinking, Some(Thinking::Budget { tokens: 512 }));
    assert_eq!(request.context_limit, Some(65_536));
    assert_eq!(request.patch.map(|patch| patch.files.len()), Some(2));
    assert_eq!(request.checkout.map(|checkout| checkout.path.to_string()), Some("/w".to_owned()));
}

#[test]
fn a_finished_analysis_orders_the_review() {
    let mut app = review_app();
    app.catalog = Some(catalog());
    app.set_active_selection(selection(), Ok(resolved()));
    assert_eq!(app.plan_summary(), "no review plan yet: <leader>a analyses the pull request");
    app.begin_analysis();
    app.record_analysis_job(7);
    app.apply_completion(Completion {
        job: 7,
        outcome: Outcome::Analyzed(AnalysisRun::Ready(ReadyAnalysis {
            analysis: analysis(),
            warnings: Vec::new(),
            repaired: false,
            usage: None,
        })),
    });
    assert_eq!(*app.analysis_state(), AnalysisState::Ready);
    assert!(!app.analysis_is_stale());
    let view = app.review.as_mut().expect("a review");
    view.set_order(OrderMode::Recommended);
    assert_eq!(app.plan_summary(), "recommended order, 1.domain (1) (AI)");
    app.review.as_mut().expect("a review").goto_file(0);
    assert_eq!(app.current_file_note().as_deref(), Some("check: signs; zero"));
}

#[test]
fn a_gathered_context_of_another_commit_is_not_sent() {
    let mut app = review_app();
    app.panel.state = AnalysisState::Gathering;
    let bundle = || smart_review::panel::Bundle { summary: "~1".to_owned(), segments: Vec::new() };
    app.apply_context(bundle(), AnalysisIntent::Estimate);
    assert!(app.take_context_bundle_for_current_head().is_some());
    app.apply_context(bundle(), AnalysisIntent::Estimate);
    if let Some(detail) = app.detail.as_mut() {
        detail.summary.head_sha = "def456".to_owned();
    }
    assert!(app.take_context_bundle_for_current_head().is_none());
    assert!(app.panel.bundle.is_none());
}

#[test]
fn a_theme_that_cannot_be_read_is_reported_and_changes_nothing() {
    let mut app = app();
    let failed: Result<LoadedTheme, String> = Err("no such theme".to_owned());
    assert!(matches!(app.set_theme("mist", failed), Effect::Nothing));
    assert_eq!((app.theme.as_str(), said(&app)), ("dark", Some("no such theme")));
    app.reload_theme(Ok(LoadedTheme {
        theme: "dark".to_owned(),
        source: "themes/dark.toml".to_owned(),
        warnings: Vec::new(),
    }));
    assert_eq!(said(&app), Some("reloaded theme dark from themes/dark.toml"));
    app.reload_keymap(Some("bad key"), &vec!["odd key".to_owned()]);
    assert_eq!(said(&app), Some("odd key"));

    let mut bare = App::new(Startup { theme_names: Vec::new(), ..startup() }).unwrap();
    assert_eq!(bare.toggle_theme(), None);
    assert_eq!(said(&bare), Some("no themes are available"));
}

#[test]
fn what_the_environment_lacks_is_kept() {
    let mut app = app();
    app.record_job(&Effect::DetectEnvironment, 3);
    app.apply_completion(Completion {
        job: 3,
        outcome: Outcome::EnvironmentFailed(EnvironmentError {
            message: "`gh` was not found".to_owned(),
            advice: "install it".to_owned(),
        }),
    });
    assert!(!app.environment_running);
    assert_eq!(
        app.environment_error.as_ref().map(|error| error.advice.as_str()),
        Some("install it")
    );
}

#[test]
fn a_cursor_follows_its_pull_request_into_a_new_page() {
    let summary = |number: u64| PullRequestSummary { number, ..detail().summary };
    let page = |numbers: &[u64]| PullRequestPage {
        items: numbers.iter().map(|number| summary(*number)).collect(),
        matches: (0..numbers.len()).collect(),
        total: None,
        may_have_more: false,
    };
    let mut app = app();
    app.set_pull_requests(page(&[1, 2, 3]));
    app.list.move_cursor(2);
    let offline = FetchOutcome::Offline { value: page(&[9, 3, 1]), reason: "no network".to_owned() };
    app.record_job(&Effect::LoadPullRequests, 4);
    app.apply_completion(Completion { job: 4, outcome: Outcome::Page(offline) });
    assert_eq!(app.list.selected().map(|pr| pr.number), Some(3));
}

#[test]
fn a_rejected_command_says_why() {
    let mut app = app();
    app.open_command("set ");
    assert_eq!((app.mode(), app.command.input.as_str()), (Mode::Command, "set "));
    app.command_error("`set ` needs a value");
    assert_eq!(app.command_error_text(), Some("`set ` needs a value"));
    assert_eq!(app.latest_notice().map(|notice| notice.level), Some(NoticeLevel::Error));
}

#[test]
fn cancelling_stops_what_is_opening() {
    let mut app = app();
    app.begin_opening(7);
    assert!(app.loading_something());
    app.cancelled_in_flight();
    assert!(app.opening().is_none());
    assert!(!app.loading_something());
}
