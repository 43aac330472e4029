//! Application state: everything the interface knows between two frames.
//!
//! Keys, mouse events and finished jobs change this state and nothing else; what has to be done
//! outside of it is handed back as an [`Effect`](crate::effect::Effect).

use vstd::prelude::*;

use crate::catalog::{CatalogState, ModelSelection};
use crate::chat::ChatState;
use crate::diff_view::DiffView;
use crate::keys::{KeyCombo, Mode};
use crate::layout::Rect;
use crate::list_view::{PrListState, PullRequestPage};
use crate::model_picker::{shorten, shortened, PickerState};
use crate::notices::{
    add_notice, drop_expired, newest, newest_notice, notice_views, noticed, Notice, NoticeLevel,
    NoticeView, MAX_NOTICES,
};
use crate::panel::{Bundle, PanelState};
use crate::patch::opt_view;
use crate::pr::PullRequestDetail;
use crate::strings::{characters, concat2, concat4, decimal, number, same, views};
use crate::time::{moment, moment_of};

verus! {

/// How long to wait for input when nothing is pending, in milliseconds.
pub const IDLE_POLL_MS: u64 = 250;

/// How many command candidates are offered while a command is typed.
pub const PALETTE_ROWS: usize = 3;

/// The focused pane.
#[derive(Debug, Clone, Copy, PartialEq, Eq, Structural)]
pub enum Pane {
    /// The pull request list.
    PullRequests,
    /// The diff and review pane.
    Diff,
    /// The chat pane.
    Chat,
}

impl Default for Pane {
    fn default() -> (r: Self)
        ensures
            r == Pane::PullRequests,
    {
        Pane::PullRequests
    }
}

impl Pane {
    /// The pane that follows.
    pub open spec fn after(self) -> Pane {
        match self {
            Pane::PullRequests => Pane::Diff,
            Pane::Diff => Pane::Chat,
            Pane::Chat => Pane::PullRequests,
        }
    }

    /// The pane before.
    pub open spec fn before(self) -> Pane {
        match self {
            Pane::PullRequests => Pane::Chat,
            Pane::Diff => Pane::PullRequests,
            Pane::Chat => Pane::Diff,
        }
    }

    /// The name of a pane.
    pub open spec fn name(self) -> Seq<char> {
        match self {
            Pane::PullRequests => "list"@,
            Pane::Diff => "diff"@,
            Pane::Chat => "chat"@,
        }
    }

    /// The pane of a name.
    pub open spec fn named(name: Seq<char>) -> Pane {
        if name == "diff"@ {
            Pane::Diff
        } else if name == "chat"@ {
            Pane::Chat
        } else {
            Pane::PullRequests
        }
    }

    /// The next pane, in the order `Tab` walks them: the list, the diff, the conversation.
    #[must_use]
    pub fn next(self) -> (r: Self)
        ensures
            r == self.after(),
    {
        match self {
            Pane::PullRequests => Pane::Diff,
            Pane::Diff => Pane::Chat,
            Pane::Chat => Pane::PullRequests,
        }
    }

    /// The previous pane, going backwards.
    #[must_use]
    pub fn prev(self) -> (r: Self)
        ensures
            r == self.before(),
    {
        match self {
            Pane::PullRequests => Pane::Chat,
            Pane::Diff => Pane::PullRequests,
            Pane::Chat => Pane::Diff,
        }
    }

    /// Name used in the status line and in the state file.
    #[must_use]
    pub fn label(self) -> (r: &'static str)
        ensures
            r@ == self.name(),
    {
        match self {
            Pane::PullRequests => "list",
            Pane::Diff => "diff",
            Pane::Chat => "chat",
        }
    }

    /// Parses the name written to the state file.
    #[must_use]
    pub fn parse(name: &str) -> (r: Self)
        ensures
            r == Pane::named(name@),
    {
        if same(name, "diff") {
            Pane::Diff
        } else if same(name, "chat") {
            Pane::Chat
        } else {
            Pane::PullRequests
        }
    }
}

/// Going forwards and backwards undo each other, and three steps either way come back.
pub proof fn lemma_panes_cycle(pane: Pane)
    ensures
        pane.after().before() == pane,
        pane.before().after() == pane,
        pane.after().after().after() == pane,
        pane.before().before().before() == pane,
        pane.after() != pane,
{
}

/// What is written for a pane is read back as that pane.
pub proof fn lemma_pane_survives_the_state_file(pane: Pane)
    ensures
        Pane::named(pane.name()) == pane,
{
    reveal_strlit("list");
    reveal_strlit("diff");
    reveal_strlit("chat");
    assert("list"@[0] == 'l');
    assert("diff"@[0] == 'd');
    assert("chat"@[0] == 'c');
}

/// The popup that currently owns the screen, if any.
#[derive(Debug, Clone, Copy, PartialEq, Eq, Structural)]
pub enum Overlay {
    /// Nothing is open.
    Closed,
    /// The help popup.
    Help,
    /// The leader menu.
    Leader,
    /// Environment checks.
    Doctor,
    /// Theme selection.
    ThemePicker,
    /// The analysis panel: the summary, the intent, the risks and the plan.
    Analysis,
    /// The context inspector: what would be sent and what was left out.
    Context,
    /// The model's own text, when it could not be used as an analysis.
    RawAnswer,
}

impl Default for Overlay {
    fn default() -> (r: Self)
        ensures
            r == Overlay::Closed,
    {
        Overlay::Closed
    }
}

/// The two steps of opening a pull request.
#[derive(Debug, Clone, Copy, PartialEq, Eq, Structural)]
pub enum OpeningStage {
    /// The metadata, commits, checks and reviews.
    Detail,
    /// The patch itself, which is the slow one.
    Diff,
}

/// A pull request being opened, and how far along that is.
#[derive(Debug, Clone, Copy, PartialEq, Eq, Structural)]
pub struct Opening {
    /// Which pull request.
    pub number: u64,
    /// Which step the fetch is on.
    pub stage: OpeningStage,
    /// When the fetch started, in seconds since the epoch.
    pub started_at: u64,
}

impl Opening {
    /// The first line of the indicator.
    pub open spec fn heading(self) -> Seq<char> {
        "Opening #"@ + decimal(self.number as nat)
    }

    /// The second line of the indicator.
    pub open spec fn progress(self, now: u64) -> Seq<char> {
        let what = match self.stage {
            OpeningStage::Detail => "fetching the pull request"@,
            OpeningStage::Diff => "fetching the diff"@,
        };
        let elapsed = if now > self.started_at { now - self.started_at } else { 0 };
        if elapsed < 2 {
            what
        } else {
            what + " · "@ + decimal(elapsed as nat) + "s so far"@
        }
    }

    /// The first line of the indicator.
    #[must_use]
    pub fn headline(&self) -> (r: String)
        ensures
            r@ == self.heading(),
    {
        concat2("Opening #", number(self.number).as_str())
    }

    /// The second line: what is being fetched, and for how long.
    #[must_use]
    pub fn detail(&self, now: u64) -> (r: String)
        ensures
            r@ == self.progress(now),
    {
        let what: &str = match self.stage {
            OpeningStage::Detail => "fetching the pull request",
            OpeningStage::Diff => "fetching the diff",
        };
        let elapsed: u64 = now.saturating_sub(self.started_at);
        if elapsed < 2 {
            what.to_owned()
        } else {
            concat4(what, " · ", number(elapsed).as_str(), "s so far")
        }
    }
}

/// The command line's buffer.
#[derive(Debug, PartialEq, Eq)]
pub struct CommandLine {
    /// What has been typed.
    pub input: String,
    /// Why the last command was rejected.
    pub error: Option<String>,
}

impl Default for CommandLine {
    fn default() -> (r: Self)
        ensures
            r.input@.len() == 0,
            r.error is None,
    {
        CommandLine { input: String::new(), error: None }
    }
}

impl CommandLine {
    /// Whether the buffer holds a text and nothing was rejected.
    pub open spec fn holds(&self, text: Seq<char>) -> bool {
        self.input@ == text && self.error is None
    }

    /// Takes what has been typed, and clears any error.
    pub fn take(&mut self) -> (r: String)
        ensures
            r@ == old(self).input@,
            final(self).holds(Seq::empty()),
    {
        let input = self.input.clone();
        self.clear();
        input
    }

    /// Empties the buffer and clears any error.
    pub fn clear(&mut self)
        ensures
            final(self).holds(Seq::empty()),
    {
        self.input = String::new();
        self.error = None;
    }

    /// Appends a character.
    pub fn push(&mut self, value: char)
        ensures
            final(self).holds(old(self).input@.push(value)),
    {
        self.input.push(value);
        self.error = None;
    }

    /// Removes the last character.
    pub fn backspace(&mut self)
        ensures
            final(self).holds(shortened(old(self).input@)),
    {
        self.input = shorten(self.input.as_str());
        self.error = None;
    }
}

/// Where the panes were on the last frame.
#[derive(Debug, Clone, Copy, PartialEq, Eq, Structural)]
pub struct Geometry {
    /// The width of the last frame, which the fit checks read.
    pub width: u16,
    /// The filter bar.
    pub filter_bar: Rect,
    /// The list pane.
    pub list: Rect,
    /// The whole body, for the bounds a click has to fall inside.
    pub body: Rect,
    /// The first row of the review panes, below the tab bar.
    pub review_top: u16,
    /// The width of the file tree, which separates the two review panes.
    pub tree_width: u16,
    /// The chat pane, when it is open.
    pub chat: Option<Rect>,
}

/// The rectangle without cells.
pub open spec fn nowhere() -> Rect {
    Rect { x: 0, y: 0, width: 0, height: 0 }
}

impl Geometry {
    /// What is known before the first frame.
    pub open spec fn unseen() -> Geometry {
        Geometry {
            width: 0,
            filter_bar: nowhere(),
            list: nowhere(),
            body: nowhere(),
            review_top: 0,
            tree_width: 0,
            chat: None,
        }
    }
}

impl Default for Geometry {
    fn default() -> (r: Self)
        ensures
            r == Geometry::unseen(),
    {
        let none = Rect::new(0, 0, 0, 0);
        Geometry {
            width: 0,
            filter_bar: none,
            list: none,
            body: none,
            review_top: 0,
            tree_width: 0,
            chat: None,
        }
    }
}

/// The settings the state reads.
#[derive(Debug, PartialEq, Eq)]
pub struct Config {
    /// Whether the mouse is captured.
    pub mouse: bool,
    /// How many pull requests a page asks for.
    pub page_size: u64,
    /// How many pages are fetched at most.
    pub max_pages: u64,
    /// How many lines of context a diff has.
    pub context_lines: u32,
    /// Whether a diff ignores whitespace.
    pub ignore_whitespace: bool,
    /// How worktrees are used; `remote` means not at all.
    pub workspace_mode: String,
    /// The model that was chosen.
    pub active: Option<ModelSelection>,
    /// The most tokens of context that are sent, where that is set.
    pub max_context_tokens: Option<u64>,
    /// The most bytes of one file that are sent.
    pub max_file_bytes: u64,
}

/// What is remembered between two runs.
#[derive(Debug, PartialEq, Eq)]
pub struct AppState {
    /// The theme that was chosen.
    pub theme: Option<String>,
    /// The pane that had the focus.
    pub focus: Option<String>,
    /// The repositories for which sending was agreed to.
    pub analysis_opt_in: Vec<String>,
    /// The files added to the context, by pull request.
    pub context_files: Vec<(String, Vec<String>)>,
}

/// Where the interface runs.
#[derive(Debug, PartialEq, Eq)]
pub struct Environment {
    /// What the repository is stored under.
    pub repo_key: String,
    /// The repository, as it is shown.
    pub repo_slug: String,
    /// The account, where it is known.
    pub account: Option<String>,
}

/// Why it cannot run there.
#[derive(Debug, PartialEq, Eq)]
pub struct EnvironmentError {
    /// What is wrong.
    pub message: String,
    /// What to do about it.
    pub advice: String,
}

/// The chosen model, as the catalog describes it.
#[derive(Debug, PartialEq, Eq)]
pub struct ResolvedSelection {
    /// The provider's id.
    pub provider: String,
    /// The model's id.
    pub model: String,
    /// The model, as it is shown.
    pub label: String,
    /// The thinking setting, as it is shown.
    pub thinking_label: String,
    /// The variable that may hold the key.
    pub env_var: Option<String>,
    /// What is off about the choice.
    pub warnings: Vec<String>,
}

/// A managed worktree.
#[derive(Debug, PartialEq, Eq)]
pub struct Workspace {
    /// Where it is.
    pub path: String,
    /// The commit it is at.
    pub head_sha: String,
}

/// Where a diff was read from.
#[derive(Debug, Clone, Copy, PartialEq, Eq, Structural)]
pub enum DiffSource {
    /// From the forge.
    Forge,
    /// From the worktree.
    Worktree,
}

impl DiffSource {
    /// The name of a source.
    pub open spec fn name(self) -> Seq<char> {
        match self {
            DiffSource::Forge => "forge"@,
            DiffSource::Worktree => "worktree"@,
        }
    }

    /// The source's name.
    #[must_use]
    pub fn label(self) -> (r: &'static str)
        ensures
            r@ == self.name(),
    {
        match self {
            DiffSource::Forge => "forge",
            DiffSource::Worktree => "worktree",
        }
    }
}

/// How a check of the environment went.
#[derive(Debug, Clone, Copy, PartialEq, Eq, Structural)]
pub enum CheckStatus {
    Good,
    Warn,
    Fail,
}

/// One check of the environment.
#[derive(Debug, PartialEq, Eq)]
pub struct Check {
    /// What was checked.
    pub name: String,
    /// How it went.
    pub status: CheckStatus,
    /// The mark for how it went.
    pub marker: String,
    /// What was found.
    pub detail: String,
}

/// One row of the theme picker.
#[derive(Debug, PartialEq, Eq)]
pub struct PickerEntry {
    /// The name shown.
    pub name: String,
    /// The theme's own name, once it was loaded.
    pub theme: Option<String>,
    /// Where it came from, once it was loaded.
    pub source: Option<String>,
}

/// The theme that was in force when the picker opened.
#[derive(Debug, PartialEq, Eq)]
pub struct KeptTheme {
    /// The theme's own name.
    pub theme: String,
    /// Where it came from.
    pub source: String,
    /// The name it was requested by.
    pub request: String,
}

/// What the interface starts with.
pub struct Startup {
    /// The settings.
    pub config: Config,
    /// Where the settings came from.
    pub config_source: String,
    /// How many keys the settings file holds.
    pub config_keys: usize,
    /// The active theme's own name.
    pub theme: String,
    /// Where the theme came from.
    pub theme_source: String,
    /// The name the theme was asked for by.
    pub theme_request: String,
    /// Every theme that can be chosen.
    pub theme_names: Vec<String>,
    /// What the last run remembered.
    pub state: AppState,
    /// What went wrong on the way here.
    pub warnings: Vec<String>,
    /// The repository that was asked for.
    pub repo: Option<String>,
    /// The pull request that was asked for.
    pub pr: Option<u64>,
    /// The directory that was asked for.
    pub path: Option<String>,
    /// The remote that was asked for.
    pub remote: Option<String>,
    /// The version of the analysis prompt in use.
    pub prompt_version: u32,
}

/// Everything the interface needs to know.
pub struct App {
    /// The settings.
    pub config: Config,
    /// Where the settings came from.
    pub config_source: String,
    /// How many keys the settings file holds.
    pub config_keys: usize,
    /// The active theme's own name.
    pub theme: String,
    /// Where the theme came from.
    pub theme_source: String,
    /// The name the active theme was asked for by, which is what the picker marks.
    pub theme_request: String,
    /// Every theme that can be chosen.
    pub theme_names: Vec<String>,
    /// What is remembered between two runs.
    pub state: AppState,
    /// Warnings collected during startup.
    pub warnings: Vec<String>,
    /// The repository that was asked for.
    pub repo: Option<String>,
    /// The pull request that was asked for.
    pub requested_pr: Option<u64>,
    /// The directory that was asked for.
    pub requested_path: Option<String>,
    /// The remote that was asked for.
    pub remote: Option<String>,
    /// The version of the analysis prompt in use.
    pub prompt_version: u32,
    /// Current input mode.
    pub mode: Mode,
    /// The open popup, if any.
    pub overlay: Overlay,
    /// Keys pressed so far in a multi-key sequence.
    pub pending: Vec<KeyCombo>,
    /// When the pending sequence becomes unambiguous, on the clock of the loop.
    pub deadline: Option<u64>,
    /// Whether the leader menu is waiting for a continuation.
    pub leader_open: bool,
    /// The command line's buffer.
    pub command: CommandLine,
    /// Recent notifications.
    pub notices: Vec<Notice>,
    /// Themes offered by the picker.
    pub picker_items: Vec<PickerEntry>,
    /// Cursor inside the theme picker.
    pub picker_cursor: usize,
    /// Theme in force when the picker opened, restored if it is cancelled.
    pub theme_before_picker: Option<KeptTheme>,
    /// Restricts the help popup to one action.
    pub help_filter: Option<String>,
    /// The first line the help popup shows.
    pub help_scroll: usize,
    /// What detection resolved, once it has run.
    pub environment: Option<Environment>,
    /// Why detection failed, when it did.
    pub environment_error: Option<EnvironmentError>,
    /// Whether detection is still running.
    pub environment_running: bool,
    /// The pull request list.
    pub list: PrListState,
    /// The detail of the open pull request.
    pub detail: Option<PullRequestDetail>,
    /// The review view, present when a pull request is open.
    pub review: Option<DiffView>,
    /// The pull request being opened, if one is.
    pub opening: Option<Opening>,
    /// Advances the opening spinner.
    pub spinner: usize,
    /// Whether the diff is still being fetched.
    pub diff_loading: bool,
    /// The model catalog, once it has been fetched.
    pub catalog: Option<CatalogState>,
    /// The model picker, when it is open.
    pub picker: Option<PickerState>,
    /// The selection in use, resolved against the catalog.
    pub active_model: Option<ResolvedSelection>,
    /// Why the configured model cannot be used, when it cannot.
    pub model_problem: Option<String>,
    /// The job id of the picker's connection check.
    pub check_job: u64,
    /// The job id of the catalog fetch.
    pub catalog_job: u64,
    /// Whether the automatic fetch for a configured model has already been tried.
    pub catalog_auto_fetched: bool,
    /// Where the diff on screen was read from.
    pub diff_source: DiffSource,
    /// The open pull request's worktree, once it exists.
    pub workspace: Option<Workspace>,
    /// The job id of the worktree being built.
    pub workspace_job: u64,
    /// Why the shown diff came from the cache, when it did.
    pub diff_offline: Option<String>,
    /// The analysis panel's state.
    pub panel: PanelState,
    /// The chat pane's state.
    pub chat: ChatState,
    /// The context a question would send, once it has been gathered.
    pub chat_bundle: Option<Bundle>,
    /// Which pull request and commit that context was gathered for.
    pub chat_bundle_for: Option<(u64, String)>,
    /// Whether the open conversation has changed since it was last written.
    pub chat_dirty: bool,
    /// The job id of the newest detection request.
    pub environment_job: u64,
    /// The job id of the newest list request, so a superseded answer is dropped.
    pub list_job: u64,
    /// The job id of the newest count request.
    pub count_job: u64,
    /// The job id of the newest detail request.
    pub detail_job: u64,
    /// The job id of the newest diff request.
    pub patch_job: u64,
    /// The focused pane.
    pub focus: Pane,
    /// The last doctor report.
    pub checks: Vec<Check>,
    /// Whether a doctor job is in flight.
    pub doctor_running: bool,
    /// The job id of the newest doctor request.
    pub doctor_job: u64,
    /// Seconds since the epoch as of the current loop iteration.
    pub now_unix_secs: u64,
    /// Seconds since the epoch when the interface started.
    pub started_at: u64,
    /// Milliseconds on the loop's own clock as of the current iteration.
    pub clock_ms: u64,
    /// Where the panes were on the last frame.
    pub geometry: Geometry,
    /// Set when the user asks to quit.
    pub quit: bool,
    /// Set when the state file no longer describes the app.
    pub state_dirty: bool,
}

/// How many pull requests a page asks for.
pub open spec fn first_page(config: Config) -> u32 {
    if config.page_size <= u32::MAX { config.page_size as u32 } else { 50 }
}

/// How many pull requests are fetched at most.
pub open spec fn most_items(config: Config) -> u32 {
    let pages = if config.max_pages > 1 { config.max_pages as int } else { 1 };
    let most = config.page_size * pages;
    if most <= u32::MAX { most as u32 } else { 500 }
}

/// The pane the last run left the focus in.
pub open spec fn remembered_focus(state: AppState) -> Pane {
    match state.focus {
        Some(name) => Pane::named(name@),
        None => Pane::PullRequests,
    }
}

/// What the interface starts with: the list and the focused pane.
#[must_use]
pub fn initial_view(config: &Config, state: &AppState) -> (r: (PrListState, Pane))
    ensures
        r.0.is_new(first_page(*config), most_items(*config)),
        r.1 == remembered_focus(*state),
{
    let focus = match &state.focus {
        Some(name) => Pane::parse(name.as_str()),
        None => Pane::default(),
    };
    let page: u32 = if config.page_size <= u32::MAX as u64 { config.page_size as u32 } else { 50 };
    let pages: u64 = if config.max_pages > 1 { config.max_pages } else { 1 };
    let most: u32 = match config.page_size.checked_mul(pages) {
        Some(most) => if most <= u32::MAX as u64 { most as u32 } else { 500 },
        None => 500,
    };
    (PrListState::new(page, most), focus)
}

/// A queue after the first `n` warnings were announced.
pub open spec fn warned(queue: Seq<NoticeView>, warnings: Seq<Seq<char>>, n: nat, now: u64) -> Seq<
    NoticeView,
>
    decreases n,
{
    if n == 0 {
        queue
    } else {
        noticed(
            warned(queue, warnings, (n - 1) as nat, now),
            NoticeLevel::Warn,
            warnings[n - 1],
            now,
        )
    }
}

/// How many of `n` warnings are announced at once.
pub open spec fn announced(n: nat) -> nat {
    if n < MAX_NOTICES { n } else { MAX_NOTICES as nat }
}

impl App {
    /// Whether nothing has happened since the start.
    pub open spec fn at_start(&self, startup: Startup) -> bool {
        &&& self.config == startup.config
        &&& self.config_source == startup.config_source
        &&& self.config_keys == startup.config_keys
        &&& self.theme == startup.theme
        &&& self.theme_source == startup.theme_source
        &&& self.theme_request == startup.theme_request
        &&& self.theme_names == startup.theme_names
        &&& self.state == startup.state
        &&& self.warnings == startup.warnings
        &&& self.repo == startup.repo
        &&& self.requested_pr == startup.pr
        &&& self.requested_path == startup.path
        &&& self.remote == startup.remote
        &&& self.prompt_version == startup.prompt_version
        &&& self.mode == Mode::Normal
        &&& self.overlay == Overlay::Closed
        &&& self.pending@.len() == 0
        &&& self.deadline is None
        &&& !self.leader_open
        &&& self.command.input@.len() == 0
        &&& self.command.error is None
        &&& self.picker_items@.len() == 0
        &&& self.picker_cursor == 0
        &&& self.theme_before_picker is None
        &&& self.help_filter is None
        &&& self.help_scroll == 0
        &&& self.environment is None
        &&& self.environment_error is None
        &&& self.environment_running
        &&& self.list.is_new(first_page(startup.config), most_items(startup.config))
        &&& self.detail is None
        &&& self.review is None
        &&& self.opening is None
        &&& self.spinner == 0
        &&& !self.diff_loading
        &&& self.catalog is None
        &&& self.picker is None
        &&& self.active_model is None
        &&& self.model_problem is None
        &&& self.check_job == 0 && self.catalog_job == 0 && self.workspace_job == 0
        &&& self.environment_job == 0 && self.list_job == 0 && self.count_job == 0
        &&& self.detail_job == 0 && self.patch_job == 0 && self.doctor_job == 0
        &&& !self.catalog_auto_fetched
        &&& self.diff_source == DiffSource::Forge
        &&& self.workspace is None
        &&& self.diff_offline is None
        &&& self.panel.is_new()
        &&& self.chat.is_new()
        &&& self.chat_bundle is None
        &&& self.chat_bundle_for is None
        &&& !self.chat_dirty
        &&& self.focus == remembered_focus(startup.state)
        &&& self.checks@.len() == 0
        &&& !self.doctor_running
        &&& self.geometry == Geometry::unseen()
        &&& self.now_unix_secs == 0 && self.started_at == 0 && self.clock_ms == 0
        &&& !self.quit
        &&& !self.state_dirty
    }

    /// Builds the app from a resolved startup.
    pub fn new(startup: Startup) -> (r: Result<Self, String>)
        ensures
            r is Ok,
            r->Ok_0.at_start(startup),
            notice_views(r->Ok_0.notices@) == warned(
                Seq::empty(),
                views(startup.warnings@),
                announced(startup.warnings@.len()),
                0,
            ),
    {
        let (list, focus) = initial_view(&startup.config, &startup.state);
        let mut app = App {
            config: startup.config,
            config_source: startup.config_source,
            config_keys: startup.config_keys,
            theme: startup.theme,
            theme_source: startup.theme_source,
            theme_request: startup.theme_request,
            theme_names: startup.theme_names,
            state: startup.state,
            warnings: startup.warnings,
            repo: startup.repo,
            requested_pr: startup.pr,
            requested_path: startup.path,
            remote: startup.remote,
            prompt_version: startup.prompt_version,
            mode: Mode::Normal,
            overlay: Overlay::Closed,
            pending: Vec::new(),
            deadline: None,
            leader_open: false,
            command: CommandLine::default(),
            notices: Vec::new(),
            picker_items: Vec::new(),
            picker_cursor: 0,
            theme_before_picker: None,
            help_filter: None,
            help_scroll: 0,
            environment: None,
            environment_error: None,
            environment_running: true,
            list,
            detail: None,
            review: None,
            opening: None,
            spinner: 0,
            diff_loading: false,
            catalog: None,
            picker: None,
            active_model: None,
            model_problem: None,
            check_job: 0,
            catalog_job: 0,
            catalog_auto_fetched: false,
            diff_source: DiffSource::Forge,
            workspace: None,
            workspace_job: 0,
            diff_offline: None,
            panel: PanelState::default(),
            chat: ChatState::default(),
            chat_bundle: None,
            chat_bundle_for: None,
            chat_dirty: false,
            environment_job: 0,
            list_job: 0,
            count_job: 0,
            detail_job: 0,
            patch_job: 0,
            focus,
            checks: Vec::new(),
            doctor_running: false,
            doctor_job: 0,
            now_unix_secs: 0,
            started_at: 0,
            clock_ms: 0,
            geometry: Geometry::default(),
            quit: false,
            state_dirty: false,
        };
        assert(notice_views(app.notices@) =~= Seq::empty());
        app.report_startup_warnings();
        Ok(app)
    }

    /// Announces the first of the startup warnings without consuming them.
    fn report_startup_warnings(&mut self)
        ensures
            *final(self) == (App { notices: final(self).notices, ..*old(self) }),
            notice_views(final(self).notices@) == warned(
                notice_views(old(self).notices@),
                views(old(self).warnings@),
                announced(old(self).warnings@.len()),
                old(self).clock_ms,
            ),
    {
        let ghost before = *self;
        let count: usize = if self.warnings.len() < MAX_NOTICES {
            self.warnings.len()
        } else {
            MAX_NOTICES
        };
        let mut i: usize = 0;
        while i < count
            invariant
                i <= count <= before.warnings@.len(),
                *self == (App { notices: self.notices, ..before }),
                notice_views(self.notices@) == warned(
                    notice_views(before.notices@),
                    views(before.warnings@),
                    i as nat,
                    before.clock_ms,
                ),
            decreases count - i,
        {
            assert(views(before.warnings@)[i as int] == before.warnings@[i as int]@);
            let now: u64 = self.clock_ms;
            let warning: String = self.warnings[i].clone();
            add_notice(&mut self.notices, NoticeLevel::Warn, warning.as_str(), now);
            i += 1;
        }
    }

    /// Whether one more notice is all that changed.
    pub open spec fn notices_after(&self, before: &App, level: NoticeLevel, text: Seq<char>) -> bool {
        notice_views(self.notices@) == noticed(
            notice_views(before.notices@),
            level,
            text,
            before.clock_ms,
        )
    }

    /// Adds a notification to the status line.
    ///
    /// Errors do not expire: they stay until they are dismissed.
    pub fn notice(&mut self, level: NoticeLevel, text: &str)
        ensures
            *final(self) == (App { notices: final(self).notices, ..*old(self) }),
            final(self).notices_after(old(self), level, text@),
    {
        let now: u64 = self.clock_ms;
        add_notice(&mut self.notices, level, text, now);
    }

    /// Removes every notification, the persistent errors too.
    pub fn dismiss_notices(&mut self)
        ensures
            *final(self) == (App { notices: final(self).notices, ..*old(self) }),
            final(self).notices@.len() == 0,
    {
        self.notices = Vec::new();
    }

    /// The most recent live notification, which is what the status line shows.
    #[must_use]
    pub fn latest_notice(&self) -> (r: Option<&Notice>)
        ensures
            match r {
                Some(notice) => newest(
                    notice_views(self.notices@),
                    self.clock_ms,
                    self.notices@.len(),
                ) == Some(notice@),
                None => newest(
                    notice_views(self.notices@),
                    self.clock_ms,
                    self.notices@.len(),
                ) is None,
            },
    {
        newest_notice(&self.notices, self.clock_ms)
    }

    /// Advances the clock and the spinner, and drops the notifications that have expired.
    pub fn tick(&mut self, now_ms: u64)
        ensures
            *final(self) == (App {
                spinner: if old(self).spinner < usize::MAX {
                    (old(self).spinner + 1) as usize
                } else {
                    0
                },
                clock_ms: now_ms,
                notices: final(self).notices,
                ..*old(self)
            }),
            notice_views(final(self).notices@) == crate::notices::live_notices(
                notice_views(old(self).notices@),
                now_ms,
                old(self).notices@.len(),
            ),
    {
        self.spinner = if self.spinner < usize::MAX { self.spinner + 1 } else { 0 };
        self.clock_ms = now_ms;
        self.tick_at(now_ms);
    }

    /// Drops the notifications that have expired at `now_ms`.
    pub fn tick_at(&mut self, now_ms: u64)
        ensures
            *final(self) == (App { notices: final(self).notices, ..*old(self) }),
            notice_views(final(self).notices@) == crate::notices::live_notices(
                notice_views(old(self).notices@),
                now_ms,
                old(self).notices@.len(),
            ),
    {
        drop_expired(&mut self.notices, now_ms);
    }

    /// How long to wait for more input, in milliseconds.
    #[must_use]
    pub fn poll_timeout(&self) -> (r: u64)
        ensures
            r == match self.deadline {
                Some(deadline) => if deadline > self.clock_ms + 1 {
                    deadline - self.clock_ms
                } else {
                    1
                },
                None => IDLE_POLL_MS as int,
            },
    {
        match self.deadline {
            Some(deadline) => {
                let left: u64 = deadline.saturating_sub(self.clock_ms);
                if left > 1 { left } else { 1 }
            },
            None => IDLE_POLL_MS,
        }
    }

    /// Whether the user asked to quit.
    #[must_use]
    pub fn should_quit(&self) -> (r: bool)
        ensures
            r == self.quit,
    {
        self.quit
    }

    /// Requests a clean shutdown.
    pub fn quit(&mut self)
        ensures
            *final(self) == (App { quit: true, ..*old(self) }),
    {
        self.quit = true;
    }

    /// Whether mouse capture should be enabled.
    #[must_use]
    pub fn mouse_enabled(&self) -> (r: bool)
        ensures
            r == self.config.mouse,
    {
        self.config.mouse
    }

    /// Turns mouse capture off or on at runtime.
    pub fn show_mouse(&mut self, enabled: bool)
        ensures
            *final(self) == (App {
                config: Config { mouse: enabled, ..old(self).config },
                ..*old(self)
            }),
    {
        self.config.mouse = enabled;
    }

    /// The active input mode.
    #[must_use]
    pub fn mode(&self) -> (r: Mode)
        ensures
            r == self.mode,
    {
        self.mode
    }

    /// The open popup, if any.
    #[must_use]
    pub fn overlay(&self) -> (r: Overlay)
        ensures
            r == self.overlay,
    {
        self.overlay
    }

    /// The focused pane.
    #[must_use]
    pub fn focus(&self) -> (r: Pane)
        ensures
            r == self.focus,
    {
        self.focus
    }

    /// The theme picker cursor.
    #[must_use]
    pub fn picker_cursor(&self) -> (r: usize)
        ensures
            r == self.picker_cursor,
    {
        self.picker_cursor
    }

    /// The doctor report delivered by the last job.
    #[must_use]
    pub fn checks(&self) -> (r: &Vec<Check>)
        ensures
            *r == self.checks,
    {
        &self.checks
    }

    /// The clock as of this loop iteration, for what shows ages: seconds since the epoch.
    #[must_use]
    pub fn now(&self) -> (r: i64)
        ensures
            r == moment_of(self.now_unix_secs),
    {
        moment(self.now_unix_secs)
    }

    /// The clock as of the last loop iteration.
    #[must_use]
    pub fn now_unix_secs(&self) -> (r: u64)
        ensures
            r == self.now_unix_secs,
    {
        self.now_unix_secs
    }

    /// The current time, for what shows an age.
    #[must_use]
    pub fn now_unix(&self) -> (r: u64)
        ensures
            r == self.now_unix_secs,
    {
        self.now_unix_secs
    }

    /// Sets the clock for this iteration of the event loop.
    pub fn set_now(&mut self, now_unix_secs: u64)
        ensures
            *final(self) == (App {
                started_at: if old(self).started_at == 0 {
                    now_unix_secs
                } else {
                    old(self).started_at
                },
                now_unix_secs,
                ..*old(self)
            }),
    {
        if self.started_at == 0 {
            self.started_at = now_unix_secs;
        }
        self.now_unix_secs = now_unix_secs;
    }

    /// How many keys the settings file holds, the unknown ones too.
    #[must_use]
    pub fn document_key_count(&self) -> (r: usize)
        ensures
            r == self.config_keys,
    {
        self.config_keys
    }

    /// Replaces the pull request list.
    pub fn set_pull_requests(&mut self, page: PullRequestPage)
        ensures
            *final(self) == (App { list: final(self).list, ..*old(self) }),
            final(self).list == old(self).list.replaced(page),
    {
        self.list.replace(page);
    }

    /// The mode that goes with a focus, while no popup has the keyboard.
    pub open spec fn mode_for(&self, focus: Pane) -> Mode {
        if self.overlay != Overlay::Closed && self.overlay != Overlay::Leader {
            self.mode
        } else if focus == Pane::Chat {
            Mode::Insert
        } else if self.mode == Mode::Insert {
            Mode::Normal
        } else {
            self.mode
        }
    }

    /// Keeps the input mode in step with which pane has the keyboard.
    ///
    /// Only insert and normal mode move. The leader menu is not modal: it is open at the moment a
    /// binding that starts with the leader fires.
    pub fn sync_mode_to_focus(&mut self)
        ensures
            *final(self) == (App { mode: old(self).mode_for(old(self).focus), ..*old(self) }),
    {
        if self.overlay != Overlay::Closed && self.overlay != Overlay::Leader {
            return;
        }
        if self.focus == Pane::Chat {
            self.mode = Mode::Insert;
        } else if self.mode == Mode::Insert {
            self.mode = Mode::Normal;
        }
    }

    /// Whether a review was opened.
    pub open spec fn review_opened(
        &self,
        before: &App,
        detail: PullRequestDetail,
        view: DiffView,
    ) -> bool {
        &&& *self == (App {
            detail: Some(detail),
            review: Some(view),
            focus: if before.review is None { Pane::Diff } else { before.focus },
            mode: if before.review is None {
                before.mode_for(Pane::Diff)
            } else {
                before.mode
            },
            diff_loading: false,
            opening: None,
            ..*before
        })
    }

    /// Opens the review screen for a detail and its diff.
    ///
    /// The focus is only taken when this opens the screen: a late diff must not pull the keyboard
    /// out of whatever it was moved on to.
    pub fn open_review(&mut self, detail: PullRequestDetail, view: DiffView)
        ensures
            final(self).review_opened(old(self), detail, view),
    {
        let opening: bool = self.review.is_none();
        self.detail = Some(detail);
        self.review = Some(view);
        if opening {
            self.focus = Pane::Diff;
            self.sync_mode_to_focus();
        }
        self.diff_loading = false;
        self.stop_opening();
    }

    /// Whether an open review was closed.
    pub open spec fn review_closed(&self, before: &App, r: bool) -> bool {
        &&& r == (before.review is Some)
        &&& !r ==> *self == *before
        &&& r ==> *self == (App {
            review: None,
            detail: None,
            diff_offline: None,
            diff_loading: false,
            focus: Pane::PullRequests,
            ..*before
        })
    }

    /// Closes the review screen and returns to the list.
    pub fn close_review(&mut self) -> (r: bool)
        ensures
            final(self).review_closed(old(self), r),
    {
        if self.review.is_none() {
            return false;
        }
        self.review = None;
        self.detail = None;
        self.diff_offline = None;
        self.diff_loading = false;
        self.focus = Pane::PullRequests;
        true
    }

    /// Whether a pull request is open, which decides which screen is drawn.
    #[must_use]
    pub fn review_screen(&self) -> (r: Option<&DiffView>)
        ensures
            match r {
                Some(view) => self.review == Some(*view),
                None => self.review is None,
            },
    {
        match &self.review {
            Some(view) => Some(view),
            None => None,
        }
    }

    /// Replaces the review view, keeping the detail it belongs to.
    pub fn set_review(&mut self, view: DiffView)
        ensures
            *final(self) == (App { review: Some(view), ..*old(self) }),
    {
        self.review = Some(view);
    }

    /// The open review view for editing, if any.
    pub fn review_mut(&mut self) -> (r: Option<&mut DiffView>)
        ensures
            match r {
                Some(view) => old(self).review == Some(*view) && *final(self) == (App {
                    review: Some(*final(view)),
                    ..*old(self)
                }),
                None => old(self).review is None && *final(self) == *old(self),
            },
    {
        self.review.as_mut()
    }

    /// Notes that a pull request is being opened, which the indicator shows.
    pub fn begin_opening(&mut self, number: u64)
        ensures
            *final(self) == (App {
                opening: Some(
                    Opening {
                        number,
                        stage: OpeningStage::Detail,
                        started_at: old(self).now_unix_secs,
                    },
                ),
                ..*old(self)
            }),
    {
        self.opening =
        Some(Opening { number, stage: OpeningStage::Detail, started_at: self.now_unix_secs });
    }

    /// Moves the indicator on to the second step.
    pub fn advance_opening(&mut self)
        ensures
            *final(self) == (App {
                opening: match old(self).opening {
                    Some(opening) => Some(Opening { stage: OpeningStage::Diff, ..opening }),
                    None => None,
                },
                ..*old(self)
            }),
    {
        match self.opening {
            Some(opening) => {
                self.opening = Some(Opening { stage: OpeningStage::Diff, ..opening });
            },
            None => {},
        }
    }

    /// Stops showing the indicator.
    pub fn stop_opening(&mut self)
        ensures
            *final(self) == (App { opening: None, ..*old(self) }),
    {
        self.opening = None;
    }

    /// The pull request being opened, if one is.
    #[must_use]
    pub fn opening(&self) -> (r: Option<Opening>)
        ensures
            r == self.opening,
    {
        self.opening
    }

    /// The spinner frame.
    #[must_use]
    pub fn spinner(&self) -> (r: usize)
        ensures
            r == self.spinner,
    {
        self.spinner
    }

    /// Whether anything is in flight for the screen that is shown.
    #[must_use]
    pub fn loading_something(&self) -> (r: bool)
        ensures
            r == (self.environment_running || self.list.loading || self.list.counting || (
            self.review is None && self.diff_loading)),
    {
        if self.environment_running || self.list.loading || self.list.counting {
            return true;
        }
        self.review.is_none() && self.diff_loading
    }

    /// Whether nothing is waited for any more.
    pub open spec fn loading_cancelled(&self, before: &App) -> bool {
        &&& *self == (App {
            opening: None,
            environment_running: false,
            list: PrListState { loading: false, counting: false, ..before.list },
            diff_loading: false,
            notices: self.notices,
            ..*before
        })
        &&& self.notices_after(before, NoticeLevel::Info, "cancelled"@)
    }

    /// Forgets the work that was cancelled, so the spinners stop.
    pub fn cancelled_in_flight(&mut self)
        ensures
            final(self).loading_cancelled(old(self)),
    {
        self.stop_opening();
        self.environment_running = false;
        self.list.loading = false;
        self.list.counting = false;
        self.diff_loading = false;
        self.notice(NoticeLevel::Info, "cancelled");
    }

    /// The terminal width of the last frame.
    #[must_use]
    pub fn terminal_width(&self) -> (r: u16)
        ensures
            r == self.geometry.width,
    {
        self.geometry.width
    }

    /// Records that the environment was resolved.
    pub fn set_environment(&mut self, environment: Environment)
        ensures
            *final(self) == (App {
                environment: Some(environment),
                environment_error: None,
                environment_running: false,
                ..*old(self)
            }),
    {
        self.environment = Some(environment);
        self.environment_error = None;
        self.environment_running = false;
    }

    /// Records that the environment could not be resolved.
    pub fn set_environment_error(&mut self, error: EnvironmentError)
        ensures
            *final(self) == (App {
                environment_error: Some(error),
                environment_running: false,
                ..*old(self)
            }),
    {
        self.environment_error = Some(error);
        self.environment_running = false;
    }

    /// The environment, once detection has resolved one.
    #[must_use]
    pub fn environment(&self) -> (r: Option<&Environment>)
        ensures
            match r {
                Some(environment) => self.environment == Some(*environment),
                None => self.environment is None,
            },
    {
        match &self.environment {
            Some(environment) => Some(environment),
            None => None,
        }
    }

    /// The open pull request's detail.
    #[must_use]
    pub fn detail(&self) -> (r: Option<&PullRequestDetail>)
        ensures
            match r {
                Some(detail) => self.detail == Some(*detail),
                None => self.detail is None,
            },
    {
        match &self.detail {
            Some(detail) => Some(detail),
            None => None,
        }
    }

    /// Where the diff on screen came from.
    #[must_use]
    pub fn diff_source(&self) -> (r: DiffSource)
        ensures
            r == self.diff_source,
    {
        self.diff_source
    }

    /// Whether the diff on screen contains a path.
    pub open spec fn has_path(&self, path: Seq<char>) -> bool {
        match self.review {
            Some(view) => crate::rows::first_file(
                view.patch@.files,
                path,
                view.patch@.files.len(),
            ) is Some,
            None => false,
        }
    }

    /// Whether the diff on screen contains a path, which is what makes a reference in an answer
    /// one that can be followed.
    #[must_use]
    pub fn path_in_diff(&self, path: &str) -> (r: bool)
        ensures
            r == self.has_path(path@),
    {
        match &self.review {
            Some(view) => {
                assert(crate::rows::file_views(view.patch.files@) =~= view.patch@.files);
                crate::rows::find_file(&view.patch.files, path).is_some()
            },
            None => false,
        }
    }

    /// The error currently shown under the command line, if any.
    #[must_use]
    pub fn command_error_text(&self) -> (r: Option<&str>)
        ensures
            match r {
                Some(text) => opt_view(self.command.error) == Some(text@),
                None => self.command.error is None,
            },
    {
        match &self.command.error {
            Some(error) => Some(error.as_str()),
            None => None,
        }
    }

    /// Records a command line error.
    ///
    /// The command line is closed by the time a command runs, so the error also goes to the status
    /// line.
    pub fn command_error(&mut self, message: &str)
        ensures
            *final(self) == (App {
                notices: final(self).notices,
                command: CommandLine { error: final(self).command.error, ..old(self).command },
                ..*old(self)
            }),
            final(self).notices_after(old(self), NoticeLevel::Error, message@),
            opt_view(final(self).command.error) == Some(message@),
    {
        self.notice(NoticeLevel::Error, message);
        self.command.error = Some(message.to_owned());
    }

    /// Opens the command line with a prefix already typed.
    pub fn open_command(&mut self, prefix: &str)
        ensures
            *final(self) == (App {
                command: final(self).command,
                mode: Mode::Command,
                ..old(self).overlay_cancelled()
            }),
            final(self).command.input@ == prefix@,
            final(self).command.error is None,
    {
        self.cancel_overlay();
        self.command.clear();
        let chars = characters(prefix);
        let mut i: usize = 0;
        let ghost cancelled = *self;
        assert(chars@.subrange(0, 0) =~= Seq::empty());
        while i < chars.len()
            invariant
                i <= chars@.len(),
                *self == (App { command: self.command, ..cancelled }),
                self.command.input@ == chars@.subrange(0, i as int),
                self.command.error is None,
            decreases chars@.len() - i,
        {
            self.command.push(chars[i]);
            i += 1;
            assert(chars@.subrange(0, i as int) =~= chars@.subrange(0, i - 1).push(chars@[i - 1]));
        }
        assert(chars@.subrange(0, i as int) =~= chars@);
        self.mode = Mode::Command;
    }

    /// The state after a popup was closed and what it previewed was undone.
    pub open spec fn overlay_cancelled(self) -> App {
        match self.theme_before_picker {
            Some(kept) => App {
                theme: kept.theme,
                theme_source: kept.source,
                theme_request: kept.request,
                ..self.overlay_closed()
            },
            None => self.overlay_closed(),
        }
    }

    /// The state after a popup was closed.
    pub open spec fn overlay_closed(self) -> App {
        App {
            overlay: Overlay::Closed,
            leader_open: false,
            mode: Mode::Normal,
            theme_before_picker: None,
            help_filter: None,
            ..self
        }
    }

    /// Closes a popup, keeping whatever it selected.
    pub fn close_overlay(&mut self)
        ensures
            *final(self) == old(self).overlay_closed(),
    {
        self.overlay = Overlay::Closed;
        self.leader_open = false;
        self.mode = Mode::Normal;
        self.theme_before_picker = None;
        self.help_filter = None;
    }

    /// Closes a popup and undoes any preview it applied.
    pub fn cancel_overlay(&mut self)
        ensures
            *final(self) == old(self).overlay_cancelled(),
    {
        match self.theme_before_picker.take() {
            Some(kept) => {
                self.theme = kept.theme;
                self.theme_source = kept.source;
                self.theme_request = kept.request;
            },
            None => {},
        }
        self.close_overlay();
    }

    /// Whether the state file needs writing, clearing the flag.
    pub fn take_state_dirty(&mut self) -> (r: bool)
        ensures
            r == old(self).state_dirty,
            *final(self) == (App { state_dirty: false, ..*old(self) }),
    {
        let dirty: bool = self.state_dirty;
        self.state_dirty = false;
        dirty
    }
}

} // verus!
