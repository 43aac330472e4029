//! The analysis of the open pull request: reading it from the cache, running it, and what follows
//! for the order of the files.

use vstd::prelude::*;

use crate::app::{App, AppState, Overlay, ResolvedSelection};
use crate::catalog::{copy_thinking, Thinking};
use crate::diff_view::{clamped_cursor, DiffView};
use crate::effect::{AnalysisIntent, Effect};
use crate::jobs::{AnalysisRun, Progress, ProgressUpdate, ReadyAnalysis, Update};
use crate::notices::NoticeLevel;
use crate::panel::{AnalysisKey, AnalysisState, Bundle, PanelModel, PanelState, StoredAnalysis};
use crate::patch::{opt_view, Patch};
use crate::plan::{copy_plan, opt_plan, GroupView, OrderMode, Plan, PlanGroup, PlanView};
use crate::pr::PullRequestDetail;
use crate::session::Usage;
use crate::stream::{byte_prefix, bytes_of, streamed};
use crate::strings::{
    characters, collected, concat3, concat4, concat5, decimal, join, joined, number, same, views,
};
use crate::tree::{tree_fits, tree_views, TreeKind};

verus! {

/// The first eight bytes of a text, where they end between two characters; else all of it.
pub open spec fn abbreviated(s: Seq<char>) -> Seq<char> {
    let n = byte_prefix(s, s.len(), 8);
    if bytes_of(s.subrange(0, n as int)) == 8 { s.subrange(0, n as int) } else { s }
}

fn abbreviate(text: &str) -> (r: String)
    ensures
        r@ == abbreviated(text@),
{
    let chars = characters(text);
    let mut n: usize = chars.len();
    proof {
        crate::stream::lemma_bytes_of(text@.subrange(0, n as int));
    }
    while n > 0 && collected(&chars.as_slice()[0..n]).as_str().as_bytes().len() > 8
        invariant
            n <= chars@.len(),
            chars@ == text@,
            bytes_of(text@.subrange(0, n as int)) == vstd::utf8::encode_utf8(
                text@.subrange(0, n as int),
            ).len(),
            byte_prefix(text@, text@.len(), 8) == byte_prefix(text@, n as nat, 8),
        decreases n,
    {
        n -= 1;
        proof {
            crate::stream::lemma_bytes_of(text@.subrange(0, n as int));
        }
    }
    let head = collected(&chars.as_slice()[0..n]);
    if head.as_str().as_bytes().len() == 8 {
        head
    } else {
        text.to_owned()
    }
}

/// Whether two ASCII letters differ in case at most, or two characters not at all.
pub open spec fn same_letter(a: char, b: char) -> bool {
    lowered(a) == lowered(b)
}

/// An ASCII capital as a small letter; any other character as it is.
pub open spec fn lowered(c: char) -> char {
    if 'A' <= c && c <= 'Z' { (c as u32 + 32) as char } else { c }
}

fn lower(c: char) -> (r: char)
    ensures
        r == lowered(c),
{
    if 'A' <= c && c <= 'Z' {
        let n: u8 = c as u8;
        (n + 32) as char
    } else {
        c
    }
}

/// Whether two texts differ in the case of ASCII letters at most.
pub open spec fn same_ignoring_case(a: Seq<char>, b: Seq<char>) -> bool {
    a.len() == b.len() && forall|i: int| 0 <= i < a.len() ==> same_letter(#[trigger] a[i], b[i])
}

fn equals_ignoring_case(a: &str, b: &str) -> (r: bool)
    ensures
        r == same_ignoring_case(a@, b@),
{
    let xs = characters(a);
    let ys = characters(b);
    if xs.len() != ys.len() {
        return false;
    }
    let mut i: usize = 0;
    while i < xs.len()
        invariant
            i <= xs@.len(),
            xs@ == a@,
            ys@ == b@,
            xs@.len() == ys@.len(),
            forall|j: int| 0 <= j < i ==> same_letter(#[trigger] a@[j], b@[j]),
        decreases xs@.len() - i,
    {
        if lower(xs[i]) != lower(ys[i]) {
            assert(!same_letter(a@[i as int], b@[i as int]));
            return false;
        }
        i += 1;
    }
    true
}

/// What a run used, in words, for the notice that reports it.
pub open spec fn run_usage(usage: Option<Usage>) -> Seq<char> {
    match usage {
        Some(usage) => {
            let reasoning = match usage.reasoning {
                Some(tokens) => ", "@ + decimal(tokens as nat) + " reasoning"@,
                None => ""@,
            };
            " · "@ + decimal(usage.prompt as nat) + " in/"@ + decimal(usage.completion as nat)
                + reasoning + " out"@
        },
        None => ""@,
    }
}

fn word_run_usage(usage: Option<Usage>) -> (r: String)
    ensures
        r@ == run_usage(usage),
{
    match usage {
        Some(usage) => {
            let reasoning: String = match usage.reasoning {
                Some(tokens) => concat3(", ", number(tokens).as_str(), " reasoning"),
                None => "".to_owned(),
            };
            let mut out = concat5(
                " · ",
                number(usage.prompt).as_str(),
                " in/",
                number(usage.completion).as_str(),
                reasoning.as_str(),
            );
            out.append(" out");
            out
        },
        None => "".to_owned(),
    }
}

/// One step of a plan in short: its place, its name and how many files it holds.
pub open spec fn step_words(group: GroupView) -> Seq<char> {
    decimal(group.order as nat) + "."@ + group.group + " ("@ + decimal(group.files.len()) + ")"@
}

fn word_step(group: &PlanGroup) -> (r: String)
    ensures
        r@ == step_words(group@),
{
    assert(group@.files.len() == group.files@.len());
    let mut out = concat5(
        number(group.order as u64).as_str(),
        ".",
        group.group.as_str(),
        " (",
        number(group.files.len() as u64).as_str(),
    );
    out.append(")");
    out
}

/// A view after a plan was put into it.
pub open spec fn plan_applied(before: DiffView, after: DiffView, plan: Option<PlanView>) -> bool {
    &&& after == (DiffView {
        plan: after.plan,
        order: if plan is Some { OrderMode::Recommended } else { before.order },
        tree: after.tree,
        tree_cursor: clamped_cursor(before.tree_cursor as nat, after.tree@.len()) as usize,
        ..before
    })
    &&& opt_plan(after.plan) == plan
    &&& tree_views(after.tree@) == after.wanted_tree()
    &&& before.inv() ==> after.inv()
}

/// Whether a plan was put into the open review, where there is one.
pub open spec fn review_planned(
    before: Option<DiffView>,
    after: Option<DiffView>,
    plan: Option<PlanView>,
) -> bool {
    match before {
        Some(view) => after is Some && plan_applied(view, after->0, plan),
        None => after is None,
    }
}

/// Where the files of a worktree can be read.
pub struct Checkout<'a> {
    /// Where it is.
    pub path: &'a str,
    /// The commit it is at.
    pub head_sha: &'a str,
}

/// What a request to the model is made of.
pub struct AnalysisRequest<'a> {
    /// What the answer will be stored under.
    pub key: AnalysisKey,
    /// The model to ask.
    pub selection: &'a ResolvedSelection,
    /// The key to ask it with.
    pub secret: String,
    /// The most tokens it answers with.
    pub output_limit: Option<u64>,
    /// The most tokens it reads.
    pub context_limit: Option<u64>,
    /// The most tokens of context that may be sent.
    pub max_context_tokens: Option<u64>,
    /// The most bytes of one file that may be sent.
    pub max_file_bytes: u64,
    /// The pull request.
    pub detail: &'a PullRequestDetail,
    /// Its patch, once it is there.
    pub patch: Option<&'a Patch>,
    /// Its worktree, once it is there.
    pub checkout: Option<Checkout<'a>>,
}

impl AppState {
    /// Writes down that a repository was told what an analysis sends.
    fn agree(&mut self, key: String)
        ensures
            *final(self) == (AppState { analysis_opt_in: final(self).analysis_opt_in, ..*old(self) }),
            views(final(self).analysis_opt_in@) == views(old(self).analysis_opt_in@).push(key@),
            views(final(self).analysis_opt_in@).contains(key@),
    {
        let ghost before = self.analysis_opt_in@;
        self.analysis_opt_in.push(key);
        proof {
            assert(views(self.analysis_opt_in@) =~= views(before).push(key@));
            assert(views(self.analysis_opt_in@).last() == key@);
        }
    }
}

impl App {
    /// Whether the open review lies no deeper than a tree row can say.
    pub open spec fn review_fits(&self) -> bool {
        self.review matches Some(view) ==> tree_fits(view.patch@.files)
    }

    /// Pushes the plan, or its absence, into the review view.
    pub fn apply_plan_to_review(&mut self)
        requires
            old(self).review_fits(),
        ensures
            *final(self) == (App { review: final(self).review, ..*old(self) }),
            review_planned(old(self).review, final(self).review, opt_plan(old(self).panel.plan)),
    {
        let plan = copy_plan(&self.panel.plan);
        match self.review.take() {
            Some(mut view) => {
                view.set_plan(plan);
                self.review = Some(view);
            },
            None => {},
        }
    }

    /// Rebuilds the view after the plan was changed by hand.
    pub fn after_plan_change(&mut self)
        requires
            old(self).review_fits(),
        ensures
            *final(self) == (App { review: final(self).review, ..*old(self) }),
            review_planned(old(self).review, final(self).review, opt_plan(old(self).panel.plan)),
    {
        self.apply_plan_to_review();
    }

    /// Replaces the review plan and orders the view to match.
    pub fn set_plan(&mut self, plan: Plan)
        requires
            old(self).review_fits(),
        ensures
            *final(self) == (App {
                panel: PanelState { plan: Some(plan), ..old(self).panel },
                review: final(self).review,
                ..*old(self)
            }),
            review_planned(old(self).review, final(self).review, Some(plan@)),
    {
        self.panel.plan = Some(plan);
        self.apply_plan_to_review();
    }

    /// Whether a document was taken as the current analysis, and the review ordered by it.
    pub open spec fn adopted(&self, before: &App, stored: StoredAnalysis) -> bool {
        &&& *self == (App {
            panel: self.panel,
            review: self.review,
            notices: self.notices,
            ..*before
        })
        &&& self.panel.holds(&before.panel, stored)
        &&& review_planned(before.review, self.review, before.panel.plan_with(stored))
        &&& if stored.repaired {
            self.notices_after(
                before,
                NoticeLevel::Info,
                "the first answer was not usable JSON; it was asked again"@,
            )
        } else {
            self.notices == before.notices
        }
    }

    /// Takes a document as the current analysis and orders the review by it.
    fn adopt_analysis(&mut self, stored: StoredAnalysis)
        requires
            old(self).review_fits(),
        ensures
            final(self).adopted(old(self), stored),
    {
        let repaired: bool = stored.repaired;
        self.panel.hold(stored);
        self.apply_plan_to_review();
        if repaired {
            self.notice(
                NoticeLevel::Info,
                "the first answer was not usable JSON; it was asked again",
            );
        }
    }

    /// The commit the current analysis describes, or the pull request is at.
    pub open spec fn analysed_head(&self) -> Option<Seq<char>> {
        match (self.panel.analysis, self.detail) {
            (Some(stored), _) => Some(stored.analysis.head_sha@),
            (None, Some(detail)) => Some(detail.summary.head_sha@),
            (None, None) => None,
        }
    }

    /// The commit the current analysis describes, if there is one.
    #[must_use]
    pub fn analysis_head(&self) -> (r: Option<String>)
        ensures
            opt_view(r) == self.analysed_head(),
    {
        match &self.panel.analysis {
            Some(stored) => Some(stored.analysis.head_sha.clone()),
            None => match &self.detail {
                Some(detail) => Some(detail.summary.head_sha.clone()),
                None => None,
            },
        }
    }

    /// What is said of an analysis of an older commit.
    pub open spec fn older_words(age: Seq<char>, head_sha: Seq<char>) -> Seq<char> {
        "an analysis from "@ + age + " ago covers an older commit ("@ + abbreviated(head_sha)
            + "); <leader>a analyses the current one"@
    }

    /// Whether what the analysis cache held was taken over, the saved order left aside.
    pub open spec fn stored_taken(
        &self,
        before: &App,
        current: Option<StoredAnalysis>,
        stale: Option<StoredAnalysis>,
        age: Seq<char>,
    ) -> bool {
        let offered = App { panel: PanelState { stale, ..before.panel }, ..*before };
        match (current, stale) {
            (Some(stored), _) => self.adopted(&offered, stored),
            (None, Some(older)) => {
                &&& *self == (App {
                    panel: PanelState {
                        analysis: None,
                        state: AnalysisState::Idle,
                        ..offered.panel
                    },
                    notices: self.notices,
                    ..offered
                })
                &&& self.notices_after(
                    &offered,
                    NoticeLevel::Info,
                    App::older_words(age, older.key.head_sha@),
                )
            },
            (None, None) => *self == offered,
        }
    }

    /// Whether a saved order was used, or why it was not said.
    ///
    /// It is used only when it describes the commit the analysis does.
    pub open spec fn saved_plan_taken(&self, before: &App, plan: Option<Plan>) -> bool {
        match plan {
            None => *self == *before,
            Some(plan) => if before.analysed_head() == Some(plan.head_sha@) {
                &&& *self == (App {
                    panel: PanelState { plan: Some(plan), ..before.panel },
                    review: self.review,
                    ..*before
                })
                &&& review_planned(before.review, self.review, Some(plan@))
            } else if plan.overridden {
                &&& *self == (App { notices: self.notices, ..*before })
                &&& self.notices_after(
                    before,
                    NoticeLevel::Info,
                    "the saved review order was made against an older commit and was not used"@,
                )
            } else {
                *self == *before
            },
        }
    }

    /// Whether what the analysis cache held was applied: the analysis first, then the saved order.
    pub open spec fn store_applied(
        &self,
        before: &App,
        current: Option<StoredAnalysis>,
        stale: Option<StoredAnalysis>,
        plan: Option<Plan>,
        age: Seq<char>,
    ) -> bool {
        exists|between: App| #[trigger]
            between.stored_taken(before, current, stale, age) && self.saved_plan_taken(
                &between,
                plan,
            )
    }

    /// Applies what the analysis cache held.
    ///
    /// An analysis of the current commit is used without asking; one of an older commit is not
    /// presented as current but is offered.
    pub fn apply_stored(
        &mut self,
        current: Option<StoredAnalysis>,
        stale: Option<StoredAnalysis>,
        plan: Option<Plan>,
        age: &str,
    )
        requires
            old(self).review_fits(),
        ensures
            final(self).store_applied(old(self), current, stale, plan, age@),
    {
        self.take_stored(current, stale, age);
        let ghost between = *self;
        self.take_saved_plan(plan);
        assert(between.stored_taken(old(self), current, stale, age@));
    }

    fn take_stored(
        &mut self,
        current: Option<StoredAnalysis>,
        stale: Option<StoredAnalysis>,
        age: &str,
    )
        requires
            old(self).review_fits(),
        ensures
            final(self).stored_taken(old(self), current, stale, age@),
            final(self).review_fits(),
    {
        let older: Option<String> = match &stale {
            Some(stale) => Some(stale.key.head_sha.clone()),
            None => None,
        };
        self.panel.offer(stale);
        match current {
            Some(stored) => {
                self.adopt_analysis(stored);
            },
            None => match older {
                Some(head) => {
                    self.offer_older(head.as_str(), age);
                },
                None => {},
            },
        }
    }

    fn offer_older(&mut self, head: &str, age: &str)
        ensures
            *final(self) == (App {
                panel: PanelState {
                    analysis: None,
                    state: AnalysisState::Idle,
                    ..old(self).panel
                },
                notices: final(self).notices,
                ..*old(self)
            }),
            final(self).notices_after(old(self), NoticeLevel::Info, App::older_words(age@, head@)),
    {
        self.panel.rest();
        let text = concat5(
            "an analysis from ",
            age,
            " ago covers an older commit (",
            abbreviate(head).as_str(),
            "); <leader>a analyses the current one",
        );
        self.notice(NoticeLevel::Info, text.as_str());
    }

    fn take_saved_plan(&mut self, plan: Option<Plan>)
        requires
            old(self).review_fits(),
        ensures
            final(self).saved_plan_taken(old(self), plan),
    {
        match plan {
            Some(plan) => {
                let usable: bool = match self.analysis_head() {
                    Some(head) => plan.matches_head(head.as_str()),
                    None => false,
                };
                if usable {
                    self.set_plan(plan);
                } else if plan.overridden {
                    self.notice(
                        NoticeLevel::Info,
                        "the saved review order was made against an older commit and was not used",
                    );
                }
            },
            None => {},
        }
    }

    /// Which pull request and commit is on screen.
    pub open spec fn on_screen(&self) -> Option<(u64, Seq<char>)> {
        match self.detail {
            Some(detail) => Some((detail.summary.number, detail.summary.head_sha@)),
            None => None,
        }
    }

    /// What a marker of a pull request and commit says.
    pub open spec fn marked_for(mark: Option<(u64, String)>) -> Option<(u64, Seq<char>)> {
        match mark {
            Some((number, head)) => Some((number, head@)),
            None => None,
        }
    }

    /// Marks something as made for the pull request and commit on screen.
    pub fn current_mark(&self) -> (r: Option<(u64, String)>)
        ensures
            App::marked_for(r) == self.on_screen(),
    {
        match &self.detail {
            Some(detail) => Some((detail.summary.number, detail.summary.head_sha.clone())),
            None => None,
        }
    }

    /// Whether sending was agreed to for this repository.
    pub open spec fn opted_in(&self) -> bool {
        match self.environment {
            Some(environment) => views(self.state.analysis_opt_in@).contains(environment.repo_key@),
            None => false,
        }
    }

    /// Whether this repository has already been told what an analysis sends.
    #[must_use]
    pub fn analysis_opt_in_recorded(&self) -> (r: bool)
        ensures
            r == self.opted_in(),
    {
        match &self.environment {
            Some(environment) => crate::strings::is_among(
                &self.state.analysis_opt_in,
                environment.repo_key.as_str(),
            ),
            None => false,
        }
    }

    /// Whether sending was agreed to for the repository at hand, and written down.
    pub open spec fn agreed_to(&self, before: &App) -> bool {
        &&& before.environment is None ==> *self == *before
        &&& before.environment is Some ==> {
            &&& *self == (App {
                state: AppState {
                    analysis_opt_in: self.state.analysis_opt_in,
                    ..before.state
                },
                panel: PanelState { confirmed: false, ..before.panel },
                state_dirty: true,
                ..*before
            })
            &&& views(self.state.analysis_opt_in@) == if before.opted_in() {
                views(before.state.analysis_opt_in@)
            } else {
                views(before.state.analysis_opt_in@).push(
                    before.environment->0.repo_key@,
                )
            }
            &&& self.opted_in()
        }
    }

    /// Records the agreement for this repository.
    pub fn record_analysis_opt_in(&mut self)
        ensures
            final(self).agreed_to(old(self)),
    {
        let key: String = match &self.environment {
            Some(environment) => environment.repo_key.clone(),
            None => {
                return;
            },
        };
        if !self.analysis_opt_in_recorded() {
            self.state.agree(key);
        }
        self.panel.confirmed = false;
        self.state_dirty = true;
    }

    /// What is asked before the first send.
    pub open spec fn ask_words(summary: Seq<char>, model: Seq<char>) -> Seq<char> {
        "this sends "@ + summary + " of this pull request to "@ + model
            + "; press <leader>a again to confirm"@
    }

    /// Whether a gathered context was taken over, and what follows from what it was gathered for.
    pub open spec fn context_taken(
        &self,
        before: &App,
        bundle: Bundle,
        intent: AnalysisIntent,
        r: Option<Effect>,
    ) -> bool {
        let held = App {
            panel: PanelState {
                bundle: Some(bundle),
                bundle_for: self.panel.bundle_for,
                state: AnalysisState::Idle,
                ..before.panel
            },
            ..*before
        };
        &&& App::marked_for(self.panel.bundle_for) == before.on_screen()
        &&& match intent {
            AnalysisIntent::Inspect => {
                &&& r is None
                &&& *self == held.overlay_opened(Overlay::Context)
            },
            AnalysisIntent::Run => {
                &&& r == Some(Effect::RunAnalysis { force: false })
                &&& *self == held
            },
            AnalysisIntent::Estimate => if before.opted_in() {
                &&& r == Some(Effect::RunAnalysis { force: false })
                &&& *self == held
            } else {
                &&& r is None
                &&& *self == (App {
                    panel: PanelState {
                        confirmed: true,
                        state: AnalysisState::Confirming,
                        ..held.panel
                    },
                    notices: self.notices,
                    ..held.overlay_opened(Overlay::Analysis)
                })
                &&& self.notices_after(
                    before,
                    NoticeLevel::Info,
                    App::ask_words(bundle.summary@, before.model_words()),
                )
            },
        }
    }

    /// Applies a gathered context.
    ///
    /// Nothing is sent before it was agreed to, once per repository.
    pub fn apply_context(&mut self, bundle: Bundle, intent: AnalysisIntent) -> (r: Option<Effect>)
        ensures
            final(self).context_taken(old(self), bundle, intent, r),
    {
        self.panel.bundle_for = self.current_mark();
        self.panel.state = AnalysisState::Idle;
        let summary = bundle.summary.clone();
        self.panel.bundle = Some(bundle);
        match intent {
            AnalysisIntent::Inspect => {
                let _ = self.open_overlay(Overlay::Context);
                None
            },
            AnalysisIntent::Run => Some(Effect::RunAnalysis { force: false }),
            AnalysisIntent::Estimate => {
                if self.analysis_opt_in_recorded() {
                    return Some(Effect::RunAnalysis { force: false });
                }
                self.panel.confirmed = true;
                self.panel.state = AnalysisState::Confirming;
                let text = concat5(
                    "this sends ",
                    summary.as_str(),
                    " of this pull request to ",
                    self.model_label().as_str(),
                    "; press <leader>a again to confirm",
                );
                self.notice(NoticeLevel::Info, text.as_str());
                let _ = self.open_overlay(Overlay::Analysis);
                None
            },
        }
    }

    /// Whether a key describes what would be sent now.
    pub open spec fn describes(&self, key: AnalysisKey) -> bool {
        &&& self.detail is Some
        &&& self.environment is Some
        &&& self.active_model is Some
        &&& key.repo@ == self.environment->0.repo_key@
        &&& key.pr == self.detail->0.summary.number
        &&& key.head_sha@ == self.detail->0.summary.head_sha@
        &&& key.provider@ == self.active_model->0.provider@
        &&& key.model@ == self.active_model->0.model@
        &&& key.thinking == self.configured_thinking()
        &&& key.prompt_version == self.prompt_version
    }

    /// The thinking setting of the configured model.
    pub open spec fn configured_thinking(&self) -> Option<Thinking> {
        match self.config.active {
            Some(selection) => selection.reasoning,
            None => None,
        }
    }

    /// What the cache is asked for the open pull request.
    ///
    /// Built from the resolved selection rather than from the settings, because the key must
    /// describe what would actually be sent.
    #[must_use]
    pub fn analysis_key(&self) -> (r: Option<AnalysisKey>)
        ensures
            match r {
                Some(key) => self.describes(key),
                None => self.detail is None || self.environment is None || self.active_model is None,
            },
    {
        let detail = match &self.detail {
            Some(detail) => detail,
            None => {
                return None;
            },
        };
        let environment = match &self.environment {
            Some(environment) => environment,
            None => {
                return None;
            },
        };
        let resolved = match &self.active_model {
            Some(resolved) => resolved,
            None => {
                return None;
            },
        };
        Some(
            AnalysisKey {
                repo: environment.repo_key.clone(),
                pr: detail.summary.number,
                head_sha: detail.summary.head_sha.clone(),
                provider: resolved.provider.clone(),
                model: resolved.model.clone(),
                thinking: match &self.config.active {
                    Some(selection) => copy_thinking(&selection.reasoning),
                    None => None,
                },
                prompt_version: self.prompt_version,
            },
        )
    }

    /// The number of the open pull request, or zero.
    pub open spec fn open_number(&self) -> u64 {
        match self.detail {
            Some(detail) => detail.summary.number,
            None => 0,
        }
    }

    /// Whether a key describes what would be sent, or, where nothing could be, the pull request
    /// alone.
    pub open spec fn keyed(&self, key: AnalysisKey) -> bool {
        if self.detail is Some && self.environment is Some && self.active_model is Some {
            self.describes(key)
        } else {
            &&& key.repo@.len() == 0
            &&& key.pr == self.open_number()
            &&& key.head_sha@.len() == 0
            &&& key.provider@.len() == 0
            &&& key.model@.len() == 0
            &&& key.thinking is None
            &&& key.prompt_version == self.prompt_version
        }
    }

    fn key_or_blank(&self) -> (r: AnalysisKey)
        ensures
            self.keyed(r),
    {
        match self.analysis_key() {
            Some(key) => key,
            None => AnalysisKey {
                repo: String::new(),
                pr: match &self.detail {
                    Some(detail) => detail.summary.number,
                    None => 0,
                },
                head_sha: String::new(),
                provider: String::new(),
                model: String::new(),
                thinking: None,
                prompt_version: self.prompt_version,
            },
        }
    }

    /// Whether a stored document is what a finished run amounts to.
    pub open spec fn records(&self, stored: StoredAnalysis, ready: ReadyAnalysis) -> bool {
        &&& self.keyed(stored.key)
        &&& stored.analysis == ready.analysis
        &&& stored.raw@ == self.panel.stream@.0
        &&& stored.warnings == ready.warnings
        &&& stored.repaired == ready.repaired
        &&& stored.stored_at == self.now_unix_secs
    }

    /// What is said of a finished run.
    pub open spec fn done_words(&self, usage: Option<Usage>, repaired: bool) -> Seq<char> {
        "analysed #"@ + decimal(self.open_number() as nat) + " with "@ + self.model_words()
            + run_usage(usage) + if repaired { " (after a retry)"@ } else { ""@ }
    }

    /// Whether a finished run was taken over.
    pub open spec fn run_taken(&self, before: &App, run: AnalysisRun) -> bool {
        match run {
            AnalysisRun::Ready(ready) => exists|between: App, stored: StoredAnalysis|
                #![trigger between.adopted(before, stored)]
                between.adopted(before, stored) && before.records(stored, ready) && {
                    &&& *self == (App { notices: self.notices, ..between })
                    &&& self.notices_after(
                        &between,
                        NoticeLevel::Info,
                        before.done_words(ready.usage, ready.repaired),
                    )
                },
            AnalysisRun::Unparsed { reason, raw } => {
                &&& *self == (App {
                    panel: PanelState {
                        raw: Some((reason, raw)),
                        state: AnalysisState::Unusable { reason },
                        ..before.panel
                    },
                    notices: self.notices,
                    ..before.overlay_opened(Overlay::RawAnswer)
                })
                &&& self.notices_after(
                    before,
                    NoticeLevel::Warn,
                    "the answer could not be used: "@ + reason@ + " · `:analysis raw` shows it"@,
                )
            },
            AnalysisRun::Cancelled => {
                &&& *self == (App {
                    panel: PanelState { state: AnalysisState::Cancelled, ..before.panel },
                    notices: self.notices,
                    ..*before
                })
                &&& self.notices_after(
                    before,
                    NoticeLevel::Info,
                    "the analysis was cancelled; any text it had produced is kept"@,
                )
            },
        }
    }

    /// Applies a finished run, whichever way it went.
    pub fn apply_analysis(&mut self, run: AnalysisRun)
        requires
            old(self).review_fits(),
        ensures
            final(self).run_taken(old(self), run),
    {
        match run {
            AnalysisRun::Ready(ready) => {
                let usage: Option<Usage> = ready.usage;
                let repaired: bool = ready.repaired;
                let number_word: String = number(
                    match &self.detail {
                        Some(detail) => detail.summary.number,
                        None => 0,
                    },
                );
                let stored = StoredAnalysis {
                    key: self.key_or_blank(),
                    analysis: ready.analysis,
                    raw: self.panel.stream.text().to_owned(),
                    warnings: ready.warnings,
                    repaired,
                    stored_at: self.now_unix_secs,
                };
                let mut text = concat5(
                    "analysed #",
                    number_word.as_str(),
                    " with ",
                    self.model_label().as_str(),
                    word_run_usage(usage).as_str(),
                );
                text.append(if repaired { " (after a retry)" } else { "" });
                self.adopt_analysis(stored);
                let ghost between = *self;
                self.notice(NoticeLevel::Info, text.as_str());
                assert(between.adopted(old(self), stored));
            },
            AnalysisRun::Unparsed { reason, raw } => {
                let text = concat3(
                    "the answer could not be used: ",
                    reason.as_str(),
                    " · `:analysis raw` shows it",
                );
                self.panel.reject(reason, raw);
                self.notice(NoticeLevel::Warn, text.as_str());
                let _ = self.open_overlay(Overlay::RawAnswer);
            },
            AnalysisRun::Cancelled => {
                self.panel.state = AnalysisState::Cancelled;
                self.notice(
                    NoticeLevel::Info,
                    "the analysis was cancelled; any text it had produced is kept",
                );
            },
        }
    }

    /// The state of the panel after a piece of news.
    pub open spec fn panel_told(&self, before: &PanelState, update: Update) -> bool {
        match update {
            Update::Stage(stage) => {
                &&& self.panel == (PanelState { state: self.panel.state, ..*before })
                &&& self.panel.state == if before.stream@.0.len() == 0 {
                    AnalysisState::Running { stage }
                } else {
                    AnalysisState::Streaming { stage }
                }
            },
            Update::Delta(delta) => {
                &&& self.panel == (PanelState {
                    state: self.panel.state,
                    stream: self.panel.stream,
                    ..*before
                })
                &&& self.panel.stream@ == streamed(before.stream@, delta@)
                &&& self.panel.state is Streaming
                &&& self.panel.state->Streaming_stage@ == before.state.words()
            },
        }
    }

    /// Whether a piece of news reached the pane that waits for it.
    pub open spec fn progressed(&self, before: &App, progress: Progress) -> bool {
        &&& if progress.job == before.chat.job {
            match progress.update {
                ProgressUpdate::Chat(update) => {
                    &&& *self == (App { chat: self.chat, ..*before })
                    &&& self.chat_told(&before.chat, update)
                },
                ProgressUpdate::Analysis(_) => *self == *before,
            }
        } else if progress.job == before.panel.job {
            match progress.update {
                ProgressUpdate::Analysis(update) => {
                    &&& *self == (App { panel: self.panel, ..*before })
                    &&& self.panel_told(&before.panel, update)
                },
                ProgressUpdate::Chat(_) => *self == *before,
            }
        } else {
            *self == *before
        }
    }

    /// Streams a piece of the answer into the panel that asked for it.
    ///
    /// Each pane takes the news addressed to its own job, so text that arrives after it was stopped
    /// is dropped.
    pub fn apply_progress(&mut self, progress: Progress)
        ensures
            final(self).progressed(old(self), progress),
    {
        if progress.job == self.chat.job {
            match progress.update {
                ProgressUpdate::Chat(update) => {
                    self.apply_chat_progress(update);
                },
                ProgressUpdate::Analysis(_) => {},
            }
            return;
        }
        if progress.job != self.panel.job {
            return;
        }
        match progress.update {
            ProgressUpdate::Analysis(update) => match update {
                Update::Stage(stage) => {
                    self.panel.state = if self.panel.stream.text().is_empty() {
                        AnalysisState::Running { stage }
                    } else {
                        AnalysisState::Streaming { stage }
                    };
                },
                Update::Delta(delta) => {
                    let stage = self.panel.state.label();
                    self.panel.stream.push(delta.as_str());
                    self.panel.state = AnalysisState::Streaming { stage };
                },
            },
            ProgressUpdate::Chat(_) => {},
        }
    }

    /// Whether the worktree is at the commit on screen.
    pub open spec fn worktree_ready(&self) -> bool {
        match (self.workspace, self.detail) {
            (Some(workspace), Some(detail)) => workspace.head_sha@ == detail.summary.head_sha@,
            _ => false,
        }
    }

    /// Whether the open pull request's worktree matches the commit on screen.
    #[must_use]
    pub fn workspace_ready(&self) -> (r: bool)
        ensures
            r == self.worktree_ready(),
    {
        match (&self.workspace, &self.detail) {
            (Some(workspace), Some(detail)) => same(
                workspace.head_sha.as_str(),
                detail.summary.head_sha.as_str(),
            ),
            _ => false,
        }
    }

    /// Whether worktrees are to be made at all.
    #[must_use]
    pub fn wants_workspace(&self) -> (r: bool)
        ensures
            r == !same_ignoring_case(self.config.workspace_mode@, "remote"@),
    {
        !equals_ignoring_case(self.config.workspace_mode.as_str(), "remote")
    }

    /// Where the files can be read, when a worktree exists for the commit on screen.
    #[must_use]
    pub fn checkout(&self) -> (r: Option<Checkout<'_>>)
        ensures
            match r {
                Some(checkout) => self.worktree_ready() && checkout.path@
                    == self.workspace->0.path@ && checkout.head_sha@ == self.workspace->0.head_sha@,
                None => !self.worktree_ready(),
            },
    {
        if !self.workspace_ready() {
            return None;
        }
        match &self.workspace {
            Some(workspace) => Some(
                Checkout {
                    path: workspace.path.as_str(),
                    head_sha: workspace.head_sha.as_str(),
                },
            ),
            None => None,
        }
    }

    /// The limits the catalog gives for the active model: what it answers with and what it reads.
    pub open spec fn model_limits(&self) -> (Option<u64>, Option<u64>) {
        match (self.active_model, self.catalog) {
            (Some(resolved), Some(state)) => match state.entry(
                resolved.provider@,
                resolved.model@,
            ) {
                Some(model) => (model.output_limit, model.context_limit),
                None => (None, None),
            },
            _ => (None, None),
        }
    }

    /// The limits the catalog gives for the active model.
    pub fn limits(&self) -> (r: (Option<u64>, Option<u64>))
        ensures
            r == self.model_limits(),
    {
        match (&self.active_model, &self.catalog) {
            (Some(resolved), Some(state)) => match state.model(
                resolved.provider.as_str(),
                resolved.model.as_str(),
            ) {
                Some(model) => (model.output_limit, model.context_limit),
                None => (None, None),
            },
            _ => (None, None),
        }
    }

    /// Whether a request is what an analysis started now would send.
    pub open spec fn requests(&self, request: AnalysisRequest<'_>, secret: String) -> bool {
        &&& self.describes(request.key)
        &&& Some(*request.selection) == self.active_model
        &&& request.secret == secret
        &&& (request.output_limit, request.context_limit) == self.model_limits()
        &&& request.max_context_tokens == self.config.max_context_tokens
        &&& request.max_file_bytes == self.config.max_file_bytes
        &&& Some(*request.detail) == self.detail
        &&& match request.patch {
            Some(patch) => self.review is Some && *patch == self.review->0.patch,
            None => self.review is None,
        }
        &&& match request.checkout {
            Some(checkout) => self.worktree_ready() && checkout.path@
                == self.workspace->0.path@ && checkout.head_sha@
                == self.workspace->0.head_sha@,
            None => !self.worktree_ready(),
        }
    }

    /// Builds the request an analysis would send, given the provider's key.
    ///
    /// `None` when there is nothing to analyse or nobody to ask.
    #[must_use]
    pub fn analysis_request(&self, secret: Option<String>) -> (r: Option<AnalysisRequest<'_>>)
        ensures
            r is Some <==> self.detail is Some && self.environment is Some && self.active_model is Some
                && secret is Some,
            r matches Some(request) ==> self.requests(request, secret->0),
    {
        let detail = match &self.detail {
            Some(detail) => detail,
            None => {
                return None;
            },
        };
        let key = match self.analysis_key() {
            Some(key) => key,
            None => {
                return None;
            },
        };
        let selection = match &self.active_model {
            Some(selection) => selection,
            None => {
                return None;
            },
        };
        let secret = match secret {
            Some(secret) => secret,
            None => {
                return None;
            },
        };
        let (output_limit, context_limit) = self.limits();
        Some(
            AnalysisRequest {
                key,
                selection,
                secret,
                output_limit,
                context_limit,
                max_context_tokens: self.config.max_context_tokens,
                max_file_bytes: self.config.max_file_bytes,
                detail,
                patch: match &self.review {
                    Some(view) => Some(&view.patch),
                    None => None,
                },
                checkout: self.checkout(),
            },
        )
    }

    /// The model and the key to ask whether it works, given the provider's key.
    #[must_use]
    pub fn check_request(&self, secret: Option<String>) -> (r: Option<(&ResolvedSelection, String)>)
        ensures
            match r {
                Some((selection, key)) => self.active_model == Some(*selection) && secret == Some(
                    key,
                ),
                None => self.active_model is None || secret is None,
            },
    {
        match (&self.active_model, secret) {
            (Some(selection), Some(key)) => Some((selection, key)),
            _ => None,
        }
    }

    /// Whether a gathered context was handed out, for the commit it was gathered for.
    pub open spec fn bundle_taken(&self, before: &App, r: Option<Bundle>) -> bool {
        &&& if before.on_screen() is Some && App::marked_for(before.panel.bundle_for)
            == before.on_screen() {
            &&& r == before.panel.bundle
            &&& *self == (App {
                panel: PanelState { bundle: None, ..before.panel },
                ..*before
            })
        } else {
            &&& r is None
            &&& *self == (App {
                panel: PanelState { bundle: None, bundle_for: None, ..before.panel },
                ..*before
            })
        }
    }

    /// Takes the gathered context when it belongs to the pull request on screen.
    ///
    /// One that was gathered for another commit or another pull request is dropped rather than
    /// sent.
    pub fn take_context_bundle_for_current_head(&mut self) -> (r: Option<Bundle>)
        ensures
            final(self).bundle_taken(old(self), r),
    {
        let matching: bool = match (&self.panel.bundle_for, &self.detail) {
            (Some((number, head)), Some(detail)) => *number == detail.summary.number && same(
                head.as_str(),
                detail.summary.head_sha.as_str(),
            ),
            _ => false,
        };
        self.panel.take_bundle(matching)
    }

    /// Whether a run was begun, with nothing of an earlier one left on screen.
    pub open spec fn analysis_begun(&self, before: &App) -> bool {
        &&& *self == (App {
            panel: PanelState {
                stream: self.panel.stream,
                raw: None,
                state: self.panel.state,
                ..before.panel
            },
            ..before.overlay_opened(Overlay::Analysis)
        })
        &&& self.panel.stream@ == (Seq::<char>::empty(), false)
        &&& self.panel.state is Running
        &&& self.panel.state.words() == "asking the provider"@
    }

    /// Starts a run: the stream is cleared, the state says so and the panel opens.
    pub fn begin_analysis(&mut self)
        ensures
            final(self).analysis_begun(old(self)),
    {
        self.panel.stream.clear();
        self.panel.raw = None;
        self.panel.state = AnalysisState::Running { stage: "asking the provider".to_owned() };
        let _ = self.open_overlay(Overlay::Analysis);
    }

    /// Whether a run in flight was given up.
    pub open spec fn analysis_stopped(&self, before: &App) -> bool {
        &&& *self == (App {
            panel: PanelState {
                state: if before.panel.state.running() {
                    AnalysisState::Cancelled
                } else {
                    before.panel.state
                },
                ..before.panel
            },
            ..*before
        })
    }

    /// Gives up on a run, keeping whatever text arrived.
    pub fn cancelled_analysis(&mut self)
        ensures
            final(self).analysis_stopped(old(self)),
    {
        if self.panel.state.is_running() {
            self.panel.state = AnalysisState::Cancelled;
        }
    }

    /// Whether nothing is left of an analysis.
    pub open spec fn analysis_forgotten(&self, before: &App) -> bool {
        &&& *self == (App {
            panel: PanelState {
                analysis: None,
                stale: None,
                warnings: self.panel.warnings,
                raw: None,
                stream: self.panel.stream,
                ..before.panel
            },
            ..*before
        })
        &&& self.panel.warnings@.len() == 0
        &&& self.panel.stream@ == (Seq::<char>::empty(), false)
    }

    /// Drops the current analysis so the next run computes it again.
    pub fn forget_analysis(&mut self)
        ensures
            final(self).analysis_forgotten(old(self)),
    {
        self.panel.analysis = None;
        self.panel.stale = None;
        self.panel.warnings = Vec::new();
        self.panel.raw = None;
        self.panel.stream.clear();
    }

    /// Remembers the job id of a stored-analysis read.
    pub fn record_stored_job(&mut self, id: u64)
        ensures
            *final(self) == (App {
                panel: PanelState { stored_job: id, ..old(self).panel },
                ..*old(self)
            }),
    {
        self.panel.stored_job = id;
    }

    /// Remembers the job id of a context gather.
    pub fn record_context_job(&mut self, id: u64)
        ensures
            *final(self) == (App {
                panel: PanelState { context_job: id, ..old(self).panel },
                ..*old(self)
            }),
    {
        self.panel.context_job = id;
    }

    /// Remembers the job id of an analysis run.
    pub fn record_analysis_job(&mut self, id: u64)
        ensures
            *final(self) == (App {
                panel: PanelState { job: id, ..old(self).panel },
                ..*old(self)
            }),
    {
        self.panel.job = id;
    }

    /// What the analysis is doing.
    #[must_use]
    pub fn analysis_state(&self) -> (r: &AnalysisState)
        ensures
            *r == self.panel.state,
    {
        &self.panel.state
    }

    /// The text that has streamed in so far.
    #[must_use]
    pub fn analysis_stream(&self) -> (r: &str)
        ensures
            r@ == self.panel.stream@.0,
    {
        self.panel.stream.text()
    }

    /// Whether the streamed preview was cut short.
    #[must_use]
    pub fn analysis_stream_truncated(&self) -> (r: bool)
        ensures
            r == self.panel.stream@.1,
    {
        self.panel.stream.is_truncated()
    }

    /// Whether the stored analysis needed a second attempt.
    #[must_use]
    pub fn analysis_repaired(&self) -> (r: bool)
        ensures
            r == match self.panel.analysis {
                Some(stored) => stored.repaired,
                None => false,
            },
    {
        match &self.panel.analysis {
            Some(stored) => stored.repaired,
            None => false,
        }
    }

    /// What was corrected while normalizing the analysis.
    #[must_use]
    pub fn analysis_warnings(&self) -> (r: &Vec<String>)
        ensures
            *r == self.panel.warnings,
    {
        &self.panel.warnings
    }

    /// The gathered context, if there is one.
    #[must_use]
    pub fn context_bundle(&self) -> (r: Option<&Bundle>)
        ensures
            match r {
                Some(bundle) => self.panel.bundle == Some(*bundle),
                None => self.panel.bundle is None,
            },
    {
        match &self.panel.bundle {
            Some(bundle) => Some(bundle),
            None => None,
        }
    }

    /// The review plan in force.
    #[must_use]
    pub fn plan(&self) -> (r: Option<&Plan>)
        ensures
            match r {
                Some(plan) => self.panel.plan == Some(*plan),
                None => self.panel.plan is None,
            },
    {
        match &self.panel.plan {
            Some(plan) => Some(plan),
            None => None,
        }
    }

    /// The review plan, for editing.
    pub fn plan_mut(&mut self) -> (r: Option<&mut Plan>)
        ensures
            match r {
                Some(plan) => old(self).panel.plan == Some(*plan) && *final(self) == (App {
                    panel: PanelState { plan: Some(*final(plan)), ..old(self).panel },
                    ..*old(self)
                }),
                None => old(self).panel.plan is None && *final(self) == *old(self),
            },
    {
        self.panel.plan.as_mut()
    }

    /// What the analysis said about the file under the cursor.
    pub open spec fn note_at_cursor(&self) -> Option<Seq<char>> {
        match (self.panel.analysis, self.review) {
            (Some(stored), Some(view)) => match view.path_at_cursor() {
                Some(path) => match stored.analysis.said_of(path) {
                    Some(note) => note.sentence(),
                    None => None,
                },
                None => None,
            },
            _ => None,
        }
    }

    /// What the analysis said about the file under the cursor.
    #[must_use]
    pub fn current_file_note(&self) -> (r: Option<String>)
        ensures
            opt_view(r) == self.note_at_cursor(),
    {
        match (&self.panel.analysis, &self.review) {
            (Some(stored), Some(view)) => match view.current_path() {
                Some(path) => match stored.analysis.note(path.as_str()) {
                    Some(note) => note.text(),
                    None => None,
                },
                None => None,
            },
            _ => None,
        }
    }

    /// The group the tree cursor is on, when it is on a group heading.
    #[must_use]
    pub fn selected_plan_group(&self) -> (r: Option<String>)
        ensures
            r == match self.review {
                Some(view) => if view.tree_focused && view.tree_cursor < view.tree@.len() {
                    match view.tree@[view.tree_cursor as int].kind {
                        TreeKind::Group { name, .. } => Some(name),
                        _ => None,
                    }
                } else {
                    None
                },
                None => None,
            },
    {
        match &self.review {
            Some(view) => {
                if !view.tree_focused {
                    return None;
                }
                match view.current_tree_row() {
                    Some(row) => match &row.kind {
                        TreeKind::Group { name, .. } => Some(name.clone()),
                        _ => None,
                    },
                    None => None,
                }
            },
            None => None,
        }
    }

    /// The review order in words.
    pub open spec fn plan_words(&self) -> Seq<char> {
        match self.panel.plan {
            None => "no review plan yet: <leader>a analyses the pull request"@,
            Some(plan) => {
                let recommended = match self.review {
                    Some(view) => view.order == OrderMode::Recommended,
                    None => false,
                };
                let order = if recommended { "recommended"@ } else { "path"@ };
                let steps = joined(
                    plan@.groups.map_values(|group: GroupView| step_words(group)),
                    ", "@,
                );
                order + " order, "@ + steps + " ("@ + plan.source.name() + ")"@
                    + if plan.overridden { "; your manual order is in force"@ } else { ""@ }
            },
        }
    }

    /// One line describing the review order.
    #[must_use]
    pub fn plan_summary(&self) -> (r: String)
        ensures
            r@ == self.plan_words(),
    {
        let plan = match &self.panel.plan {
            Some(plan) => plan,
            None => {
                return "no review plan yet: <leader>a analyses the pull request".to_owned();
            },
        };
        let recommended: bool = match &self.review {
            Some(view) => view.order == OrderMode::Recommended,
            None => false,
        };
        let mut steps: Vec<String> = Vec::new();
        let ghost wanted = plan@.groups.map_values(|group: GroupView| step_words(group));
        let mut i: usize = 0;
        assert(views(steps@) =~= wanted.subrange(0, 0));
        while i < plan.groups.len()
            invariant
                i <= plan.groups@.len(),
                wanted == plan@.groups.map_values(|group: GroupView| step_words(group)),
                views(steps@) == wanted.subrange(0, i as int),
            decreases plan.groups@.len() - i,
        {
            assert(plan@.groups[i as int] == plan.groups@[i as int]@);
            let ghost before = steps@;
            let word = word_step(&plan.groups[i]);
            steps.push(word);
            i += 1;
            assert(views(steps@) =~= views(before).push(word@));
            assert(wanted.subrange(0, i as int) =~= wanted.subrange(0, i - 1).push(wanted[i - 1]));
        }
        assert(wanted.subrange(0, i as int) =~= wanted);
        let mut out = concat5(
            if recommended { "recommended" } else { "path" },
            " order, ",
            join(&steps, ", ").as_str(),
            " (",
            plan.source.label(),
        );
        out.append(")");
        out.append(if plan.overridden { "; your manual order is in force" } else { "" });
        out
    }

    /// The model's unusable answer, with the reason.
    #[must_use]
    pub fn raw_answer(&self) -> (r: Option<&(String, String)>)
        ensures
            match r {
                Some(raw) => self.panel.raw == Some(*raw),
                None => self.panel.raw is None,
            },
    {
        match &self.panel.raw {
            Some(raw) => Some(raw),
            None => None,
        }
    }

    /// The analysis panel's contents.
    #[must_use]
    pub fn analysis_panel(&self) -> (r: Option<&PanelModel>)
        ensures
            match r {
                Some(panel) => self.panel.analysis is Some && *panel
                    == self.panel.analysis->0.analysis.panel,
                None => self.panel.analysis is None,
            },
    {
        match &self.panel.analysis {
            Some(stored) => Some(&stored.analysis.panel),
            None => None,
        }
    }

    /// Where the analysis comes from: `origin`, and the prompt's version where that is another now.
    pub open spec fn provenance(&self, origin: Seq<char>) -> Option<Seq<char>> {
        match self.panel.analysis {
            Some(stored) => Some(
                if stored.analysis.prompt_version == self.prompt_version {
                    origin
                } else {
                    origin + " · made with prompt v"@ + decimal(
                        stored.analysis.prompt_version as nat,
                    ) + " (now v"@ + decimal(self.prompt_version as nat) + ")"@
                },
            ),
            None => None,
        }
    }

    /// The provenance line, given which model made the analysis and when, in words.
    #[must_use]
    pub fn analysis_provenance(&self, origin: &str) -> (r: Option<String>)
        ensures
            opt_view(r) == self.provenance(origin@),
    {
        match &self.panel.analysis {
            Some(stored) => {
                if stored.analysis.prompt_version == self.prompt_version {
                    return Some(origin.to_owned());
                }
                let mut out = concat4(
                    origin,
                    " · made with prompt v",
                    number(stored.analysis.prompt_version as u64).as_str(),
                    " (now v",
                );
                out.append(number(self.prompt_version as u64).as_str());
                out.append(")");
                Some(out)
            },
            None => None,
        }
    }

    /// Whether the analysis is of another commit than the one on screen.
    pub open spec fn is_stale(&self) -> bool {
        match (self.panel.analysis, self.detail) {
            (Some(stored), Some(detail)) => detail.summary.head_sha@ != stored.analysis.head_sha@,
            _ => false,
        }
    }

    /// Whether the analysis on screen describes another commit than the pull request is at.
    #[must_use]
    pub fn analysis_is_stale(&self) -> (r: bool)
        ensures
            r == self.is_stale(),
    {
        match (&self.panel.analysis, &self.detail) {
            (Some(stored), Some(detail)) => !same(
                detail.summary.head_sha.as_str(),
                stored.analysis.head_sha.as_str(),
            ),
            _ => false,
        }
    }
}

} // verus!
