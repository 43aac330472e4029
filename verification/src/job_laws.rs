//! What holds when results arrive: each lands where it was asked for and nowhere else, failures are
//! seen, and nothing is sent before it is agreed to.

use vstd::prelude::*;

use crate::app::{App, DiffSource, Pane};
use crate::app_analysis::{review_planned, AnalysisRequest};
use crate::app_chat::ChatSpec;
use crate::app_jobs::{failure_taken, page_taken, patch_taken};
use crate::effect::{AnalysisIntent, Effect};
use crate::jobs::{AnalysisRun, FetchOutcome, Outcome, Update};
use crate::list_view::PullRequestPage;
use crate::notices::{expiry, lemma_notice_is_there, notice_views, NoticeLevel, NoticeView};
use crate::panel::{note_place, Analysis, Bundle, PanelState, StoredAnalysis};
use crate::patch::{opt_view, Patch};
use crate::plan::{opt_plan, OrderMode, Plan, PlanView};
use crate::stream::streamed;

verus! {

/// Whether something was said, at a level.
pub open spec fn was_said(app: App, level: NoticeLevel, text: Seq<char>, now: u64) -> bool {
    notice_views(app.notices@).contains(NoticeView { level, text, expires: expiry(level, now) })
}

/// A fetched page is what the list shows, offline or not, and says so where it is; its size is
/// asked for exactly when the page may not be all and no total came with it. Nothing else changes.
pub proof fn lemma_a_page_fills_the_list(
    before: App,
    after: App,
    outcome: FetchOutcome<PullRequestPage>,
    r: Option<Effect>,
)
    requires
        page_taken(&before, &after, outcome, r),
    ensures
        after.list.items == outcome.held().items,
        after.list.visible == outcome.held().matches,
        after.list.total == outcome.held().total,
        !after.list.loading,
        after.list.search == before.list.search,
        after.list.stale is Some <==> outcome is Offline,
        r is Some <==> outcome.held().may_have_more && outcome.held().total is None,
        r is Some ==> r == Some(Effect::CountPullRequests),
        after.detail == before.detail,
        after.review == before.review,
        after.chat == before.chat,
        after.panel == before.panel,
{
}

/// A fetched patch is what the review shows, from its top and with nothing folded, and it is said
/// where it came from; a review that was open keeps the focus where it was.
pub proof fn lemma_a_patch_is_shown(
    before: App,
    after: App,
    outcome: FetchOutcome<Patch>,
    source: DiffSource,
)
    requires
        patch_taken(&before, &after, outcome, source),
    ensures
        after.review is Some,
        after.review->0.patch == outcome.held(),
        after.review->0.cursor == 0,
        after.review->0.folded_hunks@.len() == 0,
        after.review->0.inv(),
        after.review->0.context == before.config.context_lines,
        after.diff_source == source,
        after.diff_offline is Some <==> outcome is Offline,
        before.detail is Some ==> !after.diff_loading && after.opening is None,
        before.review is Some ==> after.focus == before.focus && after.mode == before.mode,
        before.review is None && before.detail is Some ==> after.focus == Pane::Diff,
        after.detail == before.detail,
        after.list == before.list,
        after.chat == before.chat,
{
}

/// A failure takes nothing away that was there: the pull requests, the review, the conversation,
/// the analysis and the draft stay.
pub proof fn lemma_a_failure_keeps_what_was_there(before: App, after: App, job: u64, message: Seq<char>)
    requires
        failure_taken(&before, &after, job, message),
    ensures
        after.list.items == before.list.items,
        after.list.visible == before.list.visible,
        after.list.cursor == before.list.cursor,
        after.review == before.review,
        after.detail == before.detail,
        after.chat.session == before.chat.session,
        after.chat.sessions == before.chat.sessions,
        after.chat.input == before.chat.input,
        after.panel == before.panel,
        after.catalog == before.catalog,
        after.state == before.state,
{
}

/// A failure is seen where it belongs: that of the list in the list, that of the question in the
/// chat pane, and any other as a notice; only a count and a conversation list that could not be
/// read say nothing. What failed is no longer waited for.
pub proof fn lemma_a_failure_is_seen(before: App, after: App, job: u64, message: Seq<char>)
    requires
        failure_taken(&before, &after, job, message),
    ensures
        job == before.chat.job ==> after.chat.status is Failed && after.chat.pending is None && was_said(
            after,
            NoticeLevel::Error,
            "the question failed: "@ + message,
            before.clock_ms,
        ),
        job == before.list_job && job != before.chat.job && job != before.chat.load_job ==> opt_view(
            after.list.error,
        ) == Some(message) && !after.list.loading && !after.list.counting,
        job != before.chat.job && job != before.chat.load_job && job != before.list_job && (job
            == before.detail_job || job == before.patch_job) ==> !after.diff_loading
            && after.opening is None && was_said(
            after,
            NoticeLevel::Error,
            "could not open it: "@ + message,
            before.clock_ms,
        ),
        !before.is_newest(job) ==> was_said(after, NoticeLevel::Error, message, before.clock_ms),
{
    let queue = notice_views(before.notices@);
    lemma_notice_is_there(queue, NoticeLevel::Error, "the question failed: "@ + message, before.clock_ms);
    lemma_notice_is_there(queue, NoticeLevel::Error, "could not open it: "@ + message, before.clock_ms);
    lemma_notice_is_there(queue, NoticeLevel::Error, message, before.clock_ms);
}

/// Nothing is sent for an analysis before it is agreed to: a gathered context goes out exactly when
/// it was gathered to be sent, or to say how large it is where this repository agreed before; to be
/// looked at, it never does. Either way it is kept, for the commit on screen.
pub proof fn lemma_a_context_is_sent_only_when_agreed_to(
    before: App,
    after: App,
    bundle: Bundle,
    intent: AnalysisIntent,
    r: Option<Effect>,
)
    requires
        after.context_taken(&before, bundle, intent, r),
    ensures
        r is Some <==> intent is Run || (intent is Estimate && before.opted_in()),
        r is Some ==> r == Some(Effect::RunAnalysis { force: false }),
        after.panel.bundle == Some(bundle),
        App::marked_for(after.panel.bundle_for) == before.on_screen(),
        after.panel.analysis == before.panel.analysis,
        after.panel.plan == before.panel.plan,
        after.state == before.state,
        after.panel.state is Confirming <==> intent is Estimate && !before.opted_in(),
{
}

/// A finished run is the current analysis, under what was asked; one that could not be used, or
/// that was stopped, leaves the analysis and the order that were there, and what could not be used
/// is kept to be looked at.
pub proof fn lemma_only_a_finished_run_replaces_the_analysis(before: App, after: App, run: AnalysisRun)
    requires
        after.run_taken(&before, run),
    ensures
        run is Ready ==> {
            &&& after.panel.analysis is Some
            &&& after.panel.analysis->0.analysis == run->Ready_0.analysis
            &&& after.panel.analysis->0.stored_at == before.now_unix_secs
            &&& before.keyed(after.panel.analysis->0.key)
            &&& after.panel.state is Ready
            &&& after.panel.stale is None
            &&& after.panel.warnings@ == run->Ready_0.warnings@
        },
        !(run is Ready) ==> {
            &&& after.panel.analysis == before.panel.analysis
            &&& after.panel.plan == before.panel.plan
            &&& after.review == before.review
            &&& after.panel.stream == before.panel.stream
        },
        run is Unparsed ==> after.panel.raw == Some((run->reason, run->raw))
            && after.panel.state is Unusable,
        run is Cancelled ==> after.panel.state is Cancelled && after.panel.raw == before.panel.raw,
        after.chat == before.chat,
        after.detail == before.detail,
{
    match run {
        AnalysisRun::Ready(ready) => {
            let (between, stored) = choose|between: App, stored: StoredAnalysis|
                #![trigger between.adopted(&before, stored)]
                between.adopted(&before, stored) && before.records(stored, ready) && {
                    &&& after == (App { notices: after.notices, ..between })
                    &&& after.notices_after(
                        &between,
                        NoticeLevel::Info,
                        before.done_words(ready.usage, ready.repaired),
                    )
                };
            assert(between.panel.holds(&before.panel, stored));
        },
        _ => {},
    }
}

/// An analysis of an older commit is offered and never taken as the current one; one of this commit
/// is used without asking.
pub proof fn lemma_an_older_analysis_is_only_offered(
    before: App,
    after: App,
    current: Option<StoredAnalysis>,
    stale: Option<StoredAnalysis>,
    age: Seq<char>,
)
    requires
        after.stored_taken(&before, current, stale, age),
    ensures
        current is Some ==> after.panel.analysis == current && after.panel.stale is None,
        current is None && stale is Some ==> after.panel.analysis is None && after.panel.stale == stale
            && after.panel.plan == before.panel.plan && after.review == before.review,
        current is None && stale is None ==> after.panel.analysis == before.panel.analysis
            && after.panel.stale is None && after.notices == before.notices,
{
}

/// A saved order is used exactly when it is of the commit the analysis describes, and the review is
/// then read in it; any other leaves the order that is in force.
pub proof fn lemma_a_saved_order_is_of_this_commit(before: App, after: App, plan: Option<Plan>)
    requires
        after.saved_plan_taken(&before, plan),
    ensures
        plan is Some && before.analysed_head() == Some(plan->0.head_sha@) ==> {
            &&& after.panel.plan == plan
            &&& before.review is Some ==> after.review is Some && opt_plan(after.review->0.plan)
                == Some(plan->0@) && after.review->0.order == OrderMode::Recommended
        },
        plan is None || before.analysed_head() != Some(plan->0.head_sha@) ==> after.panel == before.panel
            && after.review == before.review,
        after.panel.analysis == before.panel.analysis,
{
}

/// An order made by hand for the commit that was analysed outlives the analysis; any other gives
/// way to the one that the analysis recommends.
pub proof fn lemma_a_manual_order_outlives_an_analysis(before: PanelState, after: PanelState, stored: StoredAnalysis)
    requires
        after.holds(&before, stored),
    ensures
        before.plan is Some && before.plan->0.overridden && before.plan->0.head_sha@
            == stored.analysis.head_sha@ ==> opt_plan(after.plan) == opt_plan(before.plan),
        before.plan is None || !before.plan->0.overridden || before.plan->0.head_sha@
            != stored.analysis.head_sha@ ==> opt_plan(after.plan) == Some(stored.analysis.plan@),
        after.analysis == Some(stored),
        after.state is Ready,
        after.stream@.0.len() == 0,
        after.raw is None,
        after.bundle == before.bundle,
{
}

/// A plan is put into the review without moving what is read: the rows, the cursor and the folds
/// stay.
pub proof fn lemma_a_plan_leaves_the_diff_alone(
    before: App,
    after: App,
    plan: Option<PlanView>,
)
    requires
        before.review is Some,
        review_planned(before.review, after.review, plan),
    ensures
        after.review is Some,
        after.review->0.rows == before.review->0.rows,
        after.review->0.cursor == before.review->0.cursor,
        after.review->0.folded_hunks == before.review->0.folded_hunks,
        after.review->0.folded_dirs == before.review->0.folded_dirs,
        after.review->0.patch == before.review->0.patch,
        opt_plan(after.review->0.plan) == plan,
        plan is Some ==> after.review->0.order == OrderMode::Recommended,
        plan is None ==> after.review->0.order == before.review->0.order,
{
}

/// What is asked for is about what is on screen: the pull request and commit, the patch that is
/// shown, the model in use, and the files of a worktree only where it is at that commit.
pub proof fn lemma_an_analysis_is_of_what_is_on_screen(app: App, request: AnalysisRequest<'_>, secret: String)
    requires
        app.detail is Some,
        app.environment is Some,
        app.active_model is Some,
        app.requests(request, secret),
    ensures
        app.on_screen() == Some((request.key.pr, request.key.head_sha@)),
        request.key.repo@ == app.environment->0.repo_key@,
        request.key.provider@ == request.selection.provider@,
        request.key.model@ == request.selection.model@,
        request.detail.summary.number == request.key.pr,
        request.secret == secret,
        app.review is Some ==> request.patch is Some && *request.patch->0 == app.review->0.patch,
        app.review is None ==> request.patch is None,
        request.checkout is Some ==> app.workspace is Some && request.checkout->0.path@
            == app.workspace->0.path@ && request.checkout->0.head_sha@ == request.key.head_sha@,
        app.workspace is Some && app.workspace->0.head_sha@ == request.key.head_sha@
            ==> request.checkout is Some,
        request.max_context_tokens == app.config.max_context_tokens,
        request.max_file_bytes == app.config.max_file_bytes,
{
}

/// A question is about what is on screen, as an analysis is, and takes along every file that was
/// added to the context.
pub proof fn lemma_a_question_is_about_what_is_on_screen(app: App, spec: ChatSpec<'_>, secret: String)
    requires
        app.detail is Some,
        app.environment is Some,
        app.active_model is Some,
        app.asks(spec, secret),
    ensures
        app.on_screen() == Some((spec.pr, spec.head_sha@)),
        spec.repo@ == app.environment->0.repo_key@,
        spec.detail.summary.number == spec.pr,
        *spec.selection == app.active_model->0,
        spec.secret == secret,
        app.review is Some ==> spec.patch is Some && *spec.patch->0 == app.review->0.patch,
        app.review is None ==> spec.patch is None,
        spec.checkout is Some ==> app.workspace is Some && spec.checkout->0.path@
            == app.workspace->0.path@ && spec.checkout->0.head_sha@ == spec.head_sha@,
        app.workspace is Some && app.workspace->0.head_sha@ == spec.head_sha@ ==> spec.checkout is Some,
        spec.added@.len() == app.chat.added@.len(),
        forall|i: int| 0 <= i < spec.added@.len() ==> #[trigger] spec.added@[i] == app.chat.added@[i],
        spec.max_context_tokens == app.config.max_context_tokens,
        spec.max_file_bytes == app.config.max_file_bytes,
{
}

/// Text that arrives is added behind what has arrived, and the panel then shows that it streams;
/// news of a stage changes no text.
pub proof fn lemma_news_adds_to_the_stream(before: App, after: App, update: Update)
    requires
        after.panel_told(&before.panel, update),
    ensures
        update is Stage ==> after.panel.stream == before.panel.stream,
        update is Delta ==> after.panel.stream@ == streamed(before.panel.stream@, update->Delta_0@)
            && after.panel.state is Streaming,
        update is Stage ==> (after.panel.state is Streaming <==> before.panel.stream@.0.len() > 0),
        after.panel.analysis == before.panel.analysis,
        after.panel.plan == before.panel.plan,
        after.panel.job == before.panel.job,
{
}

/// The same of the chat pane: text is added to the answer in flight, never to what was said.
pub proof fn lemma_news_adds_to_the_answer(before: App, after: App, update: Update)
    requires
        after.chat_told(&before.chat, update),
    ensures
        update is Stage ==> after.chat.stream == before.chat.stream && after.chat.scroll
            == before.chat.scroll,
        update is Delta ==> after.chat.stream@ == streamed(before.chat.stream@, update->Delta_0@)
            && after.chat.status is Streaming && after.chat.scroll == 0,
        update is Stage ==> (after.chat.status is Streaming <==> before.chat.stream@.0.len() > 0),
        after.chat.session == before.chat.session,
        after.chat.pending == before.chat.pending,
        after.chat.input == before.chat.input,
        after.chat.job == before.chat.job,
{
}

/// What an analysis says of a file is its first note about that path.
pub proof fn lemma_a_note_is_about_its_file(analysis: Analysis, path: Seq<char>, at: nat)
    ensures
        analysis.said_of(path) is Some ==> analysis.said_of(path)->0.path@ == path,
        at < analysis.notes@.len() && analysis.notes@[at as int].path@ == path && (forall|k: int|
            0 <= k < at ==> (#[trigger] analysis.notes@[k]).path@ != path) ==> analysis.said_of(path)
            == Some(analysis.notes@[at as int]),
        analysis.said_of(path) is None <==> forall|k: int|
            0 <= k < analysis.notes@.len() ==> (#[trigger] analysis.notes@[k]).path@ != path,
{
    lemma_note_place(analysis, path, 0);
}

proof fn lemma_note_place(analysis: Analysis, path: Seq<char>, from: nat)
    requires
        forall|k: int| 0 <= k < from && k < analysis.notes@.len() ==> (#[trigger] analysis.notes@[k]).path@ != path,
    ensures
        match note_place(analysis.notes@, path, from) {
            Some(i) => {
                &&& i < analysis.notes@.len()
                &&& analysis.notes@[i as int].path@ == path
                &&& forall|k: int| 0 <= k < i ==> (#[trigger] analysis.notes@[k]).path@ != path
            },
            None => forall|k: int|
                0 <= k < analysis.notes@.len() ==> (#[trigger] analysis.notes@[k]).path@ != path,
        },
    decreases analysis.notes@.len() - from,
{
    if from < analysis.notes@.len() && analysis.notes@[from as int].path@ != path {
        lemma_note_place(analysis, path, from + 1);
    }
}

/// An analysis is called stale exactly when the commit on screen is another than the one it
/// describes.
pub proof fn lemma_stale_means_another_commit(app: App)
    ensures
        app.is_stale() <==> app.panel.analysis is Some && app.detail is Some
            && app.panel.analysis->0.analysis.head_sha@ != app.detail->0.summary.head_sha@,
        app.is_stale() ==> app.analysed_head() != Some(app.detail->0.summary.head_sha@),
{
}

/// What was waited for lands: the environment, and then the list is asked for; the count; the detail and the
/// worktree, and then the diff is read again; the report.
pub proof fn lemma_what_was_waited_for_lands(
    before: App,
    after: App,
    job: u64,
    outcome: Outcome,
    r: Option<Effect>,
)
    requires
        before.awaits(job, outcome),
        after.completed(&before, job, outcome, r),
    ensures
        outcome is Environment ==> after.environment == Some(outcome->Environment_0)
            && !after.environment_running && r == Some(Effect::LoadPullRequests),
        outcome is EnvironmentFailed ==> after.environment_error == Some(outcome->EnvironmentFailed_0)
            && after.environment == before.environment && r is None,
        outcome is CachedPage ==> after.list.items == outcome->page.items && after.list.loading
            && after.list.stale is Some && r is None,
        outcome is Count ==> after.list.total == Some(outcome->Count_0) && !after.list.counting
            && after.list.items == before.list.items,
        outcome is Detail ==> after.detail == Some(outcome->Detail_0.held()) && r == Some(
            Effect::ReloadDiff,
        ) && after.review == before.review,
        outcome is Workspace ==> after.workspace == Some(outcome->Workspace_0) && r == Some(
            Effect::ReloadDiff,
        ),
        outcome is Checks ==> after.checks == outcome->Checks_0 && !after.doctor_running,
        outcome is ChatLoaded ==> after.chat.sessions == outcome->sessions,
        outcome is ChatLoaded && outcome->ChatLoaded_session is None ==> after.chat.session
            == before.chat.session,
        outcome is ChatLoaded && outcome->ChatLoaded_session is Some ==> after.chat.session
            == outcome->ChatLoaded_session,
{
}

} // verus!
