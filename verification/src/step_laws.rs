//! What holds from one step to the next: what a step keeps, what it takes away, and what it says.

use vstd::prelude::*;

use crate::app::{App, Overlay, Pane};
use crate::app_overlay::LoadedTheme;
use crate::chat_laws::lemma_taking_a_file_out_undoes_adding_it;
use crate::chat::ChatState;
use crate::diff_view::{lemma_a_jump_lands_on_the_nearest, lemma_jumped, lemma_tree_place, DiffView};
use crate::draft::{Decision, DraftComment, DraftError};
use crate::drafts::{range_refusal, Anchor, DraftState, TargetView};
use crate::effect::Effect;
use crate::jobs::Progress;
use crate::model_picker::Step;
use crate::panel::Bundle;
use crate::patch::opt_view;
use crate::plan::{OrderMode, Plan};
use crate::pr::PullRequestDetail;
use crate::rows::{row_views, RowKind};
use crate::session::{Message, Session};
use crate::strings::{trimmed, views};
use crate::tree::{tree_views, KindView};

verus! {

/// A theme that loads is in force under the name it was asked for by, and that name is written
/// down; one that does not load changes neither what is in force nor what is written down.
pub proof fn lemma_only_a_theme_that_loads_is_in_force(
    before: App,
    after: App,
    name: &str,
    loaded: Result<LoadedTheme, String>,
    r: Effect,
)
    requires
        after.theme_set(&before, name, loaded, r),
    ensures
        r is SaveState <==> loaded is Ok,
        loaded is Ok ==> after.theme == loaded->Ok_0.theme && after.theme_source == loaded->Ok_0.source
            && after.theme_request@ == name@ && opt_view(after.state.theme) == Some(name@),
        loaded is Err ==> after.theme == before.theme && after.theme_request == before.theme_request
            && after.state == before.state,
        after.overlay == before.overlay,
        after.review == before.review,
{
}

/// Reading the theme again changes how it looks and not which one it is.
pub proof fn lemma_reading_a_theme_again_keeps_its_name(
    before: App,
    after: App,
    loaded: Result<LoadedTheme, String>,
)
    requires
        after.theme_reloaded(&before, loaded),
    ensures
        after.theme_request == before.theme_request,
        after.state == before.state,
        loaded is Ok ==> after.theme == loaded->Ok_0.theme,
        loaded is Err ==> after.theme == before.theme && after.theme_source == before.theme_source,
{
}

/// Agreement to send is written down for this repository and taken back for none.
pub proof fn lemma_agreement_is_written_down(before: App, after: App, at: int)
    requires
        after.agreed_to(&before),
        before.environment is Some,
    ensures
        after.opted_in(),
        after.state_dirty,
        0 <= at < before.state.analysis_opt_in@.len() ==> at < after.state.analysis_opt_in@.len() && views(
            after.state.analysis_opt_in@,
        )[at] == before.state.analysis_opt_in@[at]@,
        after.state.analysis_opt_in@.len() <= before.state.analysis_opt_in@.len() + 1,
        before.opted_in() ==> after.state.analysis_opt_in@.len() == before.state.analysis_opt_in@.len(),
        after.panel.analysis == before.panel.analysis,
{
    assert(views(before.state.analysis_opt_in@).len() == before.state.analysis_opt_in@.len());
    assert(views(after.state.analysis_opt_in@).len() == after.state.analysis_opt_in@.len());
}

/// A context is handed out only for the commit it was gathered for, and only once.
pub proof fn lemma_a_context_is_handed_out_once(before: App, after: App, r: Option<Bundle>)
    requires
        after.bundle_taken(&before, r),
    ensures
        r is Some ==> r == before.panel.bundle && App::marked_for(before.panel.bundle_for)
            == before.on_screen(),
        before.panel.bundle is Some && before.on_screen() is Some && App::marked_for(
            before.panel.bundle_for,
        ) == before.on_screen() ==> r is Some,
        after.panel.bundle is None,
        after.panel.analysis == before.panel.analysis,
        after.chat == before.chat,
{
}

/// The same of the context of a question, which stays where it is not for the commit on screen.
pub proof fn lemma_a_questions_context_is_handed_out_once(before: App, after: App, r: Option<Bundle>)
    requires
        after.chat_bundle_taken(&before, r),
    ensures
        r is Some ==> r == before.chat_bundle && App::marked_for(before.chat_bundle_for)
            == before.on_screen() && after.chat_bundle is None,
        r is None && before.chat_bundle is Some ==> App::marked_for(before.chat_bundle_for)
            != before.on_screen() || before.on_screen() is None,
        r is None && before.chat_bundle is Some ==> after == before,
        after.chat == before.chat,
{
}

/// News reaches the pane that waits for it and no other; news for a job that nobody waits for
/// changes nothing.
pub proof fn lemma_news_reaches_the_pane_that_waits(before: App, after: App, progress: Progress)
    requires
        after.progressed(&before, progress),
    ensures
        progress.job != before.chat.job && progress.job != before.panel.job ==> after == before,
        progress.update is Analysis ==> after.chat == before.chat,
        progress.update is Chat ==> after.panel == before.panel,
        progress.job == before.chat.job && progress.update is Chat ==> after.chat_told(
            &before.chat,
            progress.update->Chat_0,
        ),
        progress.job == before.panel.job && progress.job != before.chat.job
            && progress.update is Analysis ==> after.panel_told(
            &before.panel,
            progress.update->Analysis_0,
        ),
        after.review == before.review,
        after.list == before.list,
{
}

/// A run begins with nothing of an earlier answer on screen, and giving one up keeps what arrived;
/// neither takes the analysis away that there is.
pub proof fn lemma_a_run_starts_afresh_and_stops_with_what_it_has(before: App, begun: App, stopped: App)
    requires
        begun.analysis_begun(&before),
        stopped.analysis_stopped(&begun),
    ensures
        begun.panel.stream@.0.len() == 0,
        begun.panel.raw is None,
        begun.panel.state.running(),
        begun.panel.analysis == before.panel.analysis,
        begun.panel.plan == before.panel.plan,
        begun.overlay == Overlay::Analysis,
        stopped.panel.state is Cancelled,
        stopped.panel.stream == begun.panel.stream,
        stopped.panel.analysis == before.panel.analysis,
{
}

/// Forgetting an analysis leaves nothing of it but the order it was read in.
pub proof fn lemma_forgetting_an_analysis_keeps_the_order(before: App, after: App)
    requires
        after.analysis_forgotten(&before),
    ensures
        after.panel.analysis is None,
        after.panel.stale is None,
        after.panel.raw is None,
        after.panel.warnings@.len() == 0,
        after.panel.stream@.0.len() == 0,
        after.panel.plan == before.panel.plan,
        after.review == before.review,
        !after.is_stale(),
{
}

/// A fresh conversation has nothing said in it, and takes none of the stored ones away.
pub proof fn lemma_a_fresh_conversation_keeps_the_others(before: App, after: App)
    requires
        after.chat_begun(&before),
    ensures
        after.chat.session is None,
        after.chat.pending is None,
        after.chat.stream@.0.len() == 0,
        after.chat.sessions == before.chat.sessions,
        after.chat.open,
        after.chat_bundle is None,
        after.chat.stored_count() == 0,
        views(after.chat.added@) == before.remembered_files(),
{
}

/// The added files are remembered for the open pull request: what is read back is what was written.
pub proof fn lemma_remembered_files_are_read_back(before: App, after: App)
    requires
        after.files_remembered(&before),
        before.files_key() is Some,
    ensures
        after.remembered_files() == views(before.chat.added@),
        after.chat == before.chat,
{
}

/// A file that is refused is not added, and a refusal says why; one that is added is in the
/// context.
pub proof fn lemma_a_refused_file_is_not_added(
    before: App,
    after: App,
    path: &str,
    secret: bool,
    at_head: bool,
    r: Result<String, String>,
)
    requires
        after.file_added(&before, path, secret, at_head, r),
    ensures
        secret ==> r is Err,
        r is Err ==> after == before,
        r is Ok ==> views(after.chat.added@).contains(trimmed(path@)),
        after.chat.session == before.chat.session,
        after.state == before.state,
{
    if r is Ok {
        lemma_taking_a_file_out_undoes_adding_it(
            before,
            trimmed(path@),
            0,
        );
    }
}

/// A job is waited for in the slot of what was asked for, and the other slots wait for what they
/// did.
pub proof fn lemma_a_job_is_waited_for_in_its_slot(before: App, after: App, effect: Effect, id: u64)
    requires
        after.job_recorded(&before, &effect, id),
    ensures
        effect is LoadPullRequests || effect is LoadMore ==> after.list_job == id && after.list.loading
            && after.list.error is None,
        effect is CountPullRequests ==> after.count_job == id && after.list.counting,
        effect is OpenPullRequest ==> after.detail_job == id && after.diff_loading && after.opening is Some
            && after.opening->0.number == effect->OpenPullRequest_0,
        effect is RunDoctor ==> after.doctor_job == id,
        effect is DetectEnvironment ==> after.environment_job == id,
        !(effect is LoadPullRequests) && !(effect is LoadMore) ==> after.list_job == before.list_job,
        !(effect is OpenPullRequest) ==> after.detail_job == before.detail_job && after.opening
            == before.opening,
        !(effect is CountPullRequests) ==> after.count_job == before.count_job,
        after.list.items == before.list.items,
        after.chat == before.chat,
        after.panel == before.panel,
        after.patch_job == before.patch_job,
{
}

/// Opening a review shows it and moves the focus there unless one was open; closing it leads back
/// to the list, which is as it was.
pub proof fn lemma_closing_a_review_leads_back_to_the_list(
    before: App,
    opened: App,
    closed: App,
    detail: PullRequestDetail,
    view: DiffView,
    r: bool,
)
    requires
        opened.review_opened(&before, detail, view),
        closed.review_closed(&opened, r),
    ensures
        opened.review == Some(view),
        opened.detail == Some(detail),
        before.review is None ==> opened.focus == Pane::Diff,
        before.review is Some ==> opened.focus == before.focus && opened.mode == before.mode,
        !opened.diff_loading,
        opened.opening is None,
        r,
        closed.review is None,
        closed.detail is None,
        closed.focus == Pane::PullRequests,
        closed.list == before.list,
        closed.chat == before.chat,
{
}

/// Cancelling waits for nothing any more and takes nothing away that has arrived.
pub proof fn lemma_cancelling_keeps_what_arrived(before: App, after: App)
    requires
        after.loading_cancelled(&before),
    ensures
        !after.list.loading,
        !after.list.counting,
        !after.diff_loading,
        !after.environment_running,
        after.opening is None,
        after.list.items == before.list.items,
        after.list.visible == before.list.visible,
        after.review == before.review,
        after.detail == before.detail,
{
}

/// Taking a staged comment out by its number takes out that one, hands it over, and marks the draft
/// as changed; a number that no comment has changes nothing.
pub proof fn lemma_a_comment_is_taken_out_by_its_number(
    before: DraftState,
    after: DraftState,
    number: usize,
    now: i64,
    r: Option<DraftComment>,
    k: int,
)
    requires
        after.comment_removed(&before, number, now, r),
    ensures
        r is Some <==> 1 <= number <= before.draft@.comments.len(),
        r is None ==> after == before,
        r is Some ==> {
            &&& r->0@ == before.draft@.comments[number - 1]
            &&& after.draft@.comments.len() == before.draft@.comments.len() - 1
            &&& 0 <= k < number - 1 ==> after.draft@.comments[k] == before.draft@.comments[k]
            &&& number <= k < before.draft@.comments.len() ==> after.draft@.comments[k - 1]
                == before.draft@.comments[k]
            &&& after.dirty
            &&& after.cursor_fits()
        },
        after.composer == before.composer,
{
}

/// A composer for a range covers both ends, whichever was marked first; where one range cannot hold
/// both, it is refused, and the composer is for the end alone and says so.
pub proof fn lemma_a_range_covers_both_ends(
    before: DraftState,
    after: DraftState,
    start: Anchor,
    end: Anchor,
    r: Result<(), String>,
)
    requires
        after.range_composed(&before, &start, end, r),
    ensures
        r is Ok <==> start.path@ == end.path@ && start.side == end.side && opt_view(start.head_sha)
            == opt_view(end.head_sha),
        after.composer is Some,
        after.composer->0.target@ is Line,
        r is Ok ==> {
            let range = after.composer->0.target@->Line_0;
            &&& range.path == start.path@
            &&& range.side == start.side
            &&& range.first() <= start@.first() && range.first() <= end@.first()
            &&& start.line <= range.line && end.line <= range.line
        },
        r is Err ==> after.composer->0.target@ == TargetView::Line(end@) && opt_view(
            after.composer->0.refusal,
        ) == Some(range_refusal(start@)),
        after.composer->0.input@.len() == 0,
        after.draft == before.draft,
        after.selection is None,
{
}

/// A posted review takes away exactly what was posted: a draft that was written on since stays as
/// it is. A review that could not be posted takes nothing away.
pub proof fn lemma_a_review_takes_away_only_what_was_posted(
    before: DraftState,
    posted: DraftState,
    refused: DraftState,
    url: Option<&str>,
    now: i64,
    reason: &str,
)
    requires
        posted.review_posted(&before, url, now),
        refused.review_refused(&before, reason),
    ensures
        before.publishing_draft is Some && before.publishing_draft->0@ == before.draft@
            ==> posted.draft@.comments.len() == 0 && posted.draft@.says_nothing() && posted.dirty,
        before.publishing_draft is None || before.publishing_draft->0@ != before.draft@ ==> posted.draft
            == before.draft,
        posted.publishing_draft is None,
        posted.status is Idle,
        !posted.modal,
        refused.draft == before.draft,
        refused.status is Failed,
        refused.status->reason@ == reason@,
        refused.modal == before.modal,
        !refused.armed,
{
}

/// The publish modal opens exactly when there is something to say, unarmed and with nothing of an
/// earlier attempt.
pub proof fn lemma_an_empty_review_is_not_published(
    before: DraftState,
    after: DraftState,
    r: Result<(), DraftError>,
)
    requires
        after.modal_opened(&before, r),
    ensures
        r is Ok <==> !before.draft@.says_nothing(),
        r is Ok ==> after.modal && !after.armed && after.status is Idle && after.scroll == 0,
        r is Err ==> after == before,
        after.draft == before.draft,
{
}

/// The commit a draft was begun at is never replaced by a later one.
pub proof fn lemma_a_draft_keeps_its_first_commit(before: DraftState, after: DraftState, head_sha: &str)
    requires
        after.anchored_to(&before, head_sha),
    ensures
        before.draft@.head_sha is Some ==> after == before,
        before.draft.head_sha is None && head_sha@.len() > 0 ==> after.draft@.head_sha == Some(head_sha@)
            && after.dirty,
        after.draft@.comments == before.draft@.comments,
{
}

/// Another order shows the same diff, with the tree on the same file where it has a row there.
pub proof fn lemma_another_order_shows_the_same_diff(
    before: DiffView,
    after: DiffView,
    order: OrderMode,
    at: int,
)
    requires
        after.reordered(&before, order),
    ensures
        after.order == order,
        after.rows == before.rows,
        after.cursor == before.cursor,
        after.plan == before.plan,
        after.folded_dirs == before.folded_dirs,
        before.order != order && before.file_at_cursor() is Some && 0 <= at < after.tree@.len()
            && after.tree@[at]@.kind == (KindView::File { index: before.file_at_cursor()->0 })
            ==> after.tree_cursor < after.tree@.len() && after.tree@[after.tree_cursor as int]@.kind
            == (KindView::File { index: before.file_at_cursor()->0 }),
{
    if before.order != order && before.file_at_cursor() is Some && 0 <= at < after.tree@.len()
        && after.tree@[at]@.kind == (KindView::File { index: before.file_at_cursor()->0 }) {
        let tree = tree_views(after.tree@);
        let file = before.file_at_cursor()->0;
        assert(after.tree.len() == after.tree@.len());
        assert(tree[at] == after.tree@[at]@);
        lemma_tree_place(tree, file, tree.len());
        let place = before.tree_cursor_on(tree, Some(file)) as int;
        assert(tree[place] == after.tree@[place]@);
    }
}

/// A plan turns the recommended order on, and its absence leaves the order that was chosen.
pub proof fn lemma_a_plan_turns_its_order_on(before: DiffView, after: DiffView, plan: Option<Plan>)
    requires
        after.replanned(&before, plan),
    ensures
        after.plan == plan,
        plan is Some ==> after.order == OrderMode::Recommended,
        plan is None ==> after.order == before.order,
        after.rows == before.rows,
        after.cursor == before.cursor,
{
}

/// A stored key leads on with everything that was chosen kept, and the key itself gone from the
/// picker.
pub proof fn lemma_a_stored_key_is_not_kept(before: App, after: App)
    requires
        after.key_stored(&before),
        before.picker is Some,
    ensures
        after.picker is Some,
        after.picker->0.key_input@.len() == 0,
        after.picker->0.key_present,
        after.picker->0.step == Step::Confirm,
        after.picker->0.provider == before.picker->0.provider,
        after.picker->0.model == before.picker->0.model,
        after.picker->0.thinking == before.picker->0.thinking,
{
}

/// Toggling the order twice leads back to the one there was.
pub proof fn lemma_toggling_the_order_twice_leads_back(before: DiffView, once: DiffView, after: DiffView)
    requires
        once.reordered(&before, before.order.other()),
        after.reordered(&once, once.order.other()),
    ensures
        once.order != before.order,
        after.order == before.order,
        after.rows == before.rows,
        after.cursor == before.cursor,
{
}

/// The key for hunks goes to the nearest hunk on its side and the key for files to the nearest
/// file; each stays where there is none, and moves nothing but the cursor.
pub proof fn lemma_jumping_goes_to_the_nearest(
    before: DiffView,
    by_hunk: DiffView,
    by_file: DiffView,
    forward: bool,
    at: nat,
)
    requires
        before.cursor < before.rows@.len(),
        by_hunk.moved_by_hunk(&before, forward),
        by_file.moved_by_file(&before, forward),
        at < before.rows@.len(),
    ensures
        by_hunk.cursor == before.cursor || before.rows@[by_hunk.cursor as int].kind == RowKind::HunkHeader,
        by_file.cursor == before.cursor || before.rows@[by_file.cursor as int].kind == RowKind::FileHeader,
        before.rows@[at as int].kind == RowKind::HunkHeader && forward && at > before.cursor
            ==> before.cursor < by_hunk.cursor <= at,
        before.rows@[at as int].kind == RowKind::HunkHeader && !forward && at < before.cursor ==> at
            <= by_hunk.cursor < before.cursor,
        before.rows@[at as int].kind == RowKind::FileHeader && forward && at > before.cursor
            ==> before.cursor < by_file.cursor <= at,
        before.rows@[at as int].kind == RowKind::FileHeader && !forward && at < before.cursor ==> at
            <= by_file.cursor < before.cursor,
        by_hunk.rows == before.rows,
        by_file.rows == before.rows,
        by_hunk.scroll == before.scroll,
{
    let rows = row_views(before.rows@);
    let cursor = before.cursor as nat;
    assert(before.rows.len() == before.rows@.len());
    lemma_jumped(rows, RowKind::HunkHeader, cursor, forward);
    lemma_jumped(rows, RowKind::FileHeader, cursor, forward);
    assert(rows[at as int] == before.rows@[at as int]@);
    assert(rows[by_hunk.cursor as int] == before.rows@[by_hunk.cursor as int]@);
    assert(rows[by_file.cursor as int] == before.rows@[by_file.cursor as int]@);
    if before.rows@[at as int].kind == RowKind::HunkHeader {
        lemma_a_jump_lands_on_the_nearest(rows, RowKind::HunkHeader, cursor, at);
    }
    if before.rows@[at as int].kind == RowKind::FileHeader {
        lemma_a_jump_lands_on_the_nearest(rows, RowKind::FileHeader, cursor, at);
    }
}

/// The ends of the diff are its first and its last row, and a page key moves by a page towards its
/// end.
pub proof fn lemma_moving_to_the_ends(
    before: DiffView,
    ended: DiffView,
    paged: DiffView,
    last: bool,
    direction: i32,
    half: bool,
)
    requires
        before.cursor < before.rows@.len(),
        ended.moved_to_end(&before, last),
        paged.moved_by_page(&before, direction, half),
        direction == 1 || direction == -1,
    ensures
        last ==> ended.cursor == before.rows@.len() - 1,
        !last ==> ended.cursor == 0,
        paged.cursor < before.rows@.len(),
        direction == 1 ==> paged.cursor >= before.cursor,
        direction == -1 ==> paged.cursor <= before.cursor,
        direction == 1 && before.cursor + before.page_step(half) < before.rows@.len() ==> paged.cursor
            == before.cursor + before.page_step(half),
        direction == -1 && before.cursor >= before.page_step(half) ==> paged.cursor == before.cursor
            - before.page_step(half),
{
    assert(before.rows.len() == before.rows@.len());
    assert(1 * before.page_step(half) == before.page_step(half));
    assert(-1 * before.page_step(half) == -before.page_step(half));
}

/// What the review says of its own is what was written, and blank words are none; the comments
/// stay.
pub proof fn lemma_a_review_says_what_was_written(
    before: DraftState,
    worded: DraftState,
    decided: DraftState,
    body: &str,
    decision: Option<Decision>,
    now: i64,
)
    requires
        worded.body_set(&before, body, now),
        decided.decided(&before, decision, now),
    ensures
        trimmed(body@).len() > 0 ==> opt_view(worded.draft.body) == Some(body@),
        trimmed(body@).len() == 0 ==> worded.draft.body is None,
        worded.draft.comments == before.draft.comments,
        worded.draft.decision == before.draft.decision,
        worded.dirty,
        decided.draft.decision == decision,
        decided.draft.comments == before.draft.comments,
        decided.draft.body == before.draft.body,
        decided.dirty,
{
}

/// Giving up an answer keeps what arrived of it and all that was said, and still waits for the job
/// that brings it.
pub proof fn lemma_giving_up_an_answer_keeps_what_arrived(before: ChatState, after: ChatState)
    requires
        after.stopped(&before),
    ensures
        after.stream == before.stream,
        after.session == before.session,
        after.job == before.job,
        after.input == before.input,
        after.pending is None,
        !after.status.running(),
        after.draws_answer(),
{
}

/// A message is added behind the others, and the conversation is then as new as it.
pub proof fn lemma_a_message_is_added_behind_the_others(
    before: Session,
    after: Session,
    message: Message,
    now: u64,
    at: int,
)
    requires
        after.said(&before, message, now),
    ensures
        after@.messages.len() == before@.messages.len() + 1,
        after@.messages.last() == message@,
        0 <= at < before@.messages.len() ==> after@.messages[at] == before@.messages[at],
        after@.updated_at == now,
        after@.created_at == before@.created_at,
        after@.id == before@.id,
{
}

} // verus!
