//! Finished jobs: what each result changes, and what it makes necessary next.
//!
//! Every result is held against the id of the newest request it can answer, so one that was
//! superseded, a failure as much as a success, is dropped.

use vstd::prelude::*;

use crate::app::{
    App, DiffSource, Environment, EnvironmentError, Opening, OpeningStage, ResolvedSelection, Workspace,
};
use crate::catalog::CatalogState;
use crate::chat::{ChatState, ChatStatus};
use crate::diff_view::DiffView;
use crate::effect::{AnalysisIntent, Effect};
use crate::jobs::{AnalysisRun, ChatRun, Completion, FetchOutcome, Outcome, PickerSearch};
use crate::list_view::{PrListState, PullRequestPage};
use crate::model_picker::PickerState;
use crate::notices::{notice_views, noticed, NoticeLevel, NoticeView, MAX_NOTICES};
use crate::panel::{Bundle, PanelState, StoredAnalysis};
use crate::patch::{opt_view, Patch};
use crate::plan::Plan;
use crate::pr::PullRequestDetail;
use crate::session::{Estimate, Session, SessionMeta, Usage};
use crate::strings::{concat2, concat3, concat4, concat5, decimal, number, views};
use crate::tree::tree_fits;

verus! {

/// What is said when the environment is known.
pub open spec fn environment_words(environment: Environment) -> Seq<char> {
    "reading "@ + environment.repo_slug@ + " as "@ + match environment.account {
        Some(account) => account@,
        None => "an unknown account"@,
    }
}

/// What is said of a cached page.
pub open spec fn cached_words(age_secs: u64, stale: bool) -> Seq<char> {
    if stale { "cached "@ + decimal(age_secs as nat) + "s ago"@ } else { "cached"@ }
}

/// What is said when a detail arrives.
pub open spec fn opened_words(detail: PullRequestDetail) -> Seq<char> {
    "opened #"@ + decimal(detail.summary.number as nat) + " · "@ + decimal(detail.commits@.len())
        + " commit(s) · "@ + decimal(detail.summary.changed_files as nat) + " file(s)"@
}

/// What is said of the worktrees that were removed.
pub open spec fn cleaned_words(removed: usize, kept: usize, failed: nat) -> Seq<char> {
    let done = "removed "@ + decimal(removed as nat) + " worktree(s), kept "@ + decimal(kept as nat);
    if failed == 0 { done } else { done + "; "@ + decimal(failed) + " could not be removed"@ }
}

/// A list after a page replaced it.
pub open spec fn with_page(list: PrListState, page: PullRequestPage) -> PrListState {
    list.replaced(page)
}

/// Whether a fetched page was taken over, and its count asked for where it is not known.
pub open spec fn page_taken(
    before: &App,
    after: &App,
    outcome: FetchOutcome<PullRequestPage>,
    r: Option<Effect>,
) -> bool {
    let page = outcome.held();
    &&& *after == (App { list: after.list, ..*before })
    &&& after.list == (PrListState { stale: after.list.stale, ..with_page(before.list, page) })
    &&& opt_view(after.list.stale) == if outcome is Offline { Some("offline"@) } else { None }
    &&& r == if page.total is None && page.may_have_more {
        Some(Effect::CountPullRequests)
    } else {
        None
    }
}

/// Whether a fetched detail was taken over.
pub open spec fn detail_taken(
    before: &App,
    after: &App,
    outcome: FetchOutcome<PullRequestDetail>,
) -> bool {
    &&& *after == (App {
        diff_offline: after.diff_offline,
        detail: Some(outcome.held()),
        notices: after.notices,
        ..*before
    })
    &&& opt_view(after.diff_offline) == if outcome is Offline { Some("offline"@) } else { None }
    &&& after.notices_after(before, NoticeLevel::Info, opened_words(outcome.held()))
}

/// What is said when a patch arrives.
pub open spec fn patch_words(label: Seq<char>, source: DiffSource, status: Seq<char>) -> Seq<char> {
    label + " · from the "@ + source.name() + " · "@ + status
}

/// Whether a view of a patch is shown.
///
/// With a detail at hand this opens the review screen, and takes the focus only if it was closed.
pub open spec fn view_taken(before: &App, after: &App, offline: bool, source: DiffSource) -> bool {
    let opens = before.detail is Some && before.review is None;
    &&& *after == (App {
        diff_source: source,
        diff_offline: after.diff_offline,
        review: after.review,
        focus: after.focus,
        mode: after.mode,
        diff_loading: after.diff_loading,
        opening: after.opening,
        notices: after.notices,
        ..*before
    })
    &&& after.focus == if opens { crate::app::Pane::Diff } else { before.focus }
    &&& after.mode == if opens { before.mode_for(crate::app::Pane::Diff) } else { before.mode }
    &&& after.diff_loading == (before.detail is None && before.diff_loading)
    &&& after.opening == if before.detail is Some { None } else { before.opening }
    &&& opt_view(after.diff_offline) == if offline { Some("offline"@) } else { None }
}

/// Whether a fetched patch was taken over, in a fresh view.
pub open spec fn patch_taken(
    before: &App,
    after: &App,
    outcome: FetchOutcome<Patch>,
    source: DiffSource,
) -> bool {
    &&& view_taken(before, after, outcome is Offline, source)
    &&& after.review is Some
    &&& after.review->0.inv()
    &&& after.review->0.fresh(outcome.held())
    &&& after.review->0.context == before.config.context_lines
    &&& after.review->0.ignore_whitespace == before.config.ignore_whitespace
    &&& after.notices_after(
        before,
        NoticeLevel::Info,
        patch_words(outcome.held()@.label, source, before.list.status()),
    )
}

/// A queue after the worktrees that could not be removed were named, and all was summed up.
pub open spec fn cleaned_notices(
    queue: Seq<NoticeView>,
    removed: usize,
    kept: usize,
    failed: Seq<Seq<char>>,
    now: u64,
) -> Seq<NoticeView> {
    noticed(
        crate::app::warned(queue, failed, crate::app::announced(failed.len()), now),
        NoticeLevel::Info,
        cleaned_words(removed, kept, failed.len()),
        now,
    )
}

/// Whether a failure was recorded where it will be seen.
pub open spec fn failure_taken(before: &App, after: &App, job: u64, message: Seq<char>) -> bool {
    if job == before.chat.job {
        &&& *after == (App {
            chat: ChatState { status: after.chat.status, pending: None, ..before.chat },
            notices: after.notices,
            ..*before
        })
        &&& after.chat.status is Failed
        &&& after.chat.status.words() == "failed: "@ + message
        &&& after.notices_after(before, NoticeLevel::Error, "the question failed: "@ + message)
    } else if job == before.chat.load_job {
        *after == (App { chat: ChatState { load_job: 0, ..before.chat }, ..*before })
    } else if job == before.list_job {
        &&& *after == (App {
            list: PrListState {
                loading: false,
                counting: false,
                error: after.list.error,
                ..before.list
            },
            ..*before
        })
        &&& opt_view(after.list.error) == Some(message)
    } else if job == before.detail_job || job == before.patch_job {
        &&& *after == (App {
            diff_loading: false,
            opening: None,
            notices: after.notices,
            ..*before
        })
        &&& after.notices_after(before, NoticeLevel::Error, "could not open it: "@ + message)
    } else if job == before.count_job {
        *after == (App { list: PrListState { counting: false, ..before.list }, ..*before })
    } else if job == before.catalog_job {
        &&& *after == (App {
            catalog_job: 0,
            model_problem: after.model_problem,
            picker: after.picker,
            notices: after.notices,
            ..*before
        })
        &&& opt_view(after.model_problem) == match before.model_problem {
            Some(problem) => Some(problem@),
            None => Some(message),
        }
        &&& match before.picker {
            Some(picker) => {
                &&& after.picker is Some
                &&& after.picker->0 == (PickerState { notice: after.picker->0.notice, ..picker })
                &&& opt_view(after.picker->0.notice) == Some(message)
                &&& after.notices_after(before, NoticeLevel::Warn, "model catalog: "@ + message)
            },
            None => after.picker is None && after.notices == before.notices,
        }
    } else if job == before.workspace_job {
        &&& *after == (App { workspace_job: 0, notices: after.notices, ..*before })
        &&& after.notices_after(
            before,
            NoticeLevel::Warn,
            "working from the remote diff: "@ + message,
        )
    } else if job == before.check_job {
        &&& *after == (App {
            check_job: 0,
            picker: after.picker,
            notices: after.notices,
            ..*before
        })
        &&& App::told(before.picker, after.picker, false, message)
        &&& after.notices_after(before, NoticeLevel::Error, "model check failed: "@ + message)
    } else {
        &&& *after == (App { notices: after.notices, ..*before })
        &&& after.notices_after(before, NoticeLevel::Error, message)
    }
}

impl App {
    /// Whether the job that a request became is the one its slot waits for.
    pub open spec fn job_recorded(&self, before: &App, effect: &Effect, id: u64) -> bool {
        &&& match *effect {
            Effect::DetectEnvironment => *self == (App {
                environment_job: id,
                ..*before
            }),
            Effect::LoadPullRequests | Effect::LoadMore => *self == (App {
                list_job: id,
                list: PrListState { loading: true, error: None, ..before.list },
                ..*before
            }),
            Effect::CountPullRequests => *self == (App {
                count_job: id,
                list: PrListState { counting: true, ..before.list },
                ..*before
            }),
            Effect::OpenPullRequest(number) => *self == (App {
                detail_job: id,
                diff_loading: true,
                opening: Some(
                    Opening {
                        number,
                        stage: OpeningStage::Detail,
                        started_at: before.now_unix_secs,
                    },
                ),
                ..*before
            }),
            Effect::RunDoctor => *self == (App { doctor_job: id, ..*before }),
            _ => *self == *before,
        }
    }

    /// Remembers which job a request became, so a superseded answer can be dropped.
    pub fn record_job(&mut self, effect: &Effect, id: u64)
        ensures
            final(self).job_recorded(old(self), effect, id),
    {
        match effect {
            Effect::DetectEnvironment => {
                self.environment_job = id;
            },
            Effect::LoadPullRequests | Effect::LoadMore => {
                self.record_list(id);
            },
            Effect::CountPullRequests => {
                self.record_count(id);
            },
            Effect::OpenPullRequest(number) => {
                self.record_opening(*number, id);
            },
            Effect::RunDoctor => {
                self.doctor_job = id;
            },
            _ => {},
        }
    }

    fn record_list(&mut self, id: u64)
        ensures
            *final(self) == (App {
                list_job: id,
                list: PrListState { loading: true, error: None, ..old(self).list },
                ..*old(self)
            }),
    {
        self.list_job = id;
        self.list.await_page();
    }

    fn record_count(&mut self, id: u64)
        ensures
            *final(self) == (App {
                count_job: id,
                list: PrListState { counting: true, ..old(self).list },
                ..*old(self)
            }),
    {
        self.count_job = id;
        self.list.await_count();
    }

    fn record_opening(&mut self, number: u64, id: u64)
        ensures
            *final(self) == (App {
                detail_job: id,
                diff_loading: true,
                opening: Some(
                    Opening {
                        number,
                        stage: OpeningStage::Detail,
                        started_at: old(self).now_unix_secs,
                    },
                ),
                ..*old(self)
            }),
    {
        self.detail_job = id;
        self.diff_loading = true;
        self.begin_opening(number);
    }

    /// Whether a job is the newest request of its slot.
    pub open spec fn is_newest(&self, job: u64) -> bool {
        job == self.environment_job || job == self.list_job || job == self.count_job || job
            == self.detail_job || job == self.patch_job || job == self.doctor_job || job
            == self.catalog_job || job == self.workspace_job || job == self.check_job || job
            == self.chat.job || job == self.chat.load_job || job == self.chat.export_job || job
            == self.panel.job || job == self.panel.stored_job || job == self.panel.context_job
    }

    /// Whether `job` is the newest request for the slot it belongs to.
    #[must_use]
    pub fn is_current_job(&self, job: u64) -> (r: bool)
        ensures
            r == self.is_newest(job),
    {
        job == self.environment_job || job == self.list_job || job == self.count_job || job
            == self.detail_job || job == self.patch_job || job == self.doctor_job || job
            == self.catalog_job || job == self.workspace_job || job == self.check_job || job
            == self.chat.job || job == self.chat.load_job || job == self.chat.export_job || job
            == self.panel.job || job == self.panel.stored_job || job == self.panel.context_job
    }

    /// A sentence naming the repository and account that were found.
    fn environment_summary(environment: &Environment) -> (r: String)
        ensures
            r@ == environment_words(*environment),
    {
        concat4(
            "reading ",
            environment.repo_slug.as_str(),
            " as ",
            match &environment.account {
                Some(account) => account.as_str(),
                None => "an unknown account",
            },
        )
    }

    fn apply_environment(&mut self, environment: Environment)
        ensures
            *final(self) == (App {
                environment: Some(environment),
                environment_error: None,
                environment_running: false,
                notices: final(self).notices,
                ..*old(self)
            }),
            final(self).notices_after(old(self), NoticeLevel::Info, environment_words(environment)),
    {
        let text = App::environment_summary(&environment);
        self.set_environment(environment);
        self.notice(NoticeLevel::Info, text.as_str());
    }

    fn apply_cached_page(&mut self, page: PullRequestPage, age_secs: u64, stale: bool)
        ensures
            *final(self) == (App { list: final(self).list, ..*old(self) }),
            final(self).list == (PrListState {
                loading: true,
                stale: final(self).list.stale,
                ..with_page(old(self).list, page)
            }),
            opt_view(final(self).list.stale) == Some(cached_words(age_secs, stale)),
    {
        self.list.replace(page);
        self.list.stale =
        Some(
            if stale {
                concat3("cached ", number(age_secs).as_str(), "s ago")
            } else {
                "cached".to_owned()
            },
        );
        self.list.loading = true;
    }

    /// Applies a fetched or cached page.
    ///
    /// A full page means the total is unknown, so it is asked for rather than guessed at.
    pub fn apply_page(&mut self, outcome: FetchOutcome<PullRequestPage>) -> (r: Option<Effect>)
        ensures
            page_taken(old(self), final(self), outcome, r),
    {
        let wanted: bool = outcome.value().total.is_none() && outcome.value().may_have_more;
        let offline: bool = outcome.is_offline();
        self.list.replace(outcome.into_value());
        self.list.stale = if offline { Some("offline".to_owned()) } else { None };
        if wanted { Some(Effect::CountPullRequests) } else { None }
    }

    /// Stores a detail and says what was opened.
    pub fn apply_detail(&mut self, outcome: FetchOutcome<PullRequestDetail>)
        ensures
            detail_taken(old(self), final(self), outcome),
    {
        self.diff_offline = if outcome.is_offline() { Some("offline".to_owned()) } else { None };
        let detail = outcome.into_value();
        let mut text = concat5(
            "opened #",
            number(detail.summary.number).as_str(),
            " · ",
            number(detail.commits.len() as u64).as_str(),
            " commit(s) · ",
        );
        text.append(number(detail.summary.changed_files).as_str());
        text.append(" file(s)");
        self.notice(NoticeLevel::Info, text.as_str());
        self.detail = Some(detail);
    }

    fn show_patch(&mut self, view: DiffView)
        ensures
            *final(self) == (App {
                review: Some(view),
                focus: final(self).focus,
                mode: final(self).mode,
                diff_loading: final(self).diff_loading,
                opening: final(self).opening,
                ..*old(self)
            }),
            old(self).detail is Some && old(self).review is None ==> final(self).focus
                == crate::app::Pane::Diff && final(self).mode == old(self).mode_for(
                crate::app::Pane::Diff,
            ),
            old(self).detail is None || old(self).review is Some ==> final(self).focus
                == old(self).focus && final(self).mode == old(self).mode,
            final(self).diff_loading == (old(self).detail is None && old(self).diff_loading),
            final(self).opening == if old(self).detail is Some { None } else { old(self).opening },
    {
        match self.detail.take() {
            Some(detail) => {
                self.open_review(detail, view);
            },
            None => {
                self.set_review(view);
            },
        }
    }

    fn mark_patch(&mut self, offline: bool, source: DiffSource)
        ensures
            *final(self) == (App {
                diff_source: source,
                diff_offline: final(self).diff_offline,
                ..*old(self)
            }),
            opt_view(final(self).diff_offline) == if offline { Some("offline"@) } else { None },
    {
        self.diff_source = source;
        self.diff_offline = if offline { Some("offline".to_owned()) } else { None };
    }

    fn take_view(&mut self, view: DiffView, text: &str, offline: bool, source: DiffSource)
        ensures
            view_taken(old(self), final(self), offline, source),
            final(self).review == Some(view),
            final(self).notices_after(old(self), NoticeLevel::Info, text@),
    {
        self.mark_patch(offline, source);
        self.show_patch(view);
        self.notice(NoticeLevel::Info, text);
    }

    /// Applies a fetched or cached patch.
    pub fn apply_patch(&mut self, outcome: FetchOutcome<Patch>, source: DiffSource)
        requires
            tree_fits(outcome.held()@.files),
        ensures
            patch_taken(old(self), final(self), outcome, source),
    {
        let offline: bool = outcome.is_offline();
        let patch = outcome.into_value();
        let text = concat5(
            patch.stats.label.as_str(),
            " · from the ",
            source.label(),
            " · ",
            self.list.status_label().as_str(),
        );
        let view = DiffView::with_options(
            patch,
            self.config.context_lines,
            self.config.ignore_whitespace,
        );
        self.take_view(view, text.as_str(), offline, source);
    }

    /// Says what became of the worktrees.
    pub fn report_worktrees_cleaned(&mut self, removed: usize, kept: usize, failed: &Vec<String>)
        ensures
            *final(self) == (App { notices: final(self).notices, ..*old(self) }),
            notice_views(final(self).notices@) == cleaned_notices(
                notice_views(old(self).notices@),
                removed,
                kept,
                views(failed@),
                old(self).clock_ms,
            ),
    {
        let ghost before = *self;
        let mut message = concat4(
            "removed ",
            number(removed as u64).as_str(),
            " worktree(s), kept ",
            number(kept as u64).as_str(),
        );
        if failed.len() > 0 {
            message.append("; ");
            message.append(number(failed.len() as u64).as_str());
            message.append(" could not be removed");
        }
        let count: usize = if failed.len() < MAX_NOTICES { failed.len() } else { MAX_NOTICES };
        let mut i: usize = 0;
        while i < count
            invariant
                i <= count <= failed@.len(),
                *self == (App { notices: self.notices, ..before }),
                notice_views(self.notices@) == crate::app::warned(
                    notice_views(before.notices@),
                    views(failed@),
                    i as nat,
                    before.clock_ms,
                ),
            decreases count - i,
        {
            assert(views(failed@)[i as int] == failed@[i as int]@);
            self.notice(NoticeLevel::Warn, failed[i].as_str());
            i += 1;
        }
        assert(views(failed@).len() == failed@.len());
        self.notice(NoticeLevel::Info, message.as_str());
    }

    fn fail_question(&mut self, message: &str)
        ensures
            *final(self) == (App {
                chat: ChatState {
                    status: final(self).chat.status,
                    pending: None,
                    ..old(self).chat
                },
                notices: final(self).notices,
                ..*old(self)
            }),
            final(self).chat.status is Failed,
            final(self).chat.status.words() == "failed: "@ + message@,
            final(self).notices_after(
                old(self),
                NoticeLevel::Error,
                "the question failed: "@ + message@,
            ),
    {
        self.chat.status = ChatStatus::Failed { reason: message.to_owned() };
        self.chat.pending = None;
        let text = concat2("the question failed: ", message);
        self.notice(NoticeLevel::Error, text.as_str());
    }

    fn fail_list(&mut self, message: &str)
        ensures
            *final(self) == (App {
                list: PrListState {
                    loading: false,
                    counting: false,
                    error: final(self).list.error,
                    ..old(self).list
                },
                ..*old(self)
            }),
            opt_view(final(self).list.error) == Some(message@),
    {
        self.list.loading = false;
        self.list.counting = false;
        self.list.error = Some(message.to_owned());
    }

    fn fail_opening(&mut self, message: &str)
        ensures
            *final(self) == (App {
                diff_loading: false,
                opening: None,
                notices: final(self).notices,
                ..*old(self)
            }),
            final(self).notices_after(
                old(self),
                NoticeLevel::Error,
                "could not open it: "@ + message@,
            ),
    {
        self.diff_loading = false;
        self.stop_opening();
        let text = concat2("could not open it: ", message);
        self.notice(NoticeLevel::Error, text.as_str());
    }

    fn fail_catalog(&mut self, message: &str)
        ensures
            *final(self) == (App {
                catalog_job: 0,
                model_problem: final(self).model_problem,
                picker: final(self).picker,
                notices: final(self).notices,
                ..*old(self)
            }),
            opt_view(final(self).model_problem) == match old(self).model_problem {
                Some(problem) => Some(problem@),
                None => Some(message@),
            },
            match old(self).picker {
                Some(picker) => {
                    &&& final(self).picker is Some
                    &&& final(self).picker->0 == (PickerState {
                        notice: final(self).picker->0.notice,
                        ..picker
                    })
                    &&& opt_view(final(self).picker->0.notice) == Some(message@)
                    &&& final(self).notices_after(
                        old(self),
                        NoticeLevel::Warn,
                        "model catalog: "@ + message@,
                    )
                },
                None => final(self).picker is None && final(self).notices == old(self).notices,
            },
    {
        self.catalog_job = 0;
        if self.model_problem.is_none() {
            self.model_problem = Some(message.to_owned());
        }
        match self.picker.take() {
            Some(mut picker) => {
                picker.set_notice(Some(message.to_owned()));
                self.picker = Some(picker);
                let text = concat2("model catalog: ", message);
                self.notice(NoticeLevel::Warn, text.as_str());
            },
            None => {},
        }
    }

    fn fail_workspace(&mut self, message: &str)
        ensures
            *final(self) == (App {
                workspace_job: 0,
                notices: final(self).notices,
                ..*old(self)
            }),
            final(self).notices_after(
                old(self),
                NoticeLevel::Warn,
                "working from the remote diff: "@ + message@,
            ),
    {
        self.workspace_job = 0;
        let text = concat2("working from the remote diff: ", message);
        self.notice(NoticeLevel::Warn, text.as_str());
    }

    fn fail_check(&mut self, message: &str)
        ensures
            *final(self) == (App {
                check_job: 0,
                picker: final(self).picker,
                notices: final(self).notices,
                ..*old(self)
            }),
            App::told(old(self).picker, final(self).picker, false, message@),
            final(self).notices_after(
                old(self),
                NoticeLevel::Error,
                "model check failed: "@ + message@,
            ),
    {
        self.check_job = 0;
        match self.picker.take() {
            Some(mut picker) => {
                picker.set_checking(false);
                picker.set_notice(Some(message.to_owned()));
                self.picker = Some(picker);
            },
            None => {},
        }
        let text = concat2("model check failed: ", message);
        self.notice(NoticeLevel::Error, text.as_str());
    }

    /// Records a job failure where it will be seen.
    pub fn report_job_failure(&mut self, job: u64, message: &str)
        ensures
            failure_taken(old(self), final(self), job, message@),
    {
        if job == self.chat.job {
            self.fail_question(message);
        } else if job == self.chat.load_job {
            self.chat.load_job = 0;
        } else if job == self.list_job {
            self.fail_list(message);
        } else if job == self.detail_job || job == self.patch_job {
            self.fail_opening(message);
        } else if job == self.count_job {
            self.list.counting = false;
        } else if job == self.catalog_job {
            self.fail_catalog(message);
        } else if job == self.workspace_job {
            self.fail_workspace(message);
        } else if job == self.check_job {
            self.fail_check(message);
        } else {
            self.notice(NoticeLevel::Error, message);
        }
    }

    /// Whether a failure fetches a missing catalog instead of being reported.
    pub open spec fn fetches_catalog(&self, job: u64) -> bool {
        job == self.catalog_job && self.catalog is None && !self.catalog_auto_fetched
            && self.config.active is Some
    }

    /// A job that failed, with the one follow-up a failure can have.
    ///
    /// Fetching a missing catalog is more useful than announcing that there was nothing to read.
    pub fn apply_failure(&mut self, job: u64, message: &str) -> (r: Option<Effect>)
        ensures
            if old(self).fetches_catalog(job) {
                &&& r == Some(Effect::LoadCatalog(crate::effect::CatalogPolicy::Refresh))
                &&& *final(self) == (App {
                    catalog_auto_fetched: true,
                    catalog_job: 0,
                    ..*old(self)
                })
            } else {
                &&& r is None
                &&& failure_taken(old(self), final(self), job, message@)
            },
    {
        match self.catalog_unavailable(job) {
            Some(effect) => {
                self.catalog_job = 0;
                return Some(effect);
            },
            None => {},
        }
        self.report_job_failure(job, message);
        None
    }

    /// Whether a result answers the newest request of its kind.
    pub open spec fn awaits(&self, job: u64, outcome: Outcome) -> bool {
        match outcome {
            Outcome::Environment(_) | Outcome::EnvironmentFailed(_) => job == self.environment_job,
            Outcome::CachedPage { .. } | Outcome::Page(_) => job == self.list_job,
            Outcome::Count(_) => job == self.count_job,
            Outcome::Detail(_) => job == self.detail_job,
            Outcome::Patch { .. } => job == self.patch_job,
            Outcome::Catalog { .. } => job == self.catalog_job,
            Outcome::Workspace(_) => job == self.workspace_job,
            Outcome::ModelChecked { .. } => job == self.check_job,
            Outcome::WorkspacesCleaned { .. } => job == self.workspace_job,
            Outcome::Stored { .. } => job == self.panel.stored_job,
            Outcome::Context { .. } => job == self.panel.context_job,
            Outcome::Analyzed(_) => job == self.panel.job,
            Outcome::ChatLoaded { .. } | Outcome::ChatGathered { .. } => job == self.chat.load_job,
            Outcome::ChatAnswered { .. } => job == self.chat.job,
            Outcome::Checks(_) => job == self.doctor_job,
            Outcome::Failed(_) => self.is_newest(job),
            Outcome::Abandoned => false,
        }
    }

    /// Whether a result that was awaited was taken over, and what it makes necessary.
    pub open spec fn outcome_taken(
        &self,
        before: &App,
        job: u64,
        outcome: Outcome,
        r: Option<Effect>,
    ) -> bool {
        match outcome {
            Outcome::Environment(environment) => {
                &&& r == Some(Effect::LoadPullRequests)
                &&& *self == (App {
                    environment: Some(environment),
                    environment_error: None,
                    environment_running: false,
                    notices: self.notices,
                    ..*before
                })
                &&& self.notices_after(before, NoticeLevel::Info, environment_words(environment))
            },
            Outcome::EnvironmentFailed(error) => {
                &&& r is None
                &&& *self == (App {
                    environment_error: Some(error),
                    environment_running: false,
                    ..*before
                })
            },
            Outcome::CachedPage { page, age_secs, stale } => {
                &&& r is None
                &&& *self == (App { list: self.list, ..*before })
                &&& self.list == (PrListState {
                    loading: true,
                    stale: self.list.stale,
                    ..with_page(before.list, page)
                })
                &&& opt_view(self.list.stale) == Some(cached_words(age_secs, stale))
            },
            Outcome::Page(outcome) => page_taken(before, self, outcome, r),
            Outcome::Count(total) => {
                &&& r is None
                &&& *self == (App {
                    list: PrListState { total: Some(total), counting: false, ..before.list },
                    ..*before
                })
            },
            Outcome::Detail(outcome) => {
                &&& r == Some(Effect::ReloadDiff)
                &&& detail_taken(before, self, outcome)
            },
            Outcome::Patch { outcome, source } => {
                &&& r is None
                &&& patch_taken(before, self, outcome, source)
            },
            Outcome::Catalog { catalog, resolved, search } => {
                &&& r is None
                &&& self.catalog_taken(before, catalog, resolved, search)
            },
            Outcome::Workspace(workspace) => {
                &&& r == Some(Effect::ReloadDiff)
                &&& *self == (App { workspace: Some(workspace), ..*before })
            },
            Outcome::ModelChecked { text, usage } => {
                &&& r is None
                &&& *self == (App {
                    check_job: 0,
                    picker: self.picker,
                    notices: self.notices,
                    ..*before
                })
                &&& App::told(
                    before.picker,
                    self.picker,
                    false,
                    crate::app_models::check_words(text@, usage),
                )
                &&& self.notices_after(
                    before,
                    NoticeLevel::Info,
                    crate::app_models::check_words(text@, usage),
                )
            },
            Outcome::WorkspacesCleaned { removed, kept, failed } => {
                &&& r is None
                &&& *self == (App { workspace_job: 0, notices: self.notices, ..*before })
                &&& notice_views(self.notices@) == cleaned_notices(
                    notice_views(before.notices@),
                    removed,
                    kept,
                    views(failed@),
                    before.clock_ms,
                )
            },
            Outcome::Stored { current, stale, plan, age } => {
                &&& r is None
                &&& self.store_applied(
                    &App { panel: PanelState { stored_job: 0, ..before.panel }, ..*before },
                    current,
                    stale,
                    plan,
                    age@,
                )
            },
            Outcome::Context { bundle, intent } => self.context_taken(
                &App { panel: PanelState { context_job: 0, ..before.panel }, ..*before },
                bundle,
                intent,
                r,
            ),
            Outcome::Analyzed(run) => {
                &&& r is None
                &&& self.run_taken(
                    &App { panel: PanelState { job: 0, ..before.panel }, ..*before },
                    run,
                )
            },
            Outcome::ChatLoaded { sessions, session, missing } => {
                &&& r is None
                &&& self.loaded_taken(before, sessions, session, missing)
            },
            Outcome::ChatAnswered { run, session } => {
                &&& r is None
                &&& self.answer_taken(before, run, session@)
            },
            Outcome::ChatGathered { bundle, question, estimate } => self.gathered_taken(
                before,
                bundle,
                question,
                estimate,
                r,
            ),
            Outcome::Checks(checks) => {
                &&& r is None
                &&& *self == (App { checks, doctor_running: false, ..*before })
            },
            Outcome::Failed(message) => if before.fetches_catalog(job) {
                &&& r == Some(Effect::LoadCatalog(crate::effect::CatalogPolicy::Refresh))
                &&& *self == (App { catalog_auto_fetched: true, catalog_job: 0, ..*before })
            } else {
                &&& r is None
                &&& failure_taken(before, self, job, message@)
            },
            Outcome::Abandoned => r is None && *self == *before,
        }
    }

    /// Whether a result was taken over where it was awaited, and dropped where it was not.
    pub open spec fn completed(
        &self,
        before: &App,
        job: u64,
        outcome: Outcome,
        r: Option<Effect>,
    ) -> bool {
        if before.awaits(job, outcome) {
            self.outcome_taken(before, job, outcome, r)
        } else {
            r is None && *self == *before
        }
    }

    fn receive_environment(
        &mut self,
        job: u64,
        environment: Environment,
    ) -> (r: Option<Effect>)
        ensures
            final(self).completed(old(self), job, Outcome::Environment(environment), r),
    {
        if job != self.environment_job {
            return None;
        }
        self.apply_environment(environment);
        Some(Effect::LoadPullRequests)
    }

    fn receive_environment_failure(
        &mut self,
        job: u64,
        error: EnvironmentError,
    ) -> (r: Option<Effect>)
        ensures
            final(self).completed(old(self), job, Outcome::EnvironmentFailed(error), r),
    {
        if job == self.environment_job {
            self.set_environment_error(error);
        }
        None
    }

    fn receive_cached_page(
        &mut self,
        job: u64,
        page: PullRequestPage,
        age_secs: u64,
        stale: bool,
    ) -> (r: Option<Effect>)
        ensures
            final(self).completed(
                old(self),
                job,
                Outcome::CachedPage { page, age_secs, stale },
                r,
            ),
    {
        if job == self.list_job {
            self.apply_cached_page(page, age_secs, stale);
        }
        None
    }

    fn receive_page(
        &mut self,
        job: u64,
        outcome: FetchOutcome<PullRequestPage>,
    ) -> (r: Option<Effect>)
        ensures
            final(self).completed(old(self), job, Outcome::Page(outcome), r),
    {
        if job != self.list_job {
            return None;
        }
        self.apply_page(outcome)
    }

    fn receive_count(
        &mut self,
        job: u64,
        total: u64,
    ) -> (r: Option<Effect>)
        ensures
            final(self).completed(old(self), job, Outcome::Count(total), r),
    {
        if job == self.count_job {
            self.list.set_total(total);
        }
        None
    }

    fn receive_detail(
        &mut self,
        job: u64,
        outcome: FetchOutcome<PullRequestDetail>,
    ) -> (r: Option<Effect>)
        ensures
            final(self).completed(old(self), job, Outcome::Detail(outcome), r),
    {
        if job != self.detail_job {
            return None;
        }
        self.apply_detail(outcome);
        Some(Effect::ReloadDiff)
    }

    fn receive_patch(
        &mut self,
        job: u64,
        outcome: FetchOutcome<Patch>,
        source: DiffSource,
    ) -> (r: Option<Effect>)
        requires
            tree_fits(outcome.held()@.files),
        ensures
            final(self).completed(old(self), job, Outcome::Patch { outcome, source }, r),
    {
        if job == self.patch_job {
            self.apply_patch(outcome, source);
        }
        None
    }

    fn receive_catalog(
        &mut self,
        job: u64,
        catalog: CatalogState,
        resolved: Result<ResolvedSelection, String>,
        search: PickerSearch,
    ) -> (r: Option<Effect>)
        ensures
            final(self).completed(old(self), job, Outcome::Catalog { catalog, resolved, search }, r),
    {
        if job == self.catalog_job {
            self.apply_catalog(catalog, resolved, &search);
        }
        None
    }

    fn receive_workspace(
        &mut self,
        job: u64,
        workspace: Workspace,
    ) -> (r: Option<Effect>)
        ensures
            final(self).completed(old(self), job, Outcome::Workspace(workspace), r),
    {
        if job != self.workspace_job {
            return None;
        }
        self.workspace = Some(workspace);
        Some(Effect::ReloadDiff)
    }

    fn receive_check(
        &mut self,
        job: u64,
        text: String,
        usage: Option<Usage>,
    ) -> (r: Option<Effect>)
        ensures
            final(self).completed(old(self), job, Outcome::ModelChecked { text, usage }, r),
    {
        if job == self.check_job {
            self.check_job = 0;
            self.finish_check(text.as_str(), usage);
        }
        None
    }

    fn receive_cleaning(
        &mut self,
        job: u64,
        removed: usize,
        kept: usize,
        failed: Vec<String>,
    ) -> (r: Option<Effect>)
        ensures
            final(self).completed(old(self), job, Outcome::WorkspacesCleaned { removed, kept, failed }, r),
    {
        if job == self.workspace_job {
            self.workspace_job = 0;
            self.report_worktrees_cleaned(removed, kept, &failed);
        }
        None
    }

    fn receive_stored(
        &mut self,
        job: u64,
        current: Option<StoredAnalysis>,
        stale: Option<StoredAnalysis>,
        plan: Option<Plan>,
        age: String,
    ) -> (r: Option<Effect>)
        requires
            old(self).review_fits(),
        ensures
            final(self).completed(old(self), job, Outcome::Stored { current, stale, plan, age }, r),
    {
        if job == self.panel.stored_job {
            self.record_stored_job(0);
            self.apply_stored(current, stale, plan, age.as_str());
        }
        None
    }

    fn receive_context(
        &mut self,
        job: u64,
        bundle: Bundle,
        intent: AnalysisIntent,
    ) -> (r: Option<Effect>)
        ensures
            final(self).completed(old(self), job, Outcome::Context { bundle, intent }, r),
    {
        if job != self.panel.context_job {
            return None;
        }
        self.record_context_job(0);
        self.apply_context(bundle, intent)
    }

    fn receive_analysis(
        &mut self,
        job: u64,
        run: AnalysisRun,
    ) -> (r: Option<Effect>)
        requires
            old(self).review_fits(),
        ensures
            final(self).completed(old(self), job, Outcome::Analyzed(run), r),
    {
        if job == self.panel.job {
            self.record_analysis_job(0);
            self.apply_analysis(run);
        }
        None
    }

    fn receive_chats(
        &mut self,
        job: u64,
        sessions: Vec<SessionMeta>,
        session: Option<Session>,
        missing: Option<String>,
    ) -> (r: Option<Effect>)
        ensures
            final(self).completed(old(self), job, Outcome::ChatLoaded { sessions, session, missing }, r),
    {
        if job == self.chat.load_job {
            self.apply_chat_loaded(sessions, session, missing);
        }
        None
    }

    fn receive_answer(
        &mut self,
        job: u64,
        run: ChatRun,
        session: String,
    ) -> (r: Option<Effect>)
        ensures
            final(self).completed(old(self), job, Outcome::ChatAnswered { run, session }, r),
    {
        if job == self.chat.job {
            self.apply_chat_answer(run, session.as_str());
        }
        None
    }

    fn receive_question(
        &mut self,
        job: u64,
        bundle: Bundle,
        question: String,
        estimate: Option<Estimate>,
    ) -> (r: Option<Effect>)
        ensures
            final(self).completed(old(self), job, Outcome::ChatGathered { bundle, question, estimate }, r),
    {
        if job != self.chat.load_job {
            return None;
        }
        self.apply_chat_gathered(bundle, question, estimate)
    }

    fn receive_failure(
        &mut self,
        job: u64,
        message: String,
    ) -> (r: Option<Effect>)
        ensures
            final(self).completed(old(self), job, Outcome::Failed(message), r),
    {
        if !self.is_current_job(job) {
            return None;
        }
        self.apply_failure(job, message.as_str())
    }

    /// Applies the result of a background job.
    ///
    /// Returns what should be done next, if the result makes something else necessary: opening a
    /// pull request needs its diff, a truncated list needs its count, and so on.
    pub fn apply_completion(&mut self, completion: Completion) -> (r: Option<Effect>)
        requires
            completion.fits(),
            old(self).review_fits(),
        ensures
            final(self).completed(old(self), completion.job, completion.outcome, r),
    {
        let job: u64 = completion.job;
        match completion.outcome {
            Outcome::Environment(environment) => self.receive_environment(job, environment),
            Outcome::EnvironmentFailed(error) => self.receive_environment_failure(job, error),
            Outcome::Page(outcome) => self.receive_page(job, outcome),
            Outcome::Count(total) => self.receive_count(job, total),
            Outcome::Detail(outcome) => self.receive_detail(job, outcome),
            Outcome::Patch { outcome, source } => self.receive_patch(job, outcome, source),
            Outcome::Catalog { catalog, resolved, search } => self.receive_catalog(job, catalog, resolved, search),
            Outcome::Workspace(workspace) => self.receive_workspace(job, workspace),
            Outcome::ModelChecked { text, usage } => self.receive_check(job, text, usage),
            Outcome::WorkspacesCleaned { removed, kept, failed } => self.receive_cleaning(job, removed, kept, failed),
            Outcome::Stored { current, stale, plan, age } => self.receive_stored(job, current, stale, plan, age),
            Outcome::Context { bundle, intent } => self.receive_context(job, bundle, intent),
            Outcome::Analyzed(run) => self.receive_analysis(job, run),
            Outcome::ChatLoaded { sessions, session, missing } => self.receive_chats(job, sessions, session, missing),
            Outcome::ChatAnswered { run, session } => self.receive_answer(job, run, session),
            Outcome::ChatGathered { bundle, question, estimate } => self.receive_question(job, bundle, question, estimate),
            Outcome::Failed(message) => self.receive_failure(job, message),
            Outcome::CachedPage { page, age_secs, stale } => self.receive_cached_page(
                job,
                page,
                age_secs,
                stale,
            ),
            Outcome::Checks(checks) => {
                self.apply_checks(job, checks);
                None
            },
            Outcome::Abandoned => None,
        }
    }
}

/// A result that nobody waits for any more, a failure as much as a success, changes nothing: neither
/// one that is not of the kind its slot waits for, nor one whose job is no slot's newest.
pub proof fn lemma_superseded_results_are_dropped(
    before: App,
    after: App,
    job: u64,
    outcome: Outcome,
    r: Option<Effect>,
)
    requires
        !before.awaits(job, outcome) || !before.is_newest(job),
        after.completed(&before, job, outcome, r),
    ensures
        after == before,
        r is None,
{
}

/// A finished job is not waited for a second time where its slot is cleared by its result.
pub proof fn lemma_an_analysis_lands_once(
    before: App,
    after: App,
    job: u64,
    run: AnalysisRun,
    again: AnalysisRun,
    r: Option<Effect>,
)
    requires
        job != 0,
        before.awaits(job, Outcome::Analyzed(run)),
        after.completed(&before, job, Outcome::Analyzed(run), r),
    ensures
        !after.awaits(job, Outcome::Analyzed(again)),
{
}

} // verus!
