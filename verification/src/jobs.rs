//! What finished jobs bring: the results the state is told about.

use vstd::prelude::*;

use crate::app::{Check, DiffSource, Environment, EnvironmentError, ResolvedSelection, Workspace};
use crate::catalog::{CatalogState, ModelChoice};
use crate::effect::AnalysisIntent;
use crate::list_view::PullRequestPage;
use crate::panel::{Analysis, Bundle, StoredAnalysis};
use crate::patch::Patch;
use crate::plan::Plan;
use crate::pr::PullRequestDetail;
use crate::session::{Estimate, Message, Session, SessionMeta, Usage};
use crate::tree::tree_fits;

verus! {

/// Something that was fetched, or taken from the cache because it could not be.
pub enum FetchOutcome<T> {
    /// It was fetched.
    Fresh(T),
    /// It comes from the cache.
    Offline {
        /// What the cache held.
        value: T,
        /// Why it could not be fetched.
        reason: String,
    },
}

impl<T> FetchOutcome<T> {
    /// What was fetched or cached.
    pub open spec fn held(self) -> T {
        match self {
            FetchOutcome::Fresh(value) => value,
            FetchOutcome::Offline { value, .. } => value,
        }
    }

    /// Whether it comes from the cache.
    #[must_use]
    pub fn is_offline(&self) -> (r: bool)
        ensures
            r == (self is Offline),
    {
        match self {
            FetchOutcome::Fresh(_) => false,
            FetchOutcome::Offline { .. } => true,
        }
    }

    /// What was fetched or cached.
    #[must_use]
    pub fn value(&self) -> (r: &T)
        ensures
            *r == self.held(),
    {
        match self {
            FetchOutcome::Fresh(value) => value,
            FetchOutcome::Offline { value, .. } => value,
        }
    }

    /// Takes what was fetched or cached.
    #[must_use]
    pub fn into_value(self) -> (r: T)
        ensures
            r == self.held(),
    {
        match self {
            FetchOutcome::Fresh(value) => value,
            FetchOutcome::Offline { value, .. } => value,
        }
    }
}

/// What a search of the catalog found for the picker.
pub struct PickerSearch {
    /// Of each provider, whether the filter matches it.
    pub matched: Vec<bool>,
    /// The models of the chosen provider that the filter matches, in order of rank.
    pub models: Vec<ModelChoice>,
}

/// A finished analysis.
pub struct ReadyAnalysis {
    /// The analysis.
    pub analysis: Analysis,
    /// What was corrected in it.
    pub warnings: Vec<String>,
    /// Whether a second attempt was needed.
    pub repaired: bool,
    /// What it used.
    pub usage: Option<Usage>,
}

/// How an analysis ended.
pub enum AnalysisRun {
    /// With an analysis.
    Ready(ReadyAnalysis),
    /// With a text that is none.
    Unparsed {
        /// Why it is none.
        reason: String,
        /// The text.
        raw: String,
    },
    /// Before it was done.
    Cancelled,
}

/// How a question ended.
pub enum ChatRun {
    /// With an answer.
    Answered(Message),
    /// With the part of an answer that had arrived.
    Cancelled(Message),
}

/// What a job brought.
#[allow(inconsistent_fields)]
pub enum Outcome {
    /// Where the interface runs.
    Environment(Environment),
    /// Why it cannot run there.
    EnvironmentFailed(EnvironmentError),
    /// A page from the cache, before the network answers.
    CachedPage {
        /// The page.
        page: PullRequestPage,
        /// How old it is, in seconds.
        age_secs: u64,
        /// Whether that is too old.
        stale: bool,
    },
    /// A page of pull requests.
    Page(FetchOutcome<PullRequestPage>),
    /// How many pull requests there are.
    Count(u64),
    /// The detail of a pull request.
    Detail(FetchOutcome<PullRequestDetail>),
    /// The patch of a pull request.
    Patch {
        /// The patch.
        outcome: FetchOutcome<Patch>,
        /// Where it was read from.
        source: DiffSource,
    },
    /// The model catalog.
    Catalog {
        /// The catalog.
        catalog: CatalogState,
        /// The configured model as the catalog describes it, or why it does not.
        resolved: Result<ResolvedSelection, String>,
        /// What the picker's filter finds in it.
        search: PickerSearch,
    },
    /// A worktree.
    Workspace(Workspace),
    /// The answer of a provider that was asked whether a model works.
    ModelChecked {
        /// What it said.
        text: String,
        /// What that used.
        usage: Option<Usage>,
    },
    /// What became of the worktrees.
    WorkspacesCleaned {
        /// How many were removed.
        removed: usize,
        /// How many were kept.
        kept: usize,
        /// What could not be removed.
        failed: Vec<String>,
    },
    /// What the analysis cache held.
    Stored {
        /// An analysis of the current commit.
        current: Option<StoredAnalysis>,
        /// An analysis of an older one.
        stale: Option<StoredAnalysis>,
        /// The saved order.
        plan: Option<Plan>,
        /// How old the older analysis is, in words.
        age: String,
    },
    /// A gathered context.
    Context {
        /// The context.
        bundle: Bundle,
        /// What it was gathered for.
        intent: AnalysisIntent,
    },
    /// A finished analysis.
    Analyzed(AnalysisRun),
    /// The conversations about a pull request.
    ChatLoaded {
        /// The list.
        sessions: Vec<SessionMeta>,
        /// The one that was asked for.
        session: Option<Session>,
        /// The one that was asked for and is not there.
        missing: Option<String>,
    },
    /// An answer.
    ChatAnswered {
        /// How the question ended.
        run: ChatRun,
        /// The conversation it was asked in.
        session: String,
    },
    /// The context of a question.
    ChatGathered {
        /// The context.
        bundle: Bundle,
        /// The question.
        question: String,
        /// What the request would be made of, where one can be made.
        estimate: Option<Estimate>,
    },
    /// The environment report.
    Checks(Vec<Check>),
    /// Why a job failed.
    Failed(String),
    /// Nothing, because the job was given up.
    Abandoned,
}

/// A finished job.
pub struct Completion {
    /// Its id.
    pub job: u64,
    /// What it brought.
    pub outcome: Outcome,
}

impl Completion {
    /// Whether a patch that it brings lies no deeper than a tree row can say.
    pub open spec fn fits(&self) -> bool {
        match self.outcome {
            Outcome::Patch { outcome, .. } => tree_fits(outcome.held()@.files),
            _ => true,
        }
    }
}

/// A piece of news from a job that is still running.
pub enum Update {
    /// What the job is doing now.
    Stage(String),
    /// Text that has arrived.
    Delta(String),
}

/// Whom a piece of news is for.
pub enum ProgressUpdate {
    /// For the analysis panel.
    Analysis(Update),
    /// For the chat pane.
    Chat(Update),
}

/// A piece of news and the job it is from.
pub struct Progress {
    /// The job.
    pub job: u64,
    /// The news.
    pub update: ProgressUpdate,
}

} // verus!
