//! Pull requests as the forge reports them.

use vstd::prelude::*;

use crate::patch::ReviewComment;
use crate::strings::{concat3, decimal, number};

verus! {

/// Whether a pull request is still open.
#[derive(Debug, Clone, Copy, PartialEq, Eq, Structural)]
pub enum PrState {
    /// It is open.
    Open,
    /// It was closed without being merged.
    Closed,
    /// It was merged.
    Merged,
}

impl PrState {
    /// The name of a state.
    pub open spec fn name(self) -> Seq<char> {
        match self {
            PrState::Open => "open"@,
            PrState::Closed => "closed"@,
            PrState::Merged => "merged"@,
        }
    }

    /// The state's name.
    #[must_use]
    pub fn label(self) -> (r: &'static str)
        ensures
            r@ == self.name(),
    {
        match self {
            PrState::Open => "open",
            PrState::Closed => "closed",
            PrState::Merged => "merged",
        }
    }
}

/// What the reviews of a pull request amount to.
#[derive(Debug, Clone, Copy, PartialEq, Eq, Structural)]
pub enum ReviewDecision {
    /// It may be merged.
    Approved,
    /// Somebody asked for changes.
    ChangesRequested,
    /// A review is missing.
    ReviewRequired,
}

impl ReviewDecision {
    /// The name of a decision.
    pub open spec fn name(self) -> Seq<char> {
        match self {
            ReviewDecision::Approved => "approved"@,
            ReviewDecision::ChangesRequested => "changes requested"@,
            ReviewDecision::ReviewRequired => "review required"@,
        }
    }

    /// The decision's name.
    #[must_use]
    pub fn label(self) -> (r: &'static str)
        ensures
            r@ == self.name(),
    {
        match self {
            ReviewDecision::Approved => "approved",
            ReviewDecision::ChangesRequested => "changes requested",
            ReviewDecision::ReviewRequired => "review required",
        }
    }
}

/// How a check went.
#[derive(Debug, Clone, Copy, PartialEq, Eq, Structural)]
pub enum CheckState {
    /// It passed.
    Success,
    /// It failed.
    Failure,
    /// It has not finished.
    Pending,
    /// It neither passed nor failed.
    Neutral,
    /// It did not run.
    Skipped,
    /// Nothing is known of it.
    Unknown,
}

/// Where a check is in its life.
#[derive(Debug, Clone, Copy, PartialEq, Eq, Structural)]
pub enum CheckLifecycle {
    /// It is waiting.
    Queued,
    /// It is running.
    Running,
    /// It is done.
    Completed,
    /// Nothing is known of it.
    Unknown,
}

/// What the checks of a pull request amount to.
#[derive(Debug, Clone, Copy, PartialEq, Eq, Structural)]
pub struct CheckSummary {
    /// How they went, taken together.
    pub state: CheckState,
    /// How many passed.
    pub passed: u32,
    /// How many there are.
    pub total: u32,
}

impl Default for CheckSummary {
    fn default() -> (r: Self)
        ensures
            r == (CheckSummary { state: CheckState::Unknown, passed: 0, total: 0 }),
    {
        CheckSummary { state: CheckState::Unknown, passed: 0, total: 0 }
    }
}

impl CheckSummary {
    /// The summary in words: how many passed, of how many.
    pub open spec fn words(self) -> Seq<char> {
        decimal(self.passed as nat) + "/"@ + decimal(self.total as nat)
    }

    /// The summary in words.
    #[must_use]
    pub fn label(&self) -> (r: String)
        ensures
            r@ == self.words(),
    {
        concat3(number(self.passed as u64).as_str(), "/", number(self.total as u64).as_str())
    }
}

/// One check of a pull request.
#[derive(Debug, PartialEq, Eq)]
pub struct CheckRun {
    /// Its name.
    pub name: String,
    /// How it went.
    pub state: CheckState,
    /// Where it is in its life.
    pub lifecycle: CheckLifecycle,
    /// What it says of itself.
    pub description: Option<String>,
    /// What it concluded.
    pub conclusion: Option<String>,
    /// Where it can be read.
    pub url: Option<String>,
}

/// A pull request as a list shows it.
#[derive(Debug, PartialEq, Eq)]
pub struct PullRequestSummary {
    /// Its number.
    pub number: u64,
    /// Its title.
    pub title: String,
    /// Who opened it.
    pub author: String,
    /// Whether it is still open.
    pub state: PrState,
    /// Whether it is a draft, or calls itself unfinished.
    pub work_in_progress: bool,
    /// The branch it goes into.
    pub base_ref: String,
    /// The branch it comes from.
    pub head_ref: String,
    /// The commit it is at.
    pub head_sha: String,
    /// How many files it changes.
    pub changed_files: u64,
    /// What its reviews amount to.
    pub review_decision: Option<ReviewDecision>,
    /// What its checks amount to.
    pub checks: CheckSummary,
}

/// A review of a pull request.
#[derive(Debug, PartialEq, Eq)]
pub struct Review {
    /// Who wrote it.
    pub author: String,
    /// Its verdict, in words.
    pub state: String,
    /// What it says.
    pub body: String,
}

/// A comment of the pull request's own conversation.
#[derive(Debug, PartialEq, Eq)]
pub struct ConversationComment {
    /// Its number.
    pub id: u64,
    /// Who wrote it.
    pub author: String,
    /// What it says.
    pub body: String,
    /// When it was written, in seconds since the epoch.
    pub created_at: i64,
    /// Where it can be read.
    pub url: Option<String>,
}

/// A pull request with all that was said about it.
#[derive(Debug, PartialEq, Eq)]
pub struct PullRequestDetail {
    /// What a list shows of it.
    pub summary: PullRequestSummary,
    /// What its author says it does.
    pub body: String,
    /// Its commits, by id.
    pub commits: Vec<String>,
    /// Its checks.
    pub checks: Vec<CheckRun>,
    /// Its reviews.
    pub reviews: Vec<Review>,
    /// The comments on its lines.
    pub comments: Vec<ReviewComment>,
    /// The comments on itself.
    pub conversation: Vec<ConversationComment>,
}

} // verus!
