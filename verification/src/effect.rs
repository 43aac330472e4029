//! What the state asks its surroundings to do next.

use vstd::prelude::*;

use crate::catalog::ModelSelection;
use crate::plan::Plan;
use crate::strings::{concat3, debug, debugged, decimal, number};

verus! {

/// Where a catalog may come from.
#[derive(Debug, Clone, Copy, PartialEq, Eq, Structural)]
pub enum CatalogPolicy {
    /// From the cache alone.
    CacheOnly,
    /// From the cache where it is fresh.
    CacheFirst,
    /// From the network.
    Refresh,
}

impl CatalogPolicy {
    /// The name of a policy.
    pub open spec fn name(self) -> Seq<char> {
        match self {
            CatalogPolicy::CacheOnly => "CacheOnly"@,
            CatalogPolicy::CacheFirst => "CacheFirst"@,
            CatalogPolicy::Refresh => "Refresh"@,
        }
    }

    fn label(self) -> (r: &'static str)
        ensures
            r@ == self.name(),
    {
        match self {
            CatalogPolicy::CacheOnly => "CacheOnly",
            CatalogPolicy::CacheFirst => "CacheFirst",
            CatalogPolicy::Refresh => "Refresh",
        }
    }
}

/// What a context is gathered for.
#[derive(Debug, Clone, Copy, PartialEq, Eq, Structural)]
pub enum AnalysisIntent {
    /// To be looked at.
    Inspect,
    /// To be sent.
    Run,
    /// To say how large it is, before anything is sent.
    Estimate,
}

impl AnalysisIntent {
    /// The name of an intent.
    pub open spec fn name(self) -> Seq<char> {
        match self {
            AnalysisIntent::Inspect => "Inspect"@,
            AnalysisIntent::Run => "Run"@,
            AnalysisIntent::Estimate => "Estimate"@,
        }
    }

    fn label(self) -> (r: &'static str)
        ensures
            r@ == self.name(),
    {
        match self {
            AnalysisIntent::Inspect => "Inspect",
            AnalysisIntent::Run => "Run",
            AnalysisIntent::Estimate => "Estimate",
        }
    }
}

/// What the state wants done next.
///
/// It may hold a key, so it has no derived `Debug`: [`effect_name`] and [`Self::describe`] tell of it
/// without the key.
#[derive(PartialEq, Eq)]
pub enum Effect {
    /// Nothing to do; the pending key sequence is finished with.
    Nothing,
    /// Keep the pending sequence so the next key can complete it.
    KeepPending,
    /// Persist the state file.
    SaveState,
    /// Collect the environment report.
    RunDoctor,
    /// Work out where we are running and whether the forge is usable.
    DetectEnvironment,
    /// Fetch the first page of the current query.
    LoadPullRequests,
    /// Fetch the next page, up to the configured cap.
    LoadMore,
    /// Fetch the exact number of matches, which a full page makes necessary.
    CountPullRequests,
    /// Open a pull request: its detail, then its diff.
    OpenPullRequest(u64),
    /// Fetch the diff of the open pull request again.
    ReloadDiff,
    /// Put a path on the clipboard through the terminal.
    CopyPath(String),
    /// Turn mouse capture on or off.
    SetMouse(bool),
    /// Give up on the work in flight for the current screen.
    CancelInFlight,
    /// Load the model catalog.
    LoadCatalog(CatalogPolicy),
    /// Materialise the open pull request in a managed worktree.
    EnsureWorkspace(u64),
    /// Ask the provider whether the chosen model works.
    CheckModel,
    /// Store a key that was typed.
    SaveKey {
        /// Which provider it belongs to.
        provider: String,
        /// The key itself.
        key: String,
    },
    /// Write the chosen model into the configuration.
    SaveSelection(ModelSelection),
    /// Remove a stored key.
    ClearKey(String),
    /// Remove the worktrees that are no longer needed.
    CleanWorkspaces(bool),
    /// Read whatever analysis is stored for the open pull request.
    LoadAnalysis,
    /// Gather the context, which is what an analysis would send.
    GatherContext(AnalysisIntent),
    /// Ask the provider for an analysis.
    RunAnalysis {
        /// Recompute even when the cache has a matching entry.
        force: bool,
    },
    /// Give up on the run in flight, keeping the text that arrived.
    CancelAnalysis,
    /// Store the review-plan overrides for this pull request.
    SavePlan(Plan),
    /// Read the chat sessions for the open pull request.
    LoadChat,
    /// Start a new conversation, keeping the old ones.
    NewChat,
    /// Open one of the stored conversations.
    OpenChat(String),
    /// Ask a question.
    AskChat,
    /// Give up on the answer in flight, keeping the text that arrived.
    CancelChat,
    /// Ask the last question again.
    RetryChat,
    /// Write a transcript to a file.
    ExportChat(String),
    /// Remove the conversations that are too old.
    PruneChat,
    /// Store the files that were added to the context.
    SaveContextFiles,
}

impl Default for Effect {
    fn default() -> (r: Self)
        ensures
            r is Nothing,
    {
        Effect::Nothing
    }
}

/// A truth value in words.
pub open spec fn truth(b: bool) -> Seq<char> {
    if b { "true"@ } else { "false"@ }
}

/// The short name of an effect.
pub open spec fn named(effect: Effect) -> Seq<char> {
    match effect {
        Effect::Nothing => "none"@,
        Effect::KeepPending => "keep-pending"@,
        Effect::SaveState => "save-state"@,
        Effect::RunDoctor => "run-doctor"@,
        Effect::DetectEnvironment => "detect-environment"@,
        Effect::LoadPullRequests => "load-pull-requests"@,
        Effect::LoadMore => "load-more"@,
        Effect::CountPullRequests => "count-pull-requests"@,
        Effect::OpenPullRequest(n) => "open-pull-request("@ + decimal(n as nat) + ")"@,
        Effect::ReloadDiff => "reload-diff"@,
        Effect::CopyPath(_) => "copy-path"@,
        Effect::SetMouse(enabled) => "set-mouse("@ + truth(enabled) + ")"@,
        Effect::CancelInFlight => "cancel-in-flight"@,
        Effect::LoadCatalog(policy) => "load-catalog("@ + policy.name() + ")"@,
        Effect::EnsureWorkspace(n) => "ensure-workspace("@ + decimal(n as nat) + ")"@,
        Effect::CheckModel => "check-model"@,
        Effect::SaveKey { .. } => "save-key"@,
        Effect::SaveSelection(_) => "save-selection"@,
        Effect::ClearKey(provider) => "clear-key("@ + provider@ + ")"@,
        Effect::CleanWorkspaces(all) => "clean-workspaces("@ + truth(all) + ")"@,
        Effect::LoadAnalysis => "load-analysis"@,
        Effect::GatherContext(intent) => "gather-context("@ + intent.name() + ")"@,
        Effect::RunAnalysis { force } => "run-analysis(force="@ + truth(force) + ")"@,
        Effect::CancelAnalysis => "cancel-analysis"@,
        Effect::SavePlan(_) => "save-plan"@,
        Effect::LoadChat => "load-chat"@,
        Effect::NewChat => "new-chat"@,
        Effect::OpenChat(id) => "open-chat("@ + id@ + ")"@,
        Effect::AskChat => "ask-chat"@,
        Effect::CancelChat => "cancel-chat"@,
        Effect::RetryChat => "retry-chat"@,
        Effect::ExportChat(format) => "export-chat("@ + format@ + ")"@,
        Effect::PruneChat => "prune-chat"@,
        Effect::SaveContextFiles => "save-context-files"@,
    }
}

/// A truth value in words.
pub fn truth_word(b: bool) -> (r: &'static str)
    ensures
        r@ == truth(b),
{
    if b { "true" } else { "false" }
}

/// A short name for an effect, for logs and tests.
#[must_use]
pub fn effect_name(effect: &Effect) -> (r: String)
    ensures
        r@ == named(*effect),
{
    match effect {
        Effect::Nothing => "none".to_owned(),
        Effect::KeepPending => "keep-pending".to_owned(),
        Effect::SaveState => "save-state".to_owned(),
        Effect::RunDoctor => "run-doctor".to_owned(),
        Effect::DetectEnvironment => "detect-environment".to_owned(),
        Effect::LoadPullRequests => "load-pull-requests".to_owned(),
        Effect::LoadMore => "load-more".to_owned(),
        Effect::CountPullRequests => "count-pull-requests".to_owned(),
        Effect::OpenPullRequest(n) => concat3("open-pull-request(", number(*n).as_str(), ")"),
        Effect::ReloadDiff => "reload-diff".to_owned(),
        Effect::CopyPath(_) => "copy-path".to_owned(),
        Effect::SetMouse(enabled) => concat3("set-mouse(", truth_word(*enabled), ")"),
        Effect::CancelInFlight => "cancel-in-flight".to_owned(),
        Effect::LoadCatalog(policy) => concat3("load-catalog(", policy.label(), ")"),
        Effect::EnsureWorkspace(n) => concat3("ensure-workspace(", number(*n).as_str(), ")"),
        Effect::CheckModel => "check-model".to_owned(),
        Effect::SaveKey { .. } => "save-key".to_owned(),
        Effect::SaveSelection(_) => "save-selection".to_owned(),
        Effect::ClearKey(provider) => concat3("clear-key(", provider.as_str(), ")"),
        Effect::CleanWorkspaces(all) => concat3("clean-workspaces(", truth_word(*all), ")"),
        Effect::LoadAnalysis => "load-analysis".to_owned(),
        Effect::GatherContext(intent) => concat3("gather-context(", intent.label(), ")"),
        Effect::RunAnalysis { force } => concat3("run-analysis(force=", truth_word(*force), ")"),
        Effect::CancelAnalysis => "cancel-analysis".to_owned(),
        Effect::SavePlan(_) => "save-plan".to_owned(),
        Effect::LoadChat => "load-chat".to_owned(),
        Effect::NewChat => "new-chat".to_owned(),
        Effect::OpenChat(id) => concat3("open-chat(", id.as_str(), ")"),
        Effect::AskChat => "ask-chat".to_owned(),
        Effect::CancelChat => "cancel-chat".to_owned(),
        Effect::RetryChat => "retry-chat".to_owned(),
        Effect::ExportChat(format) => concat3("export-chat(", format.as_str(), ")"),
        Effect::PruneChat => "prune-chat".to_owned(),
        Effect::SaveContextFiles => "save-context-files".to_owned(),
    }
}

impl Effect {
    /// What is logged of an effect: its name, or its parts where those are told; never a key.
    pub open spec fn described(self) -> Seq<char> {
        match self {
            Effect::SaveKey { provider, .. } => "SaveKey { provider: "@ + debugged(provider@)
                + ", key: \"<redacted>\" }"@,
            Effect::OpenChat(id) => "OpenChat("@ + debugged(id@) + ")"@,
            Effect::ExportChat(format) => "ExportChat("@ + debugged(format@) + ")"@,
            other => named(other),
        }
    }

    /// What is logged of an effect.
    #[must_use]
    pub fn describe(&self) -> (r: String)
        ensures
            r@ == self.described(),
    {
        match self {
            Effect::SaveKey { provider, .. } => concat3(
                "SaveKey { provider: ",
                debug(provider.as_str()).as_str(),
                ", key: \"<redacted>\" }",
            ),
            Effect::OpenChat(id) => concat3("OpenChat(", debug(id.as_str()).as_str(), ")"),
            Effect::ExportChat(format) => concat3(
                "ExportChat(",
                debug(format.as_str()).as_str(),
                ")",
            ),
            other => effect_name(other),
        }
    }
}

/// Nothing that is told of an effect that stores a key tells anything of the key.
pub proof fn lemma_a_key_is_never_named(provider: String, key: String, other: String)
    ensures
        ({
            let kept = Effect::SaveKey { provider, key };
            let instead = Effect::SaveKey { provider, key: other };
            &&& named(kept) == named(instead)
            &&& kept.described() == instead.described()
        }),
{
}

} // verus!
