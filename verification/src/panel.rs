//! The analysis panel: what the model said about the pull request, what was sent to it, and how
//! far along a run is.

use vstd::prelude::*;

use crate::plan::{opt_plan, Plan, PlanView};
use crate::stream::StreamBuffer;
use crate::strings::{concat2, same, trim, trimmed, views};

verus! {

/// How serious a risk is.
#[derive(Debug, Clone, Copy, PartialEq, Eq, Structural)]
pub enum Severity {
    High,
    Medium,
    Low,
}

impl Severity {
    /// The name of a severity.
    pub open spec fn name(self) -> Seq<char> {
        match self {
            Severity::High => "high"@,
            Severity::Medium => "medium"@,
            Severity::Low => "low"@,
        }
    }

    /// The severity's name.
    #[must_use]
    pub fn label(self) -> (r: &'static str)
        ensures
            r@ == self.name(),
    {
        match self {
            Severity::High => "high",
            Severity::Medium => "medium",
            Severity::Low => "low",
        }
    }
}

/// A risk the model sees.
#[derive(Debug, PartialEq, Eq)]
pub struct PanelRisk {
    /// How serious it is.
    pub severity: Severity,
    /// What it is.
    pub title: String,
    /// Why it is one.
    pub why: String,
    /// The files it is about.
    pub files: Vec<String>,
    /// Whether all files it cites are in the change.
    pub supported: bool,
}

/// A step of the reading plan.
#[derive(Debug, PartialEq, Eq)]
pub struct PanelPlanStep {
    /// Where it sits, from one.
    pub order: u32,
    /// Its name.
    pub name: String,
    /// Why it is read there.
    pub rationale: String,
    /// The files it holds.
    pub files: Vec<String>,
}

/// What the panel shows of an analysis.
#[derive(Debug, PartialEq, Eq)]
pub struct PanelModel {
    /// What the change does.
    pub summary: String,
    /// Why it is made.
    pub intent: String,
    /// The risks, most serious first.
    pub risks: Vec<PanelRisk>,
    /// The questions worth asking the author.
    pub questions: Vec<String>,
    /// The reading plan.
    pub steps: Vec<PanelPlanStep>,
    /// The files the model looked at.
    pub analyzed_files: Vec<String>,
    /// The files it saw only a part of.
    pub truncated_files: Vec<String>,
    /// What it says it could not tell.
    pub limitations: Vec<String>,
}

/// What the model said about one file.
#[derive(Debug, PartialEq, Eq)]
pub struct FileNote {
    /// The file.
    pub path: String,
    /// The sentence worth reading.
    pub notes: String,
    /// What changed in it.
    pub change: String,
    /// What to look at.
    pub review_focus: Vec<String>,
}

/// An analysis of a pull request.
#[derive(Debug, PartialEq, Eq)]
pub struct Analysis {
    /// The commit it is of.
    pub head_sha: String,
    /// The version of the prompt it was made with.
    pub prompt_version: u32,
    /// What it says about the files.
    pub notes: Vec<FileNote>,
    /// The order it proposes.
    pub plan: Plan,
    /// What the panel shows of it.
    pub panel: PanelModel,
}

/// What an analysis is stored under.
#[derive(Debug, PartialEq, Eq)]
pub struct AnalysisKey {
    /// The repository.
    pub repo: String,
    /// The pull request.
    pub pr: u64,
    /// The commit.
    pub head_sha: String,
    /// The provider.
    pub provider: String,
    /// The model.
    pub model: String,
    /// The thinking setting.
    pub thinking: Option<crate::catalog::Thinking>,
    /// The version of the prompt.
    pub prompt_version: u32,
}

/// An analysis with where it came from.
#[derive(Debug, PartialEq, Eq)]
pub struct StoredAnalysis {
    /// What it is stored under.
    pub key: AnalysisKey,
    /// The analysis.
    pub analysis: Analysis,
    /// The model's own text.
    pub raw: String,
    /// What was corrected in it.
    pub warnings: Vec<String>,
    /// Whether a second attempt was needed.
    pub repaired: bool,
    /// When it was stored, in seconds since the epoch.
    pub stored_at: u64,
}

/// The first of the notes from `from` on about a path.
pub open spec fn note_place(notes: Seq<FileNote>, path: Seq<char>, from: nat) -> Option<nat>
    decreases notes.len() - from,
{
    if from >= notes.len() {
        None
    } else if notes[from as int].path@ == path {
        Some(from)
    } else {
        note_place(notes, path, from + 1)
    }
}

impl Analysis {
    /// What it says about a file.
    pub open spec fn said_of(&self, path: Seq<char>) -> Option<FileNote> {
        match note_place(self.notes@, path, 0) {
            Some(i) => Some(self.notes@[i as int]),
            None => None,
        }
    }

    /// What it says about a file.
    #[must_use]
    pub fn note(&self, path: &str) -> (r: Option<&FileNote>)
        ensures
            match r {
                Some(note) => self.said_of(path@) == Some(*note),
                None => self.said_of(path@) is None,
            },
    {
        let mut i: usize = 0;
        while i < self.notes.len()
            invariant
                i <= self.notes@.len(),
                note_place(self.notes@, path@, 0) == note_place(self.notes@, path@, i as nat),
            decreases self.notes@.len() - i,
        {
            if same(self.notes[i].path.as_str(), path) {
                return Some(&self.notes[i]);
            }
            i += 1;
        }
        None
    }
}

impl FileNote {
    /// The note in one sentence, when it says anything.
    pub open spec fn sentence(&self) -> Option<Seq<char>> {
        let text = if trimmed(self.notes@).len() == 0 {
            trimmed(self.change@)
        } else {
            trimmed(self.notes@)
        };
        let focus = crate::strings::joined(views(self.review_focus@), "; "@);
        if text.len() > 0 {
            Some(text)
        } else if focus.len() > 0 {
            Some("check: "@ + focus)
        } else {
            None
        }
    }

    /// The note in one sentence: the notes, what changed where there are none, and what to look at
    /// where neither says anything.
    #[must_use]
    pub fn text(&self) -> (r: Option<String>)
        ensures
            match r {
                Some(text) => self.sentence() == Some(text@),
                None => self.sentence() is None,
            },
    {
        let notes = trim(self.notes.as_str());
        let text: String = if notes.as_str().is_empty() { trim(self.change.as_str()) } else { notes };
        if !text.as_str().is_empty() {
            return Some(text);
        }
        let focus = crate::strings::join(&self.review_focus, "; ");
        if focus.as_str().is_empty() {
            None
        } else {
            Some(concat2("check: ", focus.as_str()))
        }
    }
}

/// One piece of a context.
#[derive(Debug, PartialEq, Eq)]
pub struct Segment {
    /// What it is.
    pub label: String,
    /// Whether it is sent.
    pub included: bool,
    /// Whether only a part of it is.
    pub truncated: bool,
    /// Its size, in tokens, as an estimate.
    pub tokens: u64,
    /// More about it.
    pub detail: Option<String>,
}

/// A context: what would be sent, and what would not.
#[derive(Debug, PartialEq, Eq)]
pub struct Bundle {
    /// Its size in words.
    pub summary: String,
    /// Its pieces.
    pub segments: Vec<Segment>,
}

/// What the analysis is doing.
#[derive(Debug, PartialEq, Eq)]
pub enum AnalysisState {
    /// Nothing requested.
    Idle,
    /// Gathering the context, which is the local half.
    Gathering,
    /// Gathered, and waiting for agreement to send it.
    Confirming,
    /// Waiting for the provider, with the stage it is on.
    Running {
        /// What the job is doing: asking, or repairing.
        stage: String,
    },
    /// Answering, with text arriving.
    Streaming {
        /// What the job is doing: asking, or repairing.
        stage: String,
    },
    /// An analysis is available.
    Ready,
    /// The answer could not be used.
    Unusable {
        /// Why, in the model's words where possible.
        reason: String,
    },
    /// It was stopped.
    Cancelled,
}

impl Default for AnalysisState {
    fn default() -> (r: Self)
        ensures
            r is Idle,
    {
        AnalysisState::Idle
    }
}

impl AnalysisState {
    /// Whether work is in flight.
    pub open spec fn running(self) -> bool {
        self is Gathering || self is Running || self is Streaming
    }

    /// The state in words.
    pub open spec fn words(self) -> Seq<char> {
        match self {
            AnalysisState::Idle => "no analysis"@,
            AnalysisState::Gathering => "gathering the context"@,
            AnalysisState::Confirming => "ready to send; confirm with <leader>a"@,
            AnalysisState::Running { stage } => stage@,
            AnalysisState::Streaming { stage } => stage@,
            AnalysisState::Ready => "analysed"@,
            AnalysisState::Unusable { reason } => "unusable answer: "@ + reason@,
            AnalysisState::Cancelled => "cancelled"@,
        }
    }

    /// Whether work is in flight, which is what `Esc` cancels.
    #[must_use]
    pub fn is_running(&self) -> (r: bool)
        ensures
            r == self.running(),
    {
        matches!(
            self,
            AnalysisState::Gathering | AnalysisState::Running { .. } | AnalysisState::Streaming { .. }
        )
    }

    /// Whether agreement to a send is being asked for.
    #[must_use]
    pub fn is_confirming(&self) -> (r: bool)
        ensures
            r == (self is Confirming),
    {
        matches!(self, AnalysisState::Confirming)
    }

    /// The one-line description for the status area.
    #[must_use]
    pub fn label(&self) -> (r: String)
        ensures
            r@ == self.words(),
    {
        match self {
            AnalysisState::Idle => "no analysis".to_owned(),
            AnalysisState::Gathering => "gathering the context".to_owned(),
            AnalysisState::Confirming => "ready to send; confirm with <leader>a".to_owned(),
            AnalysisState::Running { stage } => stage.clone(),
            AnalysisState::Streaming { stage } => stage.clone(),
            AnalysisState::Ready => "analysed".to_owned(),
            AnalysisState::Unusable { reason } => concat2("unusable answer: ", reason.as_str()),
            AnalysisState::Cancelled => "cancelled".to_owned(),
        }
    }
}

/// A question waiting for agreement is not a run in flight.
pub proof fn lemma_confirming_is_not_running(state: AnalysisState)
    ensures
        !(state is Confirming && state.running()),
{
}

/// Everything the analysis panel owns.
#[derive(Debug)]
pub struct PanelState {
    /// The analysis for the open pull request.
    pub analysis: Option<StoredAnalysis>,
    /// An analysis for the same pull request at an older commit.
    pub stale: Option<StoredAnalysis>,
    /// What the analysis is doing right now.
    pub state: AnalysisState,
    /// The gathered context.
    pub bundle: Option<Bundle>,
    /// Which pull request and commit the context was gathered for.
    pub bundle_for: Option<(u64, String)>,
    /// The review plan in force.
    pub plan: Option<Plan>,
    /// The job id of the run.
    pub job: u64,
    /// The job id of the context gather.
    pub context_job: u64,
    /// The job id of the stored-analysis read.
    pub stored_job: u64,
    /// The text that has streamed in.
    pub stream: StreamBuffer,
    /// What normalization corrected.
    pub warnings: Vec<String>,
    /// The model's unusable text, with the reason.
    pub raw: Option<(String, String)>,
    /// Whether the first send for this repository was confirmed.
    pub confirmed: bool,
    /// The first line the panel shows.
    pub scroll: usize,
}

impl Default for PanelState {
    fn default() -> (r: Self)
        ensures
            r.is_new(),
    {
        PanelState {
            analysis: None,
            stale: None,
            state: AnalysisState::Idle,
            bundle: None,
            bundle_for: None,
            plan: None,
            job: 0,
            context_job: 0,
            stored_job: 0,
            stream: StreamBuffer::default(),
            warnings: Vec::new(),
            raw: None,
            confirmed: false,
            scroll: 0,
        }
    }
}

impl PanelState {
    /// Whether nothing has been asked or answered yet.
    pub open spec fn is_new(&self) -> bool {
        &&& self.analysis is None
        &&& self.stale is None
        &&& self.state is Idle
        &&& self.bundle is None
        &&& self.bundle_for is None
        &&& self.plan is None
        &&& self.job == 0
        &&& self.context_job == 0
        &&& self.stored_job == 0
        &&& self.stream@ == (Seq::<char>::empty(), false)
        &&& self.warnings@.len() == 0
        &&& self.raw is None
        &&& !self.confirmed
        &&& self.scroll == 0
    }

    /// Whether the plan in force was made by hand for the given commit.
    pub open spec fn keeps_plan(&self, head_sha: Seq<char>) -> bool {
        match self.plan {
            Some(plan) => plan.overridden && plan.head_sha@ == head_sha,
            None => false,
        }
    }

    /// The plan that is in force once a document is the current analysis.
    ///
    /// An order made by hand for the same commit stays; any other is replaced by the analysis's.
    pub open spec fn plan_with(&self, stored: StoredAnalysis) -> Option<PlanView> {
        if self.keeps_plan(stored.analysis.head_sha@) {
            opt_plan(self.plan)
        } else {
            Some(stored.analysis.plan@)
        }
    }

    /// Whether a document was taken as the current analysis.
    pub open spec fn holds(&self, before: &PanelState, stored: StoredAnalysis) -> bool {
        &&& *self == (PanelState {
            analysis: Some(stored),
            stale: None,
            raw: None,
            stream: self.stream,
            state: AnalysisState::Ready,
            warnings: self.warnings,
            plan: self.plan,
            ..*before
        })
        &&& self.stream@ == (Seq::<char>::empty(), false)
        &&& self.warnings@ == stored.warnings@
        &&& opt_plan(self.plan) == before.plan_with(stored)
    }

    /// Takes a document as the current analysis.
    pub fn hold(&mut self, stored: StoredAnalysis)
        ensures
            final(self).holds(old(self), stored),
    {
        let keep: bool = match &self.plan {
            Some(plan) => plan.overridden && plan.matches_head(stored.analysis.head_sha.as_str()),
            None => false,
        };
        if !keep {
            self.plan = Some(stored.analysis.plan.clone());
        }
        let warnings = stored.warnings.clone();
        assert(warnings@ =~= stored.warnings@);
        self.warnings = warnings;
        self.stale = None;
        self.raw = None;
        self.stream.clear();
        self.state = AnalysisState::Ready;
        self.analysis = Some(stored);
    }

    /// Offers an analysis of an older commit, which is not the current one.
    pub fn offer(&mut self, stale: Option<StoredAnalysis>)
        ensures
            *final(self) == (PanelState { stale, ..*old(self) }),
    {
        self.stale = stale;
    }

    /// Has no current analysis.
    pub fn rest(&mut self)
        ensures
            *final(self) == (PanelState {
                analysis: None,
                state: AnalysisState::Idle,
                ..*old(self)
            }),
    {
        self.analysis = None;
        self.state = AnalysisState::Idle;
    }

    /// Keeps a text that could not be used, and why.
    pub fn reject(&mut self, reason: String, raw: String)
        ensures
            *final(self) == (PanelState {
                raw: Some((reason, raw)),
                state: AnalysisState::Unusable { reason },
                ..*old(self)
            }),
    {
        self.raw = Some((reason.clone(), raw));
        self.state = AnalysisState::Unusable { reason };
    }

    /// Hands out the gathered context where it is the right one, and drops it where it is not.
    pub fn take_bundle(&mut self, matching: bool) -> (r: Option<Bundle>)
        ensures
            matching ==> r == old(self).bundle && *final(self) == (PanelState {
                bundle: None,
                ..*old(self)
            }),
            !matching ==> r is None && *final(self) == (PanelState {
                bundle: None,
                bundle_for: None,
                ..*old(self)
            }),
    {
        if matching {
            self.bundle.take()
        } else {
            self.bundle = None;
            self.bundle_for = None;
            None
        }
    }
}

} // verus!
