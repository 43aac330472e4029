//! The draft as the interface holds it: staged comments, the composer, the modal.
//!
//! Edits are ordinary method calls; writing the document to disk is for the caller, which is told
//! by a flag that there is something to write.

use vstd::prelude::*;

use crate::draft::{
    label_place, place_label, Decision, Draft, DraftComment, DraftError, DraftView, Side,
    StagedView,
};
use crate::input::TextInput;
use crate::patch::{opt_clone, opt_same, opt_view};
use crate::string_laws::{blank, lemma_trimmed_says_something};
use crate::strings::{concat2, same, trim_end, trimmed, trimmed_end};

verus! {

/// Where a comment will be anchored.
///
/// Taken from the diff row under the cursor, which is the only place these facts agree with what
/// is being looked at.
#[derive(Debug, PartialEq, Eq)]
pub struct Anchor {
    /// The file, as the diff names it.
    pub path: String,
    /// Which side of the hunk the line numbers count from.
    pub side: Side,
    /// The last line of the anchor.
    pub line: u32,
    /// The first line, for a range.
    pub start_line: Option<u32>,
    /// The applied diff revision that supplied the coordinates.
    pub head_sha: Option<String>,
}

/// What an [`Anchor`] says.
pub struct AnchorView {
    pub path: Seq<char>,
    pub side: Side,
    pub line: u32,
    pub start_line: Option<u32>,
    pub head_sha: Option<Seq<char>>,
}

impl View for Anchor {
    type V = AnchorView;

    open spec fn view(&self) -> AnchorView {
        AnchorView {
            path: self.path@,
            side: self.side,
            line: self.line,
            start_line: self.start_line,
            head_sha: opt_view(self.head_sha),
        }
    }
}

impl Clone for Anchor {
    fn clone(&self) -> (r: Self)
        ensures
            r == *self,
    {
        Anchor {
            path: self.path.clone(),
            side: self.side,
            line: self.line,
            start_line: self.start_line,
            head_sha: opt_clone(&self.head_sha),
        }
    }
}

impl AnchorView {
    /// The anchor that covers another one as well as this one, where one can.
    ///
    /// A range has to be in one file, on one side and of one revision.
    pub open spec fn to(self, other: AnchorView) -> Option<AnchorView> {
        if self.path != other.path || self.side != other.side || self.head_sha != other.head_sha {
            None
        } else {
            let start = if self.first() <= other.first() { self.first() } else { other.first() };
            let end = if self.line <= other.line { other.line } else { self.line };
            Some(
                AnchorView {
                    line: end,
                    start_line: if start != end { Some(start) } else { None },
                    ..self
                },
            )
        }
    }

    /// The anchor in words.
    pub open spec fn words(self) -> Seq<char> {
        place_label(self.path, self.side, self.line, self.start_line)
    }

    /// The first line of the anchor.
    pub open spec fn first(self) -> u32 {
        match self.start_line {
            Some(start) => start,
            None => self.line,
        }
    }
}

/// A range is the same whichever end it is made from.
pub proof fn lemma_range_either_way(a: AnchorView, b: AnchorView)
    ensures
        a.to(b) == b.to(a),
{
}

/// A range made from two anchors covers all of both and begins and ends where one of them does.
pub proof fn lemma_range_covers(a: AnchorView, b: AnchorView)
    requires
        a.to(b) is Some,
    ensures
        ({
            let range = a.to(b)->0;
            &&& range.first() <= a.first() && a.line <= range.line
            &&& range.first() <= b.first() && b.line <= range.line
            &&& range.first() == a.first() || range.first() == b.first()
            &&& range.line == a.line || range.line == b.line
            &&& range.path == a.path && range.side == a.side && range.head_sha == a.head_sha
        }),
{
}

impl Anchor {
    /// An anchor for one line.
    #[must_use]
    pub fn line(path: &str, side: Side, line: u32) -> (r: Self)
        ensures
            r@ == (AnchorView { path: path@, side, line, start_line: None, head_sha: None }),
    {
        Anchor { path: path.to_owned(), side, line, start_line: None, head_sha: None }
    }

    fn first_line(&self) -> (r: u32)
        ensures
            r == self@.first(),
    {
        match self.start_line {
            Some(start) => start,
            None => self.line,
        }
    }

    /// The anchor covering `other` as well as itself, if it can.
    #[must_use]
    pub fn extended_to(&self, other: &Self) -> (r: Option<Self>)
        ensures
            match r {
                Some(range) => self@.to(other@) == Some(range@),
                None => self@.to(other@) is None,
            },
    {
        if !same(self.path.as_str(), other.path.as_str()) || self.side != other.side || !opt_same(
            &self.head_sha,
            &other.head_sha,
        ) {
            return None;
        }
        let first: u32 = self.first_line();
        let second: u32 = other.first_line();
        let start: u32 = if first <= second { first } else { second };
        let end: u32 = if self.line <= other.line { other.line } else { self.line };
        Some(
            Anchor {
                path: self.path.clone(),
                side: self.side,
                line: end,
                start_line: if start != end { Some(start) } else { None },
                head_sha: opt_clone(&self.head_sha),
            },
        )
    }

    /// The anchor as it is shown above the composer.
    #[must_use]
    pub fn label(&self) -> (r: String)
        ensures
            r@ == self@.words(),
    {
        label_place(self.path.as_str(), self.side, self.line, self.start_line)
    }

    /// How many lines the anchor covers.
    #[must_use]
    pub fn lines(&self) -> (n: u32)
        requires
            self@.first() <= self.line,
            self.line - self@.first() < u32::MAX,
        ensures
            n == self.line - self@.first() + 1,
    {
        self.line - self.first_line() + 1
    }
}

/// What a comment is being written about.
///
/// The first is staged into the draft and sent later as part of one review; the other two are
/// posted on their own the moment they are confirmed.
#[derive(Debug, PartialEq, Eq)]
pub enum Target {
    /// A line (or range) of the diff: staged, not posted.
    Line(Anchor),
    /// A thread that already exists: the reply is posted on its own.
    Thread {
        /// Where the thread is, for the label.
        anchor: Option<Anchor>,
        /// The comment being answered.
        root: u64,
        /// The thread's id, when it is known.
        thread: Option<String>,
    },
    /// The pull request's own conversation.
    Conversation,
}

/// What a [`Target`] says.
pub enum TargetView {
    Line(AnchorView),
    Thread { anchor: Option<AnchorView>, root: u64, thread: Option<Seq<char>> },
    Conversation,
}

/// What an optional anchor says.
pub open spec fn opt_anchor(anchor: Option<Anchor>) -> Option<AnchorView> {
    match anchor {
        Some(anchor) => Some(anchor@),
        None => None,
    }
}

impl View for Target {
    type V = TargetView;

    open spec fn view(&self) -> TargetView {
        match self {
            Target::Line(anchor) => TargetView::Line(anchor@),
            Target::Thread { anchor, root, thread } => TargetView::Thread {
                anchor: opt_anchor(*anchor),
                root: *root,
                thread: opt_view(*thread),
            },
            Target::Conversation => TargetView::Conversation,
        }
    }
}

impl Clone for Target {
    fn clone(&self) -> (r: Self)
        ensures
            r == *self,
    {
        match self {
            Target::Line(anchor) => Target::Line(anchor.clone()),
            Target::Thread { anchor, root, thread } => Target::Thread {
                anchor: match anchor {
                    Some(anchor) => Some(anchor.clone()),
                    None => None,
                },
                root: *root,
                thread: opt_clone(thread),
            },
            Target::Conversation => Target::Conversation,
        }
    }
}

impl TargetView {
    /// The verb and where the comment lands.
    pub open spec fn heading(self) -> Seq<char> {
        match self {
            TargetView::Line(anchor) => "comment on "@ + anchor.words(),
            TargetView::Thread { anchor: Some(anchor), .. } => "reply on "@ + anchor.words(),
            TargetView::Thread { anchor: None, .. } => "reply on an outdated thread"@,
            TargetView::Conversation => "comment on the pull request's conversation"@,
        }
    }

    /// Where the comment lands.
    pub open spec fn place(self) -> Seq<char> {
        match self {
            TargetView::Line(anchor) => anchor.words(),
            TargetView::Thread { anchor: Some(anchor), .. } => "reply on "@ + anchor.words(),
            TargetView::Thread { anchor: None, .. } => "an outdated thread"@,
            TargetView::Conversation => "the pull request's conversation"@,
        }
    }

    /// The anchor, when there is one.
    pub open spec fn spot(self) -> Option<AnchorView> {
        match self {
            TargetView::Line(anchor) => Some(anchor),
            TargetView::Thread { anchor, .. } => anchor,
            TargetView::Conversation => None,
        }
    }
}

impl Target {
    /// What the composer's title says: the verb and where it lands.
    #[must_use]
    pub fn title(&self) -> (r: String)
        ensures
            r@ == self@.heading(),
    {
        match self {
            Target::Line(anchor) => concat2("comment on ", anchor.label().as_str()),
            Target::Thread { anchor, .. } => match anchor {
                Some(anchor) => concat2("reply on ", anchor.label().as_str()),
                None => "reply on an outdated thread".to_owned(),
            },
            Target::Conversation => "comment on the pull request's conversation".to_owned(),
        }
    }

    /// Where the comment will land, without the verb, for a modal that names it.
    #[must_use]
    pub fn label(&self) -> (r: String)
        ensures
            r@ == self@.place(),
    {
        match self {
            Target::Line(anchor) => anchor.label(),
            Target::Thread { anchor, .. } => match anchor {
                Some(anchor) => concat2("reply on ", anchor.label().as_str()),
                None => "an outdated thread".to_owned(),
            },
            Target::Conversation => "the pull request's conversation".to_owned(),
        }
    }

    /// The anchor, when there is one.
    #[must_use]
    pub fn anchor(&self) -> (r: Option<&Anchor>)
        ensures
            match r {
                Some(anchor) => self@.spot() == Some(anchor@),
                None => self@.spot() is None,
            },
    {
        match self {
            Target::Line(anchor) => Some(anchor),
            Target::Thread { anchor, .. } => match anchor {
                Some(anchor) => Some(anchor),
                None => None,
            },
            Target::Conversation => None,
        }
    }

    /// Whether this is staged into the draft rather than posted on its own.
    #[must_use]
    pub fn is_staged(&self) -> (r: bool)
        ensures
            r == (self is Line),
    {
        matches!(self, Target::Line(_))
    }

    /// Whether this is a reply into an existing thread.
    #[must_use]
    pub fn is_reply(&self) -> (r: bool)
        ensures
            r == (self is Thread),
    {
        matches!(self, Target::Thread { .. })
    }

    /// What `Enter` does, which is not the same thing in all three cases.
    #[must_use]
    pub fn enter_hint(&self) -> (r: &'static str)
        ensures
            r@ == if self is Line {
                "Enter stages it · Alt-Enter adds a line"@
            } else {
                "Enter shows it · Alt-Enter adds a line"@
            },
    {
        if self.is_staged() {
            "Enter stages it · Alt-Enter adds a line"
        } else {
            "Enter shows it · Alt-Enter adds a line"
        }
    }
}

/// The comment being written.
#[derive(Debug, PartialEq, Eq)]
pub struct Composer {
    /// What the comment is about, which decides what happens when it is confirmed.
    pub target: Target,
    /// The text so far.
    pub input: TextInput,
    /// Why the last attempt to stage it was refused.
    pub refusal: Option<String>,
    /// The revision that supplied this target's line coordinates.
    ///
    /// The diff may refresh while the comment is being typed. Keeping this apart from the draft's
    /// first staged anchor keeps old coordinates from being relabelled as a new head.
    pub head_sha: Option<String>,
}

impl Composer {
    /// Whether nothing has been typed and nothing refused.
    pub open spec fn is_new(&self, target: TargetView) -> bool {
        &&& self.target@ == target
        &&& self.input@ == Seq::<char>::empty()
        &&& self.input.cursor == 0
        &&& self.refusal is None
        &&& self.head_sha is None
    }

    /// Opens a composer for a target.
    #[must_use]
    pub fn new(target: Target) -> (r: Self)
        ensures
            r.target == target,
            r.is_new(target@),
    {
        Composer { target, input: TextInput::new(), refusal: None, head_sha: None }
    }

    /// The anchor, when the comment has one.
    #[must_use]
    pub fn anchor(&self) -> (r: Option<&Anchor>)
        ensures
            match r {
                Some(anchor) => self.target@.spot() == Some(anchor@),
                None => self.target@.spot() is None,
            },
    {
        self.target.anchor()
    }

    /// The text, trimmed of the trailing newline a paste tends to leave.
    #[must_use]
    pub fn body(&self) -> (r: String)
        ensures
            r@ == trimmed_end(self.input@),
    {
        let text = self.input.text();
        trim_end(text.as_str())
    }

    /// Captures the revision that supplied this composer's line target.
    pub fn capture_head(&mut self, head_sha: Option<String>)
        ensures
            *final(self) == (Composer { head_sha, ..*old(self) }),
    {
        self.head_sha = head_sha;
    }
}

/// A message waiting for its second Enter.
#[derive(Debug, PartialEq, Eq)]
pub struct PendingPost {
    /// What is being answered, or that it is the conversation.
    pub target: Target,
    /// What it says, as it was when the composer was confirmed.
    pub body: String,
}

/// What the review actions are doing.
#[derive(Debug, PartialEq, Eq)]
pub enum DraftStatus {
    /// Nothing in flight.
    Idle,
    /// A publish is in flight; the modal says so and the key does nothing.
    Publishing,
    /// A dry run recorded the requested mutation without sending it.
    DryRun,
    /// The last publish failed, with the reason.
    Failed {
        /// What the other side said.
        reason: String,
    },
}

impl Default for DraftStatus {
    fn default() -> (r: Self)
        ensures
            r is Idle,
    {
        DraftStatus::Idle
    }
}

impl DraftStatus {
    /// Whether a publish is in flight, which is what disables the button.
    #[must_use]
    pub fn is_publishing(&self) -> (r: bool)
        ensures
            r == (self is Publishing),
    {
        matches!(self, DraftStatus::Publishing)
    }

    /// The status in words.
    pub open spec fn words(self) -> Seq<char> {
        match self {
            DraftStatus::Idle => "idle"@,
            DraftStatus::Publishing => "publishing…"@,
            DraftStatus::DryRun => "dry run recorded"@,
            DraftStatus::Failed { reason } => "failed: "@ + reason@,
        }
    }

    /// One line for the status area.
    #[must_use]
    pub fn label(&self) -> (r: String)
        ensures
            r@ == self.words(),
    {
        match self {
            DraftStatus::Idle => "idle".to_owned(),
            DraftStatus::Publishing => "publishing…".to_owned(),
            DraftStatus::DryRun => "dry run recorded".to_owned(),
            DraftStatus::Failed { reason } => concat2("failed: ", reason.as_str()),
        }
    }
}

/// Everything the review actions own.
#[derive(Debug)]
pub struct DraftState {
    /// The draft for the open pull request.
    pub draft: Draft,
    /// Whether there is a pull request open to draft against.
    pub open: bool,
    /// The comment being written, when the composer is open.
    pub composer: Option<Composer>,
    /// The reply or conversation comment waiting for its second Enter.
    ///
    /// Separate from the composer because it is what will be sent: the composer is what is being
    /// typed, and this is the frozen copy that was confirmed.
    pub post: Option<PendingPost>,
    /// Where a range selection started, when one is in progress.
    pub selection: Option<Anchor>,
    /// Whether the draft panel is what the overlay shows.
    pub panel: bool,
    /// Whether the publish modal is open.
    pub modal: bool,
    /// Whether the modal's second confirm has been given.
    pub armed: bool,
    /// What the last action is doing.
    pub status: DraftStatus,
    /// The job id of the publish in flight.
    pub job: u64,
    /// The job id of the reply or conversation comment in flight.
    ///
    /// Its own field: a review and a reply can be in flight at once, and one field for both would
    /// drop the completion of whichever started first.
    pub post_job: u64,
    /// The immutable review snapshot that was submitted.
    pub publishing_draft: Option<Draft>,
    /// A prior dispatch has no locally known result and blocks a blind repeat.
    pub unresolved_mutation: bool,
    /// The number in the draft panel the cursor is on, for removing.
    pub cursor: usize,
    /// Whether the draft has changed since it was last written.
    pub dirty: bool,
    /// Monotonic revision of the in-memory draft.
    pub revision: u64,
    /// The latest queued or running save or delete job.
    pub save_job: u64,
    /// A draft that could not be read, or a save that failed.
    pub warning: Option<String>,
    /// How far the modal is scrolled.
    pub scroll: usize,
}

/// The revision after one more change.
pub open spec fn next_revision(revision: u64) -> u64 {
    if revision < u64::MAX { (revision + 1) as u64 } else { revision }
}

/// Whether the range that was refused is said to start where it does.
pub open spec fn range_refusal(start: AnchorView) -> Seq<char> {
    "a range has to stay in one file, on one side and on one displayed revision — the selection starts at "@
        + start.words()
}

impl Default for DraftState {
    fn default() -> (r: Self)
        ensures
            r.is_shut(),
            r.draft@ == DraftView::blank(0, 0),
            r.revision == 0,
            r.save_job == 0,
            r.warning is None,
    {
        DraftState {
            draft: Draft::new(0, 0),
            open: false,
            composer: None,
            post: None,
            selection: None,
            panel: false,
            modal: false,
            armed: false,
            status: DraftStatus::Idle,
            job: 0,
            post_job: 0,
            publishing_draft: None,
            unresolved_mutation: false,
            cursor: 1,
            dirty: false,
            revision: 0,
            save_job: 0,
            warning: None,
            scroll: 0,
        }
    }
}

impl DraftState {
    /// Whether nothing is on screen, selected, in flight or unwritten.
    pub open spec fn is_quiet(&self) -> bool {
        &&& self.composer is None
        &&& self.post is None
        &&& self.selection is None
        &&& !self.panel
        &&& !self.modal
        &&& !self.armed
        &&& self.status is Idle
        &&& self.job == 0
        &&& self.post_job == 0
        &&& self.publishing_draft is None
        &&& !self.unresolved_mutation
        &&& self.cursor == 1
        &&& !self.dirty
        &&& self.scroll == 0
    }

    /// Whether no pull request is open.
    pub open spec fn is_shut(&self) -> bool {
        self.is_quiet() && !self.open
    }

    /// Whether the panel's cursor is on a comment, or on the first row where there is none.
    pub open spec fn cursor_fits(&self) -> bool {
        1 <= self.cursor && (self.cursor <= self.draft@.comments.len() || self.cursor == 1)
    }

    /// Marks the document changed, assigning the revision that a write must match before it may
    /// say the draft is safe.
    fn mark_dirty(&mut self)
        ensures
            *final(self) == (DraftState {
                dirty: true,
                revision: next_revision(old(self).revision),
                ..*old(self)
            }),
    {
        self.dirty = true;
        self.revision = self.revision.saturating_add(1);
    }

    /// Adopts a draft for the open pull request.
    pub fn open(&mut self, draft: Draft, warning: Option<String>)
        ensures
            final(self).draft == draft,
            final(self).open,
            final(self).is_quiet(),
            final(self).warning == warning,
            final(self).revision == old(self).revision,
            final(self).save_job == old(self).save_job,
    {
        self.draft = draft;
        self.open = true;
        self.panel = false;
        self.modal = false;
        self.armed = false;
        self.composer = None;
        self.post = None;
        self.selection = None;
        self.status = DraftStatus::Idle;
        self.job = 0;
        self.post_job = 0;
        self.publishing_draft = None;
        self.unresolved_mutation = false;
        self.cursor = 1;
        self.scroll = 0;
        self.dirty = false;
        self.warning = warning;
    }

    /// Forgets the pull request, keeping nothing.
    pub fn close(&mut self)
        ensures
            final(self).draft@ == DraftView::blank(0, 0),
            final(self).is_shut(),
            final(self).warning is None,
            final(self).revision == old(self).revision,
            final(self).save_job == old(self).save_job,
    {
        self.open(Draft::new(0, 0), None);
        self.open = false;
    }

    /// Whether there is a composer on screen.
    #[must_use]
    pub fn is_composing(&self) -> (r: bool)
        ensures
            r == (self.composer is Some),
    {
        self.composer.is_some()
    }

    /// Whether anything blocks the ordinary key handling.
    #[must_use]
    pub fn takes_keyboard(&self) -> (r: bool)
        ensures
            r == (self.composer is Some || self.modal),
    {
        self.composer.is_some() || self.modal
    }

    /// Whether a new composer for a target is all that changed, and the selection is gone.
    pub open spec fn composing(&self, before: &DraftState, target: TargetView) -> bool {
        &&& *self == (DraftState { composer: self.composer, selection: None, ..*before })
        &&& self.composer is Some
        &&& self.composer->0.is_new(target)
    }

    /// Opens the composer for one line.
    pub fn compose(&mut self, anchor: Anchor)
        ensures
            final(self).composing(old(self), TargetView::Line(anchor@)),
    {
        self.compose_target(Target::Line(anchor));
    }

    /// Opens the composer to answer a comment that is already there.
    pub fn compose_reply(&mut self, anchor: Option<Anchor>, root: u64, thread: Option<String>)
        ensures
            final(self).composing(
                old(self),
                TargetView::Thread { anchor: opt_anchor(anchor), root, thread: opt_view(thread) },
            ),
    {
        self.compose_target(Target::Thread { anchor, root, thread });
    }

    /// Opens the composer for the pull request's own conversation.
    pub fn compose_conversation(&mut self)
        ensures
            final(self).composing(old(self), TargetView::Conversation),
    {
        self.compose_target(Target::Conversation);
    }

    /// Opens the composer for any target, which is the only place it is set.
    pub fn compose_target(&mut self, target: Target)
        ensures
            final(self).composing(old(self), target@),
    {
        self.composer = Some(Composer::new(target));
        self.selection = None;
    }

    /// Marks the start of a range.
    pub fn start_selection(&mut self, anchor: Anchor)
        ensures
            *final(self) == (DraftState { selection: Some(anchor), ..*old(self) }),
    {
        self.selection = Some(anchor);
    }

    /// Whether a composer was opened for a range, or why it was not said.
    pub open spec fn range_composed(
        &self,
        before: &DraftState,
        start: &Anchor,
        end: Anchor,
        r: Result<(), String>,
    ) -> bool {
        &&& *self == (DraftState {
            composer: self.composer,
            selection: None,
            ..*before
        })
        &&& self.composer is Some
        &&& match start@.to(end@) {
            Some(range) => r is Ok && self.composer->0.is_new(TargetView::Line(range)),
            None => {
                &&& r is Err
                &&& r->Err_0@ == range_refusal(start@)
                &&& self.composer->0.target@ == TargetView::Line(end@)
                &&& self.composer->0.input@ == Seq::<char>::empty()
                &&& opt_view(self.composer->0.refusal) == Some(range_refusal(start@))
                &&& self.composer->0.head_sha is None
            },
        }
    }

    /// Opens the composer for a range.
    ///
    /// A range that cannot be made is refused with the reason, which is also recorded on the
    /// composer, which is what the pane shows.
    pub fn compose_range(&mut self, start: &Anchor, end: Anchor) -> (r: Result<(), String>)
        ensures
            final(self).range_composed(old(self), start, end, r),
    {
        match start.extended_to(&end) {
            Some(range) => {
                self.compose(range);
                Ok(())
            },
            None => {
                let mut composer = Composer::new(Target::Line(end));
                let reason = concat2(
                    "a range has to stay in one file, on one side and on one displayed revision — the selection starts at ",
                    start.label().as_str(),
                );
                composer.refusal = Some(reason.clone());
                self.composer = Some(composer);
                self.selection = None;
                Err(reason)
            },
        }
    }

    /// Closes the composer, keeping nothing.
    pub fn cancel_composer(&mut self)
        ensures
            *final(self) == (DraftState { composer: None, selection: None, ..*old(self) }),
    {
        self.composer = None;
        self.selection = None;
    }

    /// The comment that the composer would stage.
    pub open spec fn staged(&self) -> Option<StagedView> {
        match self.composer {
            Some(composer) => match composer.target@ {
                TargetView::Line(anchor) => if trimmed(trimmed_end(composer.input@)).len() > 0 {
                    Some(
                        StagedView {
                            path: anchor.path,
                            side: anchor.side,
                            line: anchor.line,
                            start_line: anchor.start_line,
                            body: trimmed_end(composer.input@),
                        },
                    )
                } else {
                    None
                },
                _ => None,
            },
            None => None,
        }
    }

    /// Whether another state is this one after the given comment was staged.
    pub open spec fn with_staged(&self, after: &DraftState, comment: StagedView, now: i64) -> bool {
        &&& *after == (DraftState {
            draft: after.draft,
            composer: None,
            selection: None,
            cursor: 1,
            dirty: true,
            revision: next_revision(self.revision),
            ..*self
        })
        &&& after.draft@ == (DraftView {
            comments: seq![comment] + self.draft@.comments,
            updated_at: now,
            ..self.draft@
        })
    }

    /// Whether another state is this one after what the composer holds was not staged, which it then
    /// says.
    pub open spec fn not_staged(&self, after: &DraftState) -> bool {
        &&& *after == (DraftState {
            composer: after.composer,
            ..*self
        })
        &&& match self.composer {
            Some(composer) => {
                &&& after.composer is Some
                &&& after.composer->0.target == composer.target
                &&& if composer.target is Line {
                    &&& after.composer->0 == (Composer {
                        refusal: after.composer->0.refusal,
                        ..composer
                    })
                    &&& opt_view(after.composer->0.refusal) == Some(
                        DraftError::EmptyBody.reason(),
                    )
                } else {
                    &&& after.composer->0.input@ == Seq::<char>::empty()
                    &&& after.composer->0.head_sha is None
                    &&& opt_view(after.composer->0.refusal) == Some(
                        "a reply is posted on its own; Enter shows it before it goes"@,
                    )
                }
            },
            None => after.composer is None,
        }
    }

    /// Stages what the composer holds.
    ///
    /// A refusal is also recorded on the composer, which is what the pane shows: one that cannot
    /// be seen is a keypress that did nothing.
    pub fn stage(&mut self, now: i64) -> (r: Result<(), DraftError>)
        ensures
            match old(self).staged() {
                Some(comment) => {
                    &&& r is Ok
                    &&& old(self).with_staged(final(self), comment, now)
                },
                None => {
                    &&& r == Err::<(), DraftError>(DraftError::EmptyBody)
                    &&& old(self).not_staged(final(self))
                },
            },
            r is Ok ==> old(self).composer is Some && old(self).composer->0.target is Line && {
                let anchor = old(self).composer->0.target->Line_0;
                let first = final(self).draft.comments@[0];
                &&& final(self).draft.comments@.len() == old(self).draft.comments@.len() + 1
                &&& first.path@ == anchor.path@
                &&& first.side == anchor.side
                &&& first.line == anchor.line
                &&& first.start_line == anchor.start_line
                &&& first.body@ == trimmed_end(old(self).composer->0.input@)
            },
    {
        let taken = self.composer.take();
        match taken {
            None => Err(DraftError::EmptyBody),
            Some(mut composer) => {
                if !composer.target.is_staged() {
                    let mut fresh = Composer::new(composer.target);
                    fresh.refusal =
                    Some("a reply is posted on its own; Enter shows it before it goes".to_owned());
                    self.composer = Some(fresh);
                    return Err(DraftError::EmptyBody);
                }
                let body = composer.body();
                let made: Result<DraftComment, DraftError> = match &composer.target {
                    Target::Line(anchor) => DraftComment::new(
                        anchor.path.clone(),
                        anchor.side,
                        anchor.line,
                        anchor.start_line,
                        body,
                    ),
                    _ => Err(DraftError::EmptyBody),
                };
                match made {
                    Ok(comment) => {
                        self.draft.insert(comment, now);
                        self.composer = None;
                        self.selection = None;
                        self.cursor = 1;
                        self.mark_dirty();
                        Ok(())
                    },
                    Err(error) => {
                        composer.refusal = Some(error.message().to_owned());
                        self.composer = Some(composer);
                        Err(error)
                    },
                }
            },
        }
    }

    /// Whether a staged comment was taken out.
    pub open spec fn comment_removed(
        &self,
        before: &DraftState,
        number: usize,
        now: i64,
        r: Option<DraftComment>,
    ) -> bool {
        &&& match r {
            Some(comment) => {
                &&& 1 <= number <= before.draft@.comments.len()
                &&& comment@ == before.draft@.comments[number - 1]
                &&& self.draft@ == before.draft@.without(number as nat, now)
                &&& *self == (DraftState {
                    draft: self.draft,
                    dirty: true,
                    revision: next_revision(before.revision),
                    cursor: crate::discussion::one_to(
                        before.cursor as int,
                        self.draft@.comments.len(),
                    ) as usize,
                    ..*before
                })
                &&& self.cursor_fits()
            },
            None => {
                &&& number < 1 || number > before.draft@.comments.len()
                &&& *self == *before
            },
        }
    }

    /// Removes a staged comment by its panel number.
    pub fn remove(&mut self, number: usize, now: i64) -> (r: Option<DraftComment>)
        ensures
            final(self).comment_removed(old(self), number, now, r),
    {
        let removed = self.draft.remove(number, now);
        if removed.is_some() {
            self.mark_dirty();
            self.clamp_cursor();
        }
        removed
    }

    /// Whether the draft says nothing any more.
    pub open spec fn emptied(&self, before: &DraftState, now: i64) -> bool {
        &&& *self == (DraftState {
            draft: self.draft,
            dirty: true,
            revision: next_revision(before.revision),
            cursor: 1,
            armed: false,
            ..*before
        })
        &&& self.draft@ == before.draft@.emptied(now)
    }

    /// Clears every staged comment, the decision and the body.
    pub fn clear(&mut self, now: i64)
        ensures
            final(self).emptied(old(self), now),
    {
        self.draft.clear(now);
        self.mark_dirty();
        self.cursor = 1;
        self.armed = false;
    }

    /// Whether the verdict was given.
    pub open spec fn decided(
        &self,
        before: &DraftState,
        decision: Option<Decision>,
        now: i64,
    ) -> bool {
        &&& *self == (DraftState {
            draft: Draft { decision, updated_at: now, ..before.draft },
            dirty: true,
            revision: next_revision(before.revision),
            ..*before
        })
    }

    /// Records the decision.
    pub fn set_decision(&mut self, decision: Option<Decision>, now: i64)
        ensures
            final(self).decided(old(self), decision, now),
    {
        self.draft.set_decision(decision, now);
        self.mark_dirty();
    }

    /// Whether the review says something of its own.
    pub open spec fn body_set(&self, before: &DraftState, body: &str, now: i64) -> bool {
        &&& *self == (DraftState {
            draft: Draft { body: self.draft.body, updated_at: now, ..before.draft },
            dirty: true,
            revision: next_revision(before.revision),
            ..*before
        })
        &&& opt_view(self.draft.body) == if trimmed(body@).len() == 0 {
            None
        } else {
            Some(body@)
        }
    }

    /// Records the review body.
    pub fn set_body(&mut self, body: &str, now: i64)
        ensures
            final(self).body_set(old(self), body, now),
    {
        self.draft.set_body(body, now);
        self.mark_dirty();
    }

    /// Whether a draft without a commit remembers one.
    pub open spec fn anchored_to(&self, before: &DraftState, head_sha: &str) -> bool {
        &&& if before.draft.head_sha is Some || head_sha@.len() == 0 {
            *self == *before
        } else {
            &&& *self == (DraftState {
                draft: Draft { head_sha: self.draft.head_sha, ..before.draft },
                dirty: true,
                revision: next_revision(before.revision),
                ..*before
            })
            &&& self.draft@.head_sha == Some(head_sha@)
        }
    }

    /// Remembers the commit the first comment is written against.
    ///
    /// An existing anchor is historical data, not a cache of the current view, so only a draft
    /// without one may acquire a head here.
    pub fn anchor_to(&mut self, head_sha: &str)
        ensures
            final(self).anchored_to(old(self), head_sha),
    {
        if self.draft.head_sha.is_some() || head_sha.is_empty() {
            return;
        }
        self.draft.head_sha = Some(head_sha.to_owned());
        self.mark_dirty();
    }

    /// Whether the draft has drifted from the commit on screen.
    #[must_use]
    pub fn drifted(&self, head_sha: Option<&str>) -> (r: bool)
        ensures
            r == match (self.draft@.head_sha, head_sha) {
                (Some(own), Some(other)) => own != other@,
                _ => false,
            },
    {
        self.draft.drifted_from(head_sha)
    }

    /// The comments anchored at a line, for the gutter marker.
    #[must_use]
    pub fn at(&self, path: &str, side: Side, line: u32) -> (n: usize)
        ensures
            n == self.draft@.count_at(path@, side, line, self.draft@.comments.len()),
    {
        self.draft.at(path, side, line)
    }

    /// Whether a line of a file carries a staged comment.
    pub open spec fn marked(&self, path: Seq<char>, side: Option<Side>, line: Option<u32>) -> bool {
        match (side, line) {
            (Some(side), Some(line)) => self.draft@.count_at(
                path,
                side,
                line,
                self.draft@.comments.len(),
            ) > 0,
            _ => false,
        }
    }

    /// Whether a row's line carries a staged comment.
    #[must_use]
    pub fn marks(&self, path: &str, side: Option<Side>, line: Option<u32>) -> (r: bool)
        ensures
            r == self.marked(path@, side, line),
    {
        match (side, line) {
            (Some(side), Some(line)) => self.at(path, side, line) > 0,
            _ => false,
        }
    }

    /// The place a move starts from.
    pub open spec fn start(&self) -> int {
        if self.cursor <= isize::MAX { self.cursor as int } else { 1 }
    }

    /// Moves the draft panel's cursor.
    pub fn move_cursor(&mut self, delta: isize)
        requires
            old(self).draft@.comments.len() > 0 ==> isize::MIN <= old(self).start() + delta
                <= isize::MAX,
        ensures
            *final(self) == (DraftState { cursor: final(self).cursor, ..*old(self) }),
            final(self).cursor == crate::discussion::one_to(
                old(self).start() + delta,
                if old(self).draft@.comments.len() <= isize::MAX {
                    old(self).draft@.comments.len()
                } else {
                    isize::MAX as nat
                },
            ),
            final(self).cursor_fits(),
    {
        let total: usize = self.draft.comments.len();
        assert(self.draft@.comments.len() == total);
        if total == 0 {
            self.cursor = 1;
            return;
        }
        let count: isize = if total <= isize::MAX as usize { total as isize } else { isize::MAX };
        let current: isize = if self.cursor <= isize::MAX as usize { self.cursor as isize } else { 1 };
        let moved: isize = current + delta;
        let kept: isize = if moved < 1 { 1 } else if moved > count { count } else { moved };
        self.cursor = kept as usize;
    }

    /// The comment the panel's cursor is on.
    #[must_use]
    pub fn selected(&self) -> (r: Option<&DraftComment>)
        ensures
            r == if 1 <= self.cursor <= self.draft.comments@.len() {
                Some(&self.draft.comments@[self.cursor - 1])
            } else {
                None
            },
    {
        if 1 <= self.cursor && self.cursor <= self.draft.comments.len() {
            Some(&self.draft.comments[self.cursor - 1])
        } else {
            None
        }
    }

    fn clamp_cursor(&mut self)
        ensures
            *final(self) == (DraftState {
                cursor: crate::discussion::one_to(
                    old(self).cursor as int,
                    old(self).draft@.comments.len(),
                ) as usize,
                ..*old(self)
            }),
    {
        let count: usize = self.draft.comments.len();
        assert(self.draft@.comments.len() == count);
        let last: usize = if count > 1 { count } else { 1 };
        if self.cursor < 1 {
            self.cursor = 1;
        } else if self.cursor > last {
            self.cursor = last;
        }
    }

    /// Whether the publish modal was opened, or why it was not said.
    pub open spec fn modal_opened(&self, before: &DraftState, r: Result<(), DraftError>) -> bool {
        &&& if before.draft@.says_nothing() {
            &&& r == Err::<(), DraftError>(DraftError::NothingToSay)
            &&& *self == *before
        } else {
            &&& r is Ok
            &&& *self == (DraftState {
                modal: true,
                armed: false,
                scroll: 0,
                status: DraftStatus::Idle,
                ..*before
            })
        }
    }

    /// Opens the publish modal, or says why it will not.
    pub fn open_modal(&mut self) -> (r: Result<(), DraftError>)
        ensures
            final(self).modal_opened(old(self), r),
    {
        match self.draft.publishable() {
            Err(error) => {
                return Err(error);
            },
            Ok(()) => {},
        }
        self.modal = true;
        self.armed = false;
        self.scroll = 0;
        self.status = DraftStatus::Idle;
        Ok(())
    }

    /// Closes the modal.
    ///
    /// A finished dry run means something only for the action still in the modal: keeping it would
    /// make the next post look complete before it ran.
    pub fn close_modal(&mut self)
        ensures
            *final(self) == (DraftState {
                modal: false,
                armed: false,
                scroll: 0,
                status: DraftStatus::Idle,
                ..*old(self)
            }),
    {
        self.modal = false;
        self.armed = false;
        self.scroll = 0;
        self.status = DraftStatus::Idle;
    }

    /// Whether the draft is still the one that was submitted.
    pub open spec fn unchanged_since_submit(&self) -> bool {
        match self.publishing_draft {
            Some(submitted) => submitted@ == self.draft@,
            None => false,
        }
    }

    /// Whether a review was posted.
    pub open spec fn review_posted(
        &self,
        before: &DraftState,
        url: Option<&str>,
        now: i64,
    ) -> bool {
        &&& *self == (DraftState {
            draft: self.draft,
            publishing_draft: None,
            dirty: self.dirty,
            revision: self.revision,
            job: 0,
            status: DraftStatus::Idle,
            modal: false,
            armed: false,
            cursor: 1,
            warning: self.warning,
            ..*before
        })
        &&& if before.unchanged_since_submit() {
            &&& self.draft@ == before.draft@.emptied(now)
            &&& self.dirty
            &&& self.revision == next_revision(before.revision)
        } else {
            &&& self.draft == before.draft
            &&& self.dirty == before.dirty
            &&& self.revision == before.revision
        }
        &&& opt_view(self.warning) == match url {
            Some(url) => Some("review posted: "@ + url@),
            None => None,
        }
    }

    /// Records that the publish succeeded.
    ///
    /// The draft is cleared only if it is what was submitted: writing added after the dispatch is
    /// kept.
    pub fn published(&mut self, url: Option<&str>, now: i64)
        ensures
            final(self).review_posted(old(self), url, now),
    {
        let submitted = self.publishing_draft.take();
        let unchanged: bool = match &submitted {
            Some(submitted) => submitted.same(&self.draft),
            None => false,
        };
        if unchanged {
            self.draft.clear(now);
            self.mark_dirty();
        }
        self.job = 0;
        self.status = DraftStatus::Idle;
        self.modal = false;
        self.armed = false;
        self.cursor = 1;
        self.warning = match url {
            Some(url) => Some(concat2("review posted: ", url)),
            None => None,
        };
    }

    /// Whether a review could not be posted.
    pub open spec fn review_refused(&self, before: &DraftState, reason: &str) -> bool {
        &&& *self == (DraftState {
            job: 0,
            publishing_draft: None,
            armed: false,
            status: self.status,
            ..*before
        })
        &&& self.status is Failed
        &&& self.status->reason@ == reason@
    }

    /// Records that the publish failed, keeping the draft.
    pub fn publish_failed(&mut self, reason: &str)
        ensures
            final(self).review_refused(old(self), reason),
    {
        self.job = 0;
        self.publishing_draft = None;
        self.armed = false;
        self.status = DraftStatus::Failed { reason: reason.to_owned() };
    }
}

proof fn lemma_counts_grow(draft: DraftView, path: Seq<char>, side: Side, line: u32, n: nat, m: nat)
    requires
        n <= m,
    ensures
        draft.count_at(path, side, line, n) <= draft.count_at(path, side, line, m),
    decreases m,
{
    if n < m {
        lemma_counts_grow(draft, path, side, line, n, (m - 1) as nat);
    }
}

/// Staging a comment about a line or a range keeps all of it: the comment that now stands first has
/// the file, the side, the first line and the last line that the composer was opened for, and says
/// what was typed. The comments that were there follow in their order, and the rest of the draft is
/// what it was.
pub proof fn lemma_staging_keeps_the_range(
    before: DraftState,
    after: DraftState,
    comment: StagedView,
    now: i64,
)
    requires
        before.staged() == Some(comment),
        before.with_staged(&after, comment, now),
    ensures
        before.composer is Some,
        before.composer->0.target is Line,
        ({
            let anchor = before.composer->0.target->Line_0;
            let first = after.draft@.comments[0];
            &&& after.draft@.comments.len() == before.draft@.comments.len() + 1
            &&& first.path == anchor.path@
            &&& first.side == anchor.side
            &&& first.line == anchor.line
            &&& match anchor.start_line {
                Some(start) => first.start_line == Some(start),
                None => first.start_line is None,
            }
            &&& first.body == trimmed_end(before.composer->0.input@)
        }),
        forall|i: int|
            0 <= i < before.draft@.comments.len() ==> #[trigger] before.draft@.comments[i]
                == after.draft@.comments[i + 1],
        after.draft@.decision == before.draft@.decision,
        after.draft@.body == before.draft@.body,
        after.draft@.head_sha == before.draft@.head_sha,
        after.draft@.pr == before.draft@.pr,
        after.draft@.updated_at == now,
        after.composer is None,
        after.dirty,
        after.cursor == 1,
{
}

/// What the composer holds is staged exactly when it is about a line and some of it is not blank.
pub proof fn lemma_only_what_says_something_is_staged(state: DraftState)
    ensures
        state.staged() is Some <==> state.composer is Some && state.composer->0.target is Line
            && !blank(state.composer->0.input@),
{
    if state.composer is Some {
        lemma_trimmed_says_something(state.composer->0.input@);
    }
}

/// A staged comment marks the line it is about, and taking it out again leaves the comments there
/// were.
pub proof fn lemma_staging_marks_the_line(before: DraftView, after: DraftView, comment: StagedView)
    requires
        after.comments == seq![comment] + before.comments,
    ensures
        after.count_at(comment.path, comment.side, comment.line, after.comments.len()) > 0,
        after.comments.remove(0) == before.comments,
{
    lemma_counts_grow(
        after,
        comment.path,
        comment.side,
        comment.line,
        1,
        after.comments.len(),
    );
    assert(after.comments[0] == comment);
    assert(after.count_at(comment.path, comment.side, comment.line, 0) == 0);
    assert(after.count_at(comment.path, comment.side, comment.line, 1) > 0);
    assert(after.comments.remove(0) =~= before.comments);
}

/// What is not staged is not lost: a comment about a line keeps what was typed, and says why it was
/// refused; the draft and all else are as they were.
pub proof fn lemma_what_is_not_staged_is_kept(before: DraftState, after: DraftState)
    requires
        before.not_staged(&after),
    ensures
        after.draft == before.draft,
        after.dirty == before.dirty,
        after.revision == before.revision,
        after.composer is Some <==> before.composer is Some,
        before.composer is Some ==> after.composer->0.target == before.composer->0.target
            && after.composer->0.refusal is Some,
        before.composer is Some && before.composer->0.target is Line ==> after.composer->0.input
            == before.composer->0.input && after.composer->0.head_sha == before.composer->0.head_sha,
{
}

/// A composer opens empty, for what it was asked for, and changes nothing of the draft.
pub proof fn lemma_a_composer_opens_empty(before: DraftState, after: DraftState, target: TargetView)
    requires
        after.composing(&before, target),
    ensures
        after.composer is Some,
        after.composer->0.target@ == target,
        after.composer->0.input@.len() == 0,
        after.composer->0.refusal is None,
        after.draft == before.draft,
        after.selection is None,
        after.staged() is None,
{
    lemma_only_what_says_something_is_staged(after);
}

} // verus!
