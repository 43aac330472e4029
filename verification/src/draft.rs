//! A review before it is sent: the staged comments, the verdict and the body.

use vstd::prelude::*;

use crate::patch::{opt_clone, opt_same, opt_view};
use crate::strings::{concat2, concat3, concat5, decimal, number, same, trim, trimmed};

verus! {

/// Which side of a hunk a line number counts from.
#[derive(Debug, Clone, Copy, PartialEq, Eq, Structural)]
pub enum Side {
    /// The file as it was.
    Old,
    /// The file as it will be.
    New,
}

impl Side {
    /// The name of a side.
    pub open spec fn name(self) -> Seq<char> {
        match self {
            Side::Old => "old"@,
            Side::New => "new"@,
        }
    }

    /// The side's name.
    #[must_use]
    pub fn label(self) -> (r: &'static str)
        ensures
            r@ == self.name(),
    {
        match self {
            Side::Old => "old",
            Side::New => "new",
        }
    }
}

/// The verdict of a review.
#[derive(Debug, Clone, Copy, PartialEq, Eq, Structural)]
pub enum Decision {
    /// The pull request may be merged.
    Approve,
    /// It may not be merged as it is.
    RequestChanges,
    /// No verdict.
    Comment,
}

impl Decision {
    /// The name of a decision.
    pub open spec fn name(self) -> Seq<char> {
        match self {
            Decision::Approve => "approve"@,
            Decision::RequestChanges => "request changes"@,
            Decision::Comment => "comment"@,
        }
    }

    /// The decision's name.
    #[must_use]
    pub fn label(self) -> (r: &'static str)
        ensures
            r@ == self.name(),
    {
        match self {
            Decision::Approve => "approve",
            Decision::RequestChanges => "request changes",
            Decision::Comment => "comment",
        }
    }
}

/// Why something cannot be staged or sent.
#[derive(Debug, Clone, Copy, PartialEq, Eq, Structural)]
pub enum DraftError {
    /// A comment has no text.
    EmptyBody,
    /// A review has neither comments, nor a body, nor a verdict.
    NothingToSay,
}

impl DraftError {
    /// The reason in words.
    pub open spec fn reason(self) -> Seq<char> {
        match self {
            DraftError::EmptyBody => "a comment needs a body"@,
            DraftError::NothingToSay => "the review says nothing yet"@,
        }
    }

    /// The reason in words.
    #[must_use]
    pub fn message(self) -> (r: &'static str)
        ensures
            r@ == self.reason(),
    {
        match self {
            DraftError::EmptyBody => "a comment needs a body",
            DraftError::NothingToSay => "the review says nothing yet",
        }
    }
}

/// A place in a file, as it is shown: `path:line (side)` or `path:first-last (side)`.
pub open spec fn place_label(path: Seq<char>, side: Side, line: u32, start_line: Option<u32>) -> Seq<
    char,
> {
    let lines = match start_line {
        Some(start) => decimal(start as nat) + "-"@ + decimal(line as nat),
        None => decimal(line as nat),
    };
    path + ":"@ + lines + " ("@ + side.name() + ")"@
}

/// A place in a file, as it is shown.
pub fn label_place(path: &str, side: Side, line: u32, start_line: Option<u32>) -> (r: String)
    ensures
        r@ == place_label(path@, side, line, start_line),
{
    let lines: String = match start_line {
        Some(start) => concat3(number(start as u64).as_str(), "-", number(line as u64).as_str()),
        None => number(line as u64),
    };
    let mut out = concat5(path, ":", lines.as_str(), " (", side.label());
    out.append(")");
    out
}

/// A staged comment.
#[derive(Debug, PartialEq, Eq)]
pub struct DraftComment {
    /// The file it is about.
    pub path: String,
    /// Which side its lines count from.
    pub side: Side,
    /// The last line it is about.
    pub line: u32,
    /// The first line, for a range.
    pub start_line: Option<u32>,
    /// What it says.
    pub body: String,
}

/// What a [`DraftComment`] says.
pub struct StagedView {
    pub path: Seq<char>,
    pub side: Side,
    pub line: u32,
    pub start_line: Option<u32>,
    pub body: Seq<char>,
}

impl View for DraftComment {
    type V = StagedView;

    open spec fn view(&self) -> StagedView {
        StagedView {
            path: self.path@,
            side: self.side,
            line: self.line,
            start_line: self.start_line,
            body: self.body@,
        }
    }
}

impl Clone for DraftComment {
    fn clone(&self) -> (r: Self)
        ensures
            r == *self,
    {
        DraftComment {
            path: self.path.clone(),
            side: self.side,
            line: self.line,
            start_line: self.start_line,
            body: self.body.clone(),
        }
    }
}

impl DraftComment {
    /// A comment on a line or a range, refused when it says nothing.
    pub fn new(path: String, side: Side, line: u32, start_line: Option<u32>, body: String) -> (r:
        Result<DraftComment, DraftError>)
        ensures
            match r {
                Ok(comment) => trimmed(body@).len() > 0 && comment@ == (StagedView {
                    path: path@,
                    side,
                    line,
                    start_line,
                    body: body@,
                }),
                Err(error) => trimmed(body@).len() == 0 && error == DraftError::EmptyBody,
            },
    {
        if trim(body.as_str()).as_str().is_empty() {
            Err(DraftError::EmptyBody)
        } else {
            Ok(DraftComment { path, side, line, start_line, body })
        }
    }

    /// Where the comment is, as the panel shows it.
    #[must_use]
    pub fn anchor(&self) -> (r: String)
        ensures
            r@ == place_label(self@.path, self.side, self.line, self.start_line),
    {
        label_place(self.path.as_str(), self.side, self.line, self.start_line)
    }

    fn same(&self, other: &DraftComment) -> (r: bool)
        ensures
            r == (self@ == other@),
    {
        self.path == other.path && self.side == other.side && self.line == other.line
            && self.start_line == other.start_line && self.body == other.body
    }
}

/// A review before it is sent.
#[derive(Debug, PartialEq, Eq)]
pub struct Draft {
    /// The pull request it is about; zero where none is open.
    pub pr: u64,
    /// The staged comments, the newest first.
    pub comments: Vec<DraftComment>,
    /// The verdict, when one was chosen.
    pub decision: Option<Decision>,
    /// The review's own text.
    pub body: Option<String>,
    /// The commit the first comment was written against.
    pub head_sha: Option<String>,
    /// When it last changed, in seconds since the epoch.
    pub updated_at: i64,
}

/// What a [`Draft`] says.
pub struct DraftView {
    pub pr: u64,
    pub comments: Seq<StagedView>,
    pub decision: Option<Decision>,
    pub body: Option<Seq<char>>,
    pub head_sha: Option<Seq<char>>,
    pub updated_at: i64,
}

/// The comments' contents, one by one.
pub open spec fn staged_views(comments: Seq<DraftComment>) -> Seq<StagedView> {
    comments.map_values(|c: DraftComment| c@)
}

impl View for Draft {
    type V = DraftView;

    open spec fn view(&self) -> DraftView {
        DraftView {
            pr: self.pr,
            comments: staged_views(self.comments@),
            decision: self.decision,
            body: opt_view(self.body),
            head_sha: opt_view(self.head_sha),
            updated_at: self.updated_at,
        }
    }
}

impl Clone for Draft {
    fn clone(&self) -> (r: Self)
        ensures
            r@ == self@,
            r.comments@ == self.comments@,
    {
        let comments = self.comments.clone();
        assert(comments@ =~= self.comments@);
        Draft {
            pr: self.pr,
            comments,
            decision: self.decision,
            body: opt_clone(&self.body),
            head_sha: opt_clone(&self.head_sha),
            updated_at: self.updated_at,
        }
    }
}

impl DraftView {
    /// A draft that says nothing.
    pub open spec fn blank(pr: u64, now: i64) -> DraftView {
        DraftView {
            pr,
            comments: Seq::empty(),
            decision: None,
            body: None,
            head_sha: None,
            updated_at: now,
        }
    }

    /// Whether the draft says nothing.
    pub open spec fn says_nothing(self) -> bool {
        &&& self.comments.len() == 0
        &&& self.decision is None
        &&& match self.body {
            Some(body) => trimmed(body).len() == 0,
            None => true,
        }
    }

    /// How many of the first `n` comments are anchored at a line.
    pub open spec fn count_at(self, path: Seq<char>, side: Side, line: u32, n: nat) -> nat
        decreases n,
    {
        if n == 0 {
            0
        } else {
            let comment = self.comments[n - 1];
            self.count_at(path, side, line, (n - 1) as nat) + if comment.path == path
                && comment.side == side && comment.line == line {
                1nat
            } else {
                0
            }
        }
    }

    /// The draft without the comment of the given number.
    pub open spec fn without(self, number: nat, now: i64) -> DraftView {
        DraftView { comments: self.comments.remove(number - 1), updated_at: now, ..self }
    }

    /// How much is staged, in words.
    pub open spec fn words(self) -> Seq<char> {
        decimal(self.comments.len()) + " comment(s)"@
    }

    /// The draft with nothing said, for the same pull request.
    pub open spec fn emptied(self, now: i64) -> DraftView {
        DraftView {
            comments: Seq::empty(),
            decision: None,
            body: None,
            head_sha: None,
            updated_at: now,
            ..self
        }
    }
}

impl Draft {
    /// A draft for a pull request, with nothing said yet.
    #[must_use]
    pub fn new(pr: u64, now: i64) -> (r: Draft)
        ensures
            r@ == DraftView::blank(pr, now),
    {
        let r = Draft {
            pr,
            comments: Vec::new(),
            decision: None,
            body: None,
            head_sha: None,
            updated_at: now,
        };
        assert(r@.comments =~= Seq::empty());
        r
    }

    /// Whether two drafts are the same in every respect.
    #[must_use]
    pub fn same(&self, other: &Draft) -> (r: bool)
        ensures
            r == (self@ == other@),
    {
        if self.comments.len() != other.comments.len() {
            assert(self@.comments.len() != other@.comments.len());
            return false;
        }
        let mut i: usize = 0;
        while i < self.comments.len()
            invariant
                i <= self.comments@.len(),
                self.comments@.len() == other.comments@.len(),
                forall|j: int| 0 <= j < i ==> (#[trigger] self.comments@[j])@ == other.comments@[j]@,
            decreases self.comments@.len() - i,
        {
            if !self.comments[i].same(&other.comments[i]) {
                assert(self@.comments[i as int] != other@.comments[i as int]);
                return false;
            }
            i += 1;
        }
        assert(self@.comments =~= other@.comments);
        self.pr == other.pr && self.decision == other.decision && opt_same(&self.body, &other.body)
            && opt_same(&self.head_sha, &other.head_sha) && self.updated_at == other.updated_at
    }

    /// Stages a comment in front of the others.
    pub fn insert(&mut self, comment: DraftComment, now: i64)
        ensures
            final(self)@ == (DraftView {
                comments: seq![comment@] + old(self)@.comments,
                updated_at: now,
                ..old(self)@
            }),
            final(self).comments@ == seq![comment] + old(self).comments@,
    {
        let ghost before = self.comments@;
        self.comments.insert(0, comment);
        self.updated_at = now;
        assert(self.comments@ =~= seq![comment] + before);
        assert(staged_views(self.comments@) =~= seq![comment@] + staged_views(before));
    }

    /// Takes out the comment of the given number, counted from one.
    pub fn remove(&mut self, number: usize, now: i64) -> (r: Option<DraftComment>)
        ensures
            match r {
                Some(comment) => {
                    &&& 1 <= number <= old(self)@.comments.len()
                    &&& comment@ == old(self)@.comments[number - 1]
                    &&& final(self)@ == old(self)@.without(number as nat, now)
                },
                None => (number < 1 || number > old(self)@.comments.len()) && *final(self) == *old(self),
            },
            final(self).comments@.len() == old(self).comments@.len() - if r is Some { 1int } else { 0 },
    {
        if number < 1 || number > self.comments.len() {
            return None;
        }
        let ghost before = self.comments@;
        let comment = self.comments.remove(number - 1);
        self.updated_at = now;
        assert(staged_views(self.comments@) =~= staged_views(before).remove(number - 1));
        Some(comment)
    }

    /// Forgets all that was said.
    pub fn clear(&mut self, now: i64)
        ensures
            final(self)@ == old(self)@.emptied(now),
            final(self).comments@.len() == 0,
    {
        self.comments = Vec::new();
        self.decision = None;
        self.body = None;
        self.head_sha = None;
        self.updated_at = now;
        assert(self@.comments =~= Seq::empty());
    }

    /// Records the verdict.
    pub fn set_decision(&mut self, decision: Option<Decision>, now: i64)
        ensures
            *final(self) == (Draft { decision, updated_at: now, ..*old(self) }),
    {
        self.decision = decision;
        self.updated_at = now;
    }

    /// Records the review's own text; one without any is none.
    pub fn set_body(&mut self, body: &str, now: i64)
        ensures
            *final(self) == (Draft { body: final(self).body, updated_at: now, ..*old(self) }),
            opt_view(final(self).body) == if trimmed(body@).len() == 0 { None } else { Some(body@) },
    {
        self.body = if trim(body).as_str().is_empty() { None } else { Some(body.to_owned()) };
        self.updated_at = now;
    }

    /// Whether the draft was written against another commit than the one on screen.
    #[must_use]
    pub fn drifted_from(&self, head_sha: Option<&str>) -> (r: bool)
        ensures
            r == match (self@.head_sha, head_sha) {
                (Some(own), Some(other)) => own != other@,
                _ => false,
            },
    {
        match (&self.head_sha, head_sha) {
            (Some(own), Some(other)) => !same(own.as_str(), other),
            _ => false,
        }
    }

    /// How many comments are anchored at a line.
    #[must_use]
    pub fn at(&self, path: &str, side: Side, line: u32) -> (n: usize)
        ensures
            n == self@.count_at(path@, side, line, self@.comments.len()),
    {
        let mut n: usize = 0;
        let mut i: usize = 0;
        while i < self.comments.len()
            invariant
                i <= self.comments@.len(),
                n <= i,
                n == self@.count_at(path@, side, line, i as nat),
            decreases self.comments@.len() - i,
        {
            let comment = &self.comments[i];
            assert(self@.comments[i as int] == comment@);
            if same(comment.path.as_str(), path) && comment.side == side && comment.line == line {
                n += 1;
            }
            i += 1;
        }
        n
    }

    /// Whether the draft says nothing.
    #[must_use]
    pub fn is_empty(&self) -> (r: bool)
        ensures
            r == self@.says_nothing(),
    {
        self.comments.len() == 0 && self.decision.is_none() && match &self.body {
            Some(body) => trim(body.as_str()).as_str().is_empty(),
            None => true,
        }
    }

    /// Whether the draft can be sent, and the reason where it cannot.
    pub fn publishable(&self) -> (r: Result<(), DraftError>)
        ensures
            r == if self@.says_nothing() {
                Err::<(), DraftError>(DraftError::NothingToSay)
            } else {
                Ok::<(), DraftError>(())
            },
    {
        if self.is_empty() {
            Err(DraftError::NothingToSay)
        } else {
            Ok(())
        }
    }

    /// The verdict that will be sent: a comment where none was chosen.
    #[must_use]
    pub fn effective_decision(&self) -> (r: Decision)
        ensures
            r == match self.decision {
                Some(decision) => decision,
                None => Decision::Comment,
            },
    {
        match self.decision {
            Some(decision) => decision,
            None => Decision::Comment,
        }
    }

    /// How much is staged, in words.
    #[must_use]
    pub fn summary(&self) -> (r: String)
        ensures
            r@ == self@.words(),
    {
        concat2(number(self.comments.len() as u64).as_str(), " comment(s)")
    }
}

/// A line is marked exactly when a staged comment ends on it: in that file, on that side.
pub proof fn lemma_a_marked_line_has_a_comment(draft: DraftView, path: Seq<char>, side: Side, line: u32, n: nat)
    requires
        n <= draft.comments.len(),
    ensures
        draft.count_at(path, side, line, n) <= n,
        draft.count_at(path, side, line, n) > 0 <==> exists|k: int|
            0 <= k < n && (#[trigger] draft.comments[k]).path == path && draft.comments[k].side == side
                && draft.comments[k].line == line,
    decreases n,
{
    if n > 0 {
        lemma_a_marked_line_has_a_comment(draft, path, side, line, (n - 1) as nat);
    }
}

/// Taking a comment out takes out that one alone: those before it keep their numbers, those behind
/// it move up by one, and nothing else that the draft says changes.
pub proof fn lemma_taking_a_comment_out_keeps_the_others(draft: DraftView, number: nat, now: i64, k: int)
    requires
        1 <= number <= draft.comments.len(),
    ensures
        draft.without(number, now).comments.len() == draft.comments.len() - 1,
        0 <= k < number - 1 ==> draft.without(number, now).comments[k] == draft.comments[k],
        number <= k < draft.comments.len() ==> draft.without(number, now).comments[k - 1]
            == draft.comments[k],
        draft.without(number, now).decision == draft.decision,
        draft.without(number, now).body == draft.body,
        draft.without(number, now).head_sha == draft.head_sha,
        draft.without(number, now).pr == draft.pr,
        draft.without(number, now).updated_at == now,
{
}

/// Emptying a draft leaves nothing to publish, and keeps which pull request it is for.
pub proof fn lemma_an_emptied_draft_says_nothing(draft: DraftView, now: i64)
    ensures
        draft.emptied(now).says_nothing(),
        draft.emptied(now).comments.len() == 0,
        draft.emptied(now).decision is None,
        draft.emptied(now).body is None,
        draft.emptied(now).head_sha is None,
        draft.emptied(now).pr == draft.pr,
        draft.emptied(now).updated_at == now,
{
}

} // verus!
