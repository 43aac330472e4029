//! A patch as it is read: files, hunks and lines, with the comments left on them.

use vstd::prelude::*;

verus! {

/// The characters of an optional string.
pub open spec fn opt_view(s: Option<String>) -> Option<Seq<char>> {
    match s {
        Some(s) => Some(s@),
        None => None,
    }
}

/// Copies an optional string.
pub fn opt_clone(s: &Option<String>) -> (r: Option<String>)
    ensures
        r == *s,
{
    match s {
        Some(s) => Some(s.clone()),
        None => None,
    }
}

/// Whether two optional strings hold the same characters.
pub fn opt_same(a: &Option<String>, b: &Option<String>) -> (r: bool)
    ensures
        r == (opt_view(*a) == opt_view(*b)),
{
    match (a, b) {
        (Some(a), Some(b)) => *a == *b,
        (None, None) => true,
        _ => false,
    }
}

/// What happened to a file.
#[derive(Debug, Clone, Copy, PartialEq, Eq, Structural)]
pub enum FileStatus {
    /// It is new.
    Added,
    /// Its contents changed.
    Modified,
    /// It is gone.
    Deleted,
    /// It has another path.
    Renamed,
    /// It was copied from another path.
    Copied,
}

impl FileStatus {
    /// The letter that names a status.
    pub open spec fn letter(self) -> char {
        match self {
            FileStatus::Added => 'A',
            FileStatus::Modified => 'M',
            FileStatus::Deleted => 'D',
            FileStatus::Renamed => 'R',
            FileStatus::Copied => 'C',
        }
    }

    /// The letter a row shows for this status.
    pub fn marker(self) -> (r: &'static str)
        ensures
            r@ == seq![self.letter()],
    {
        proof {
            reveal_strlit("A");
            reveal_strlit("M");
            reveal_strlit("D");
            reveal_strlit("R");
            reveal_strlit("C");
        }
        let r = match self {
            FileStatus::Added => "A",
            FileStatus::Modified => "M",
            FileStatus::Deleted => "D",
            FileStatus::Renamed => "R",
            FileStatus::Copied => "C",
        };
        assert(r@ =~= seq![self.letter()]);
        r
    }
}

/// What a file's change consists of.
#[derive(Debug, Clone, Copy, PartialEq, Eq, Structural)]
pub enum FileKind {
    /// Lines of text.
    Text,
    /// A binary file, which has no lines to show.
    Binary,
    /// Only the mode changed.
    ModeOnly,
    /// A submodule moved.
    Submodule,
    /// Nothing changed inside the file.
    Empty,
}

/// What a line of a hunk is.
#[derive(Debug, Clone, Copy, PartialEq, Eq, Structural)]
pub enum LineKind {
    /// Present on both sides.
    Context,
    /// Only on the new side.
    Add,
    /// Only on the old side.
    Delete,
}

impl LineKind {
    /// The character in front of a line of this kind.
    pub open spec fn sign(self) -> char {
        match self {
            LineKind::Context => ' ',
            LineKind::Add => '+',
            LineKind::Delete => '-',
        }
    }

    /// The gutter's character for this kind.
    pub fn marker(self) -> (c: char)
        ensures
            c == self.sign(),
    {
        match self {
            LineKind::Context => ' ',
            LineKind::Add => '+',
            LineKind::Delete => '-',
        }
    }
}

/// One line of a hunk.
#[derive(Debug, PartialEq, Eq)]
pub struct DiffLine {
    /// What the line is.
    pub kind: LineKind,
    /// Its number on the old side.
    pub old_line: Option<u32>,
    /// Its number on the new side.
    pub new_line: Option<u32>,
    /// Its text, without the leading sign.
    pub content: String,
    /// Whether the file ends here without a newline.
    pub no_newline: bool,
}

/// What a [`DiffLine`] says.
pub struct LineView {
    pub kind: LineKind,
    pub old_line: Option<u32>,
    pub new_line: Option<u32>,
    pub content: Seq<char>,
    pub no_newline: bool,
}

impl View for DiffLine {
    type V = LineView;

    open spec fn view(&self) -> LineView {
        LineView {
            kind: self.kind,
            old_line: self.old_line,
            new_line: self.new_line,
            content: self.content@,
            no_newline: self.no_newline,
        }
    }
}

impl Clone for DiffLine {
    fn clone(&self) -> (r: Self)
        ensures
            r == *self,
    {
        DiffLine {
            kind: self.kind,
            old_line: self.old_line,
            new_line: self.new_line,
            content: self.content.clone(),
            no_newline: self.no_newline,
        }
    }
}

/// One hunk: its `@@` line and what stands under it.
#[derive(Debug, PartialEq, Eq)]
pub struct Hunk {
    /// The `@@` line, ready to draw.
    pub header: String,
    /// The lines, in order.
    pub lines: Vec<DiffLine>,
}

/// What a [`Hunk`] says.
pub struct HunkView {
    pub header: Seq<char>,
    pub lines: Seq<LineView>,
}

impl View for Hunk {
    type V = HunkView;

    open spec fn view(&self) -> HunkView {
        HunkView { header: self.header@, lines: self.lines@.map_values(|l: DiffLine| l@) }
    }
}

impl Clone for Hunk {
    fn clone(&self) -> (r: Self)
        ensures
            r@ == self@,
    {
        let lines = self.lines.clone();
        let r = Hunk { header: self.header.clone(), lines };
        assert(lines@ =~= self.lines@);
        r
    }
}

/// One file of a patch.
#[derive(Debug, PartialEq, Eq)]
pub struct FileDiff {
    /// The path the file is opened at, when it has one.
    pub path: Option<String>,
    /// The path as it is shown: both paths, for a rename.
    pub display_path: String,
    /// How much changed, such as `+2 −1`.
    pub size_label: String,
    /// The sentence shown in place of lines.
    pub placeholder: Option<String>,
    /// What happened to the file.
    pub status: FileStatus,
    /// What the change consists of.
    pub kind: FileKind,
    /// The hunks, in order.
    pub hunks: Vec<Hunk>,
}

/// What a [`FileDiff`] says.
pub struct FileView {
    pub path: Option<Seq<char>>,
    pub display_path: Seq<char>,
    pub size_label: Seq<char>,
    pub placeholder: Option<Seq<char>>,
    pub status: FileStatus,
    pub kind: FileKind,
    pub hunks: Seq<HunkView>,
}

impl View for FileDiff {
    type V = FileView;

    open spec fn view(&self) -> FileView {
        FileView {
            path: opt_view(self.path),
            display_path: self.display_path@,
            size_label: self.size_label@,
            placeholder: opt_view(self.placeholder),
            status: self.status,
            kind: self.kind,
            hunks: self.hunks@.map_values(|h: Hunk| h@),
        }
    }
}

impl Clone for FileDiff {
    fn clone(&self) -> (r: Self)
        ensures
            r@ == self@,
    {
        let mut hunks: Vec<Hunk> = Vec::new();
        let mut i: usize = 0;
        while i < self.hunks.len()
            invariant
                i <= self.hunks@.len(),
                hunks@.len() == i,
                forall|j: int| 0 <= j < i ==> (#[trigger] hunks@[j])@ == self.hunks@[j]@,
            decreases self.hunks@.len() - i,
        {
            hunks.push(self.hunks[i].clone());
            i += 1;
        }
        let r = FileDiff {
            path: opt_clone(&self.path),
            display_path: self.display_path.clone(),
            size_label: self.size_label.clone(),
            placeholder: opt_clone(&self.placeholder),
            status: self.status,
            kind: self.kind,
            hunks,
        };
        assert(r@.hunks =~= self@.hunks);
        r
    }
}

/// How large a patch is.
#[derive(Debug, PartialEq, Eq)]
pub struct PatchStats {
    /// How many files it touches.
    pub files: usize,
    /// The size in words, such as `2 files +3 −1`.
    pub label: String,
}

/// A patch: the files it touches and how large it is.
#[derive(Debug, PartialEq, Eq)]
pub struct Patch {
    /// The files, in the order the patch lists them.
    pub files: Vec<FileDiff>,
    /// How large it is.
    pub stats: PatchStats,
}

/// What a [`Patch`] says.
pub struct PatchView {
    pub files: Seq<FileView>,
    pub count: usize,
    pub label: Seq<char>,
}

impl View for Patch {
    type V = PatchView;

    open spec fn view(&self) -> PatchView {
        PatchView {
            files: self.files@.map_values(|f: FileDiff| f@),
            count: self.stats.files,
            label: self.stats.label@,
        }
    }
}

impl Clone for Patch {
    fn clone(&self) -> (r: Self)
        ensures
            r@ == self@,
    {
        let mut files: Vec<FileDiff> = Vec::new();
        let mut i: usize = 0;
        while i < self.files.len()
            invariant
                i <= self.files@.len(),
                files@.len() == i,
                forall|j: int| 0 <= j < i ==> (#[trigger] files@[j])@ == self.files@[j]@,
            decreases self.files@.len() - i,
        {
            files.push(self.files[i].clone());
            i += 1;
        }
        let r = Patch {
            files,
            stats: PatchStats { files: self.stats.files, label: self.stats.label.clone() },
        };
        assert(r@.files =~= self@.files);
        r
    }
}

/// The label of a patch without files.
pub open spec fn empty_label() -> Seq<char> {
    "0 files +0 −0"@
}

impl Default for Patch {
    fn default() -> (r: Self)
        ensures
            r@ == (PatchView { files: Seq::empty(), count: 0, label: empty_label() }),
    {
        let r = Patch {
            files: Vec::new(),
            stats: PatchStats { files: 0, label: "0 files +0 −0".to_owned() },
        };
        assert(r@.files =~= Seq::empty());
        r
    }
}

/// A comment of a review, anchored to a line of the patch.
#[derive(Debug, PartialEq, Eq)]
pub struct ReviewComment {
    /// Its number, unique among the comments of a pull request.
    pub id: u64,
    /// Who wrote it.
    pub author: String,
    /// The file it is about.
    pub path: String,
    /// The line it is about, unless that line is gone.
    pub line: Option<u64>,
    /// `LEFT` for the old side, `RIGHT` for the new one.
    pub side: Option<String>,
    /// What it says.
    pub body: String,
    /// When it was written, in seconds since the epoch.
    pub created_at: i64,
    /// The comment it answers.
    pub in_reply_to: Option<u64>,
    /// The hunk it was written on, as it then was.
    pub diff_hunk: Option<String>,
    /// Where it can be read.
    pub url: Option<String>,
    /// The thread it belongs to.
    pub thread_id: Option<String>,
    /// Whether its thread is settled.
    pub resolved: bool,
    /// Whether the code it is about has changed since.
    pub outdated: bool,
}

/// What a [`ReviewComment`] says.
pub struct CommentView {
    pub id: u64,
    pub author: Seq<char>,
    pub path: Seq<char>,
    pub line: Option<u64>,
    pub side: Option<Seq<char>>,
    pub body: Seq<char>,
    pub created_at: i64,
    pub in_reply_to: Option<u64>,
    pub diff_hunk: Option<Seq<char>>,
    pub url: Option<Seq<char>>,
    pub thread_id: Option<Seq<char>>,
    pub resolved: bool,
    pub outdated: bool,
}

impl View for ReviewComment {
    type V = CommentView;

    open spec fn view(&self) -> CommentView {
        CommentView {
            id: self.id,
            author: self.author@,
            path: self.path@,
            line: self.line,
            side: opt_view(self.side),
            body: self.body@,
            created_at: self.created_at,
            in_reply_to: self.in_reply_to,
            diff_hunk: opt_view(self.diff_hunk),
            url: opt_view(self.url),
            thread_id: opt_view(self.thread_id),
            resolved: self.resolved,
            outdated: self.outdated,
        }
    }
}

impl Clone for ReviewComment {
    fn clone(&self) -> (r: Self)
        ensures
            r == *self,
    {
        ReviewComment {
            id: self.id,
            author: self.author.clone(),
            path: self.path.clone(),
            line: self.line,
            side: opt_clone(&self.side),
            body: self.body.clone(),
            created_at: self.created_at,
            in_reply_to: self.in_reply_to,
            diff_hunk: opt_clone(&self.diff_hunk),
            url: opt_clone(&self.url),
            thread_id: opt_clone(&self.thread_id),
            resolved: self.resolved,
            outdated: self.outdated,
        }
    }
}

impl ReviewComment {
    /// Whether two comments are the same in every respect.
    pub fn same(&self, other: &ReviewComment) -> (r: bool)
        ensures
            r == (self@ == other@),
    {
        self.id == other.id && self.author == other.author && self.path == other.path && self.line
            == other.line && opt_same(&self.side, &other.side) && self.body == other.body
            && self.created_at == other.created_at && self.in_reply_to == other.in_reply_to
            && opt_same(&self.diff_hunk, &other.diff_hunk) && opt_same(&self.url, &other.url)
            && opt_same(&self.thread_id, &other.thread_id) && self.resolved == other.resolved
            && self.outdated == other.outdated
    }
}

/// The comments' contents, one by one.
pub open spec fn comment_views(comments: Seq<ReviewComment>) -> Seq<CommentView> {
    comments.map_values(|c: ReviewComment| c@)
}

/// Whether two lists of comments are the same.
pub fn same_comments(a: &[ReviewComment], b: &[ReviewComment]) -> (r: bool)
    ensures
        r == (comment_views(a@) == comment_views(b@)),
{
    if a.len() != b.len() {
        assert(comment_views(a@).len() != comment_views(b@).len());
        return false;
    }
    let mut i: usize = 0;
    while i < a.len()
        invariant
            i <= a@.len(),
            a@.len() == b@.len(),
            forall|j: int| 0 <= j < i ==> (#[trigger] a@[j])@ == b@[j]@,
        decreases a@.len() - i,
    {
        if !a[i].same(&b[i]) {
            assert(comment_views(a@)[i as int] != comment_views(b@)[i as int]);
            return false;
        }
        i += 1;
    }
    assert(comment_views(a@) =~= comment_views(b@));
    true
}

/// Copies a list of comments.
pub fn copy_comments(comments: &[ReviewComment]) -> (r: Vec<ReviewComment>)
    ensures
        r@ == comments@,
{
    let mut r: Vec<ReviewComment> = Vec::new();
    let mut i: usize = 0;
    while i < comments.len()
        invariant
            i <= comments@.len(),
            r@ == comments@.subrange(0, i as int),
        decreases comments@.len() - i,
    {
        r.push(comments[i].clone());
        i += 1;
        assert(comments@.subrange(0, i as int) =~= comments@.subrange(0, i - 1).push(comments@[i - 1]));
    }
    assert(comments@.subrange(0, i as int) =~= comments@);
    r
}

} // verus!
