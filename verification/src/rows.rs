//! A patch flattened into the rows a pane draws, with the discussion under the lines it is about.

use vstd::prelude::*;

use crate::patch::{
    comment_views, CommentView, DiffLine, FileDiff, FileView, Hunk, HunkView, LineKind, LineView,
    Patch, ReviewComment,
};
use crate::strings::{
    concat3, concat5, decimal, join, joined, lemma_views_push, number, parts_of, repeated, same,
    split, trim, trimmed, views, words, words_of,
};
use crate::text::{fill, filled, Measure};

verus! {

/// What a row is.
#[derive(Debug, Clone, Copy, PartialEq, Eq, Structural)]
pub enum RowKind {
    /// The banner that starts a file.
    FileHeader,
    /// A `@@` line.
    HunkHeader,
    /// A line of the hunk.
    Line,
    /// The sentence shown for a binary, mode-only or submodule file.
    Placeholder,
    /// The sentence shown for a folded hunk.
    Folded,
    /// A line of an existing discussion, drawn under the line it is about.
    Discussion,
}

/// One drawable row.
#[derive(Debug, PartialEq, Eq)]
pub struct DiffRow {
    /// What this row is.
    pub kind: RowKind,
    /// Which file it belongs to.
    pub file: usize,
    /// Which hunk, for a line or a hunk header.
    pub hunk: Option<usize>,
    /// The old-side line number, when there is one.
    pub old_line: Option<u32>,
    /// The new-side line number, when there is one.
    pub new_line: Option<u32>,
    /// The text to draw after the gutters.
    pub text: String,
    /// The line kind, for styling an addition or a deletion.
    pub line_kind: Option<LineKind>,
    /// Whether the file has no newline at the end here.
    pub no_newline: bool,
}

/// What a [`DiffRow`] says.
pub struct RowView {
    pub kind: RowKind,
    pub file: usize,
    pub hunk: Option<usize>,
    pub old_line: Option<u32>,
    pub new_line: Option<u32>,
    pub text: Seq<char>,
    pub line_kind: Option<LineKind>,
    pub no_newline: bool,
}

impl View for DiffRow {
    type V = RowView;

    open spec fn view(&self) -> RowView {
        RowView {
            kind: self.kind,
            file: self.file,
            hunk: self.hunk,
            old_line: self.old_line,
            new_line: self.new_line,
            text: self.text@,
            line_kind: self.line_kind,
            no_newline: self.no_newline,
        }
    }
}

impl Clone for DiffRow {
    fn clone(&self) -> (r: Self)
        ensures
            r == *self,
    {
        DiffRow {
            kind: self.kind,
            file: self.file,
            hunk: self.hunk,
            old_line: self.old_line,
            new_line: self.new_line,
            text: self.text.clone(),
            line_kind: self.line_kind,
            no_newline: self.no_newline,
        }
    }
}

impl DiffRow {
    /// Whether moving to this row is moving to a different file.
    #[must_use]
    pub fn is_file_start(&self) -> (r: bool)
        ensures
            r == (self.kind == RowKind::FileHeader),
    {
        self.kind == RowKind::FileHeader
    }

    /// Whether this row begins a hunk.
    #[must_use]
    pub fn is_hunk_start(&self) -> (r: bool)
        ensures
            r == (self.kind == RowKind::HunkHeader),
    {
        self.kind == RowKind::HunkHeader
    }
}

/// The rows' contents, one by one.
pub open spec fn row_views(rows: Seq<DiffRow>) -> Seq<RowView> {
    rows.map_values(|r: DiffRow| r@)
}

/// Adding a row adds its contents at the end.
pub broadcast proof fn lemma_row_views_push(rows: Seq<DiffRow>, row: DiffRow)
    ensures
        #[trigger] row_views(rows.push(row)) == row_views(rows).push(row@),
{
    assert(row_views(rows.push(row)) =~= row_views(rows).push(row@));
}

/// A row without line numbers.
pub open spec fn bare_row(kind: RowKind, file: usize, hunk: Option<usize>, text: Seq<char>) -> RowView {
    RowView {
        kind,
        file,
        hunk,
        old_line: None,
        new_line: None,
        text,
        line_kind: None,
        no_newline: false,
    }
}

fn bare(kind: RowKind, file: usize, hunk: Option<usize>, text: String) -> (row: DiffRow)
    ensures
        row@ == bare_row(kind, file, hunk, text@),
{
    DiffRow {
        kind,
        file,
        hunk,
        old_line: None,
        new_line: None,
        text,
        line_kind: None,
        no_newline: false,
    }
}

// Threads.

/// How wide a discussion line is wrapped to, before the pane cuts it.
pub const DISCUSSION_WRAP: usize = 100;

/// The file, side and line a comment is anchored to, when that is still known.
pub open spec fn anchored(comment: CommentView) -> Option<(Seq<char>, bool, u32)> {
    match comment.line {
        Some(line) => if line <= u32::MAX {
            Some((comment.path, comment.side == Some("LEFT"@), line as u32))
        } else {
            None
        },
        None => None,
    }
}

/// Whether a comment is about the old side.
fn on_old_side(comment: &ReviewComment) -> (r: bool)
    ensures
        r == (comment@.side == Some("LEFT"@)),
{
    match &comment.side {
        Some(side) => same(side.as_str(), "LEFT"),
        None => false,
    }
}

/// The file, side and line a comment is anchored to, when that is still known.
pub fn anchor_of(comment: &ReviewComment) -> (r: Option<(&str, bool, u32)>)
    ensures
        match r {
            Some((path, old_side, line)) => anchored(comment@) == Some((path@, old_side, line)),
            None => anchored(comment@) is None,
        },
{
    match comment.line {
        Some(line) => if line <= u32::MAX as u64 {
            Some((comment.path.as_str(), on_old_side(comment), line as u32))
        } else {
            None
        },
        None => None,
    }
}

/// The last of the first `n` comments with the given number.
pub open spec fn last_with_id(comments: Seq<CommentView>, id: u64, n: nat) -> Option<nat>
    decreases n,
{
    if n == 0 {
        None
    } else if comments[n - 1].id == id {
        Some((n - 1) as nat)
    } else {
        last_with_id(comments, id, (n - 1) as nat)
    }
}

/// The comment that comment `i` answers, when it is in the list and not `i` itself.
pub open spec fn parent_of(comments: Seq<CommentView>, i: nat) -> Option<nat> {
    match comments[i as int].in_reply_to {
        Some(id) => match last_with_id(comments, id, comments.len()) {
            Some(parent) => if parent != i { Some(parent) } else { None },
            None => None,
        },
        None => None,
    }
}

fn find_parent(comments: &[ReviewComment], i: usize) -> (r: Option<usize>)
    requires
        i < comments@.len(),
    ensures
        match r {
            Some(p) => p < comments@.len() && parent_of(comment_views(comments@), i as nat) == Some(
                p as nat,
            ),
            None => parent_of(comment_views(comments@), i as nat) is None,
        },
{
    let ghost all = comment_views(comments@);
    assert(all[i as int] == comments@[i as int]@);
    match comments[i].in_reply_to {
        Some(id) => {
            let mut n: usize = comments.len();
            while n > 0 && comments[n - 1].id != id
                invariant
                    n <= comments@.len(),
                    all == comment_views(comments@),
                    last_with_id(all, id, all.len()) == last_with_id(all, id, n as nat),
                decreases n,
            {
                n -= 1;
            }
            if n > 0 && n - 1 != i {
                Some(n - 1)
            } else {
                None
            }
        },
        None => None,
    }
}

/// The character in front of a thread's first line.
pub open spec fn marker_at(depth: nat) -> Seq<char> {
    if depth == 0 { "▸"@ } else { "↳"@ }
}

/// The character in front of a thread's first line.
pub fn thread_marker(depth: usize) -> (r: &'static str)
    ensures
        r@ == marker_at(depth as nat),
{
    if depth == 0 { "▸" } else { "↳" }
}

/// A text wrapped into lines of at most `width` characters where its words allow it.
pub open spec fn wrapped(s: Seq<char>, width: nat) -> Seq<Seq<char>> {
    let lines = filled(Seq::empty(), parts_of(s, ' '), width, Measure::Chars);
    if lines.len() == 0 {
        seq!["(empty)"@]
    } else {
        lines
    }
}

/// Wraps text at `width` characters, keeping the paragraph as one block.
pub fn wrap_text(text: &str, width: usize) -> (out: Vec<String>)
    ensures
        views(out@) == wrapped(text@, width as nat),
        out@.len() > 0,
{
    broadcast use lemma_views_push;
    let parts = split(text, ' ');
    let mut out = fill(&parts, width, Measure::Chars);
    if out.len() == 0 {
        out.push("(empty)".to_owned());
        assert(views(out@) =~= seq!["(empty)"@]);
    } else {
        assert(views(out@).len() == out@.len());
    }
    out
}

/// Two spaces for each level.
pub open spec fn indent(depth: nat) -> Seq<char> {
    repeated(' ', 2 * depth)
}

/// Who a comment is from.
pub open spec fn author_name(comment: CommentView) -> Seq<char> {
    if trimmed(comment.author).len() == 0 { "someone"@ } else { trimmed(comment.author) }
}

/// A comment's text before it is wrapped: who wrote it, on which side, and what it says.
pub open spec fn comment_text(comment: CommentView, depth: nat) -> Seq<char> {
    let side = if comment.side == Some("LEFT"@) { " (old side)"@ } else { ""@ };
    let opening = indent(depth) + marker_at(depth) + " "@ + author_name(comment) + side;
    opening + ": "@ + joined(words_of(comment.body), " "@)
}

/// A comment as lines, without its replies.
pub open spec fn comment_lines(comment: CommentView, depth: nat) -> Seq<Seq<char>> {
    let lines = wrapped(comment_text(comment, depth), DISCUSSION_WRAP as nat);
    Seq::new(
        lines.len(),
        |i: int| if i == 0 { lines[i] } else { indent(depth) + "   "@ + lines[i] },
    )
}

fn indentation(depth: usize) -> (out: String)
    ensures
        out@ == indent(depth as nat),
{
    let mut out = String::new();
    let mut i: usize = 0;
    assert(out@ =~= indent(0));
    while i < depth
        invariant
            i <= depth,
            out@ == indent(i as nat),
        decreases depth - i,
    {
        out.push(' ');
        out.push(' ');
        i += 1;
        assert(indent(i as nat) =~= indent((i - 1) as nat).push(' ').push(' '));
    }
    out
}

fn write_comment(out: &mut Vec<String>, comment: &ReviewComment, depth: usize)
    ensures
        views(final(out)@) == views(old(out)@) + comment_lines(comment@, depth as nat),
{
    broadcast use lemma_views_push;
    let spaces = indentation(depth);
    let name = trim(comment.author.as_str());
    let author: &str = if name.as_str().is_empty() { "someone" } else { name.as_str() };
    let side: &str = if on_old_side(comment) { " (old side)" } else { "" };
    let body = join(&words(comment.body.as_str()), " ");
    let opening = concat5(spaces.as_str(), thread_marker(depth), " ", author, side);
    let whole = concat3(opening.as_str(), ": ", body.as_str());
    assert(whole@ == comment_text(comment@, depth as nat));
    let lines = wrap_text(whole.as_str(), DISCUSSION_WRAP);
    let ghost wanted = comment_lines(comment@, depth as nat);
    let ghost before = views(out@);
    assert(before + wanted.subrange(0, 0) =~= before);
    let mut i: usize = 0;
    while i < lines.len()
        invariant
            i <= lines@.len(),
            views(lines@) == wrapped(comment_text(comment@, depth as nat), DISCUSSION_WRAP as nat),
            spaces@ == indent(depth as nat),
            wanted == comment_lines(comment@, depth as nat),
            views(out@) == before + wanted.subrange(0, i as int),
        decreases lines@.len() - i,
    {
        assert(views(lines@)[i as int] == lines@[i as int]@);
        assert(views(lines@).len() == lines@.len());
        if i == 0 {
            out.push(lines[i].clone());
        } else {
            out.push(concat3(spaces.as_str(), "   ", lines[i].as_str()));
        }
        i += 1;
        proof {
            assert(wanted.subrange(0, i as int) =~= wanted.subrange(0, i - 1).push(wanted[i - 1]));
            assert(before + wanted.subrange(0, i - 1).push(wanted[i - 1]) =~= (before
                + wanted.subrange(0, i - 1)).push(wanted[i - 1]));
        }
    }
    assert(views(lines@).len() == lines@.len());
    assert(wanted.subrange(0, i as int) =~= wanted);
}

/// A comment and all that answers it, as lines.
///
/// A thread is never deeper than there are comments.
pub open spec fn thread_lines(comments: Seq<CommentView>, i: nat, depth: nat) -> Seq<Seq<char>>
    decreases comments.len() - depth, comments.len() + 1,
{
    if depth < comments.len() {
        comment_lines(comments[i as int], depth) + reply_lines(comments, i, depth, comments.len())
    } else {
        Seq::empty()
    }
}

/// What the first `n` comments hold that answers comment `i`.
pub open spec fn reply_lines(comments: Seq<CommentView>, i: nat, depth: nat, n: nat) -> Seq<
    Seq<char>,
>
    decreases comments.len() - depth, n,
{
    if n == 0 || depth >= comments.len() {
        Seq::empty()
    } else {
        let before = reply_lines(comments, i, depth, (n - 1) as nat);
        if parent_of(comments, (n - 1) as nat) == Some(i) {
            before + thread_lines(comments, (n - 1) as nat, depth + 1)
        } else {
            before
        }
    }
}

/// The parents from a thread's first comment down: each answers the one before it.
pub open spec fn lineage(comments: Seq<CommentView>, path: Seq<nat>) -> bool {
    &&& path.len() > 0
    &&& path.no_duplicates()
    &&& forall|k: int| 0 <= k < path.len() ==> (#[trigger] path[k]) < comments.len()
    &&& parent_of(comments, path[0]) is None
    &&& forall|k: int|
        0 < k < path.len() ==> parent_of(comments, #[trigger] path[k]) == Some(path[k - 1])
}

pub proof fn lemma_lineage_extends(comments: Seq<CommentView>, path: Seq<nat>, child: nat)
    requires
        lineage(comments, path),
        child < comments.len(),
        parent_of(comments, child) == Some(path.last()),
    ensures
        lineage(comments, path.push(child)),
{
    assert forall|k: int| 0 <= k < path.len() implies path[k] != child by {
        if k > 0 && path[k] == child {
            assert(path[k - 1] == path[path.len() - 1]);
        }
    }
    let longer = path.push(child);
    assert forall|k: int| 0 < k < longer.len() implies parent_of(comments, #[trigger] longer[k])
        == Some(longer[k - 1]) by {
        if k < path.len() {
            assert(longer[k] == path[k]);
        }
    }
}

pub proof fn lemma_lineage_is_short(comments: Seq<CommentView>, path: Seq<nat>)
    requires
        lineage(comments, path),
    ensures
        path.len() <= comments.len(),
{
    let ints = path.map_values(|n: nat| n as int);
    assert(ints.no_duplicates()) by {
        assert forall|a: int, b: int| 0 <= a < ints.len() && 0 <= b < ints.len() && a != b implies ints[a]
            != ints[b] by {
            assert(path[a] != path[b]);
        }
    }
    ints.unique_seq_to_set();
    vstd::set_lib::lemma_int_range(0, comments.len() as int);
    let all = vstd::set_lib::set_int_range(0, comments.len() as int);
    assert(ints.to_set().subset_of(all)) by {
        assert forall|x: int| ints.to_set().contains(x) implies all.contains(x) by {
            let k = ints.index_of(x);
            assert(ints[k] == x);
            assert(path[k] < comments.len());
        }
    }
    vstd::set_lib::lemma_len_subset(ints.to_set(), all);
}

/// One comment and its replies, as lines.
fn write_thread(
    out: &mut Vec<String>,
    comments: &[ReviewComment],
    index: usize,
    depth: usize,
    Ghost(path): Ghost<Seq<nat>>,
)
    requires
        lineage(comment_views(comments@), path),
        path.last() == index,
        path.len() == depth + 1,
    ensures
        views(final(out)@) == views(old(out)@) + thread_lines(
            comment_views(comments@),
            index as nat,
            depth as nat,
        ),
    decreases comments@.len() - depth,
{
    let ghost all = comment_views(comments@);
    proof {
        lemma_lineage_is_short(all, path);
        assert(path[path.len() - 1] < all.len());
    }
    let ghost start = views(out@);
    write_comment(out, &comments[index], depth);
    let ghost opened = views(out@);
    assert(all[index as int] == comments@[index as int]@);
    let mut i: usize = 0;
    assert(opened + Seq::<Seq<char>>::empty() =~= opened);
    while i < comments.len()
        invariant
            i <= comments@.len(),
            all == comment_views(comments@),
            lineage(all, path),
            path.last() == index,
            path.len() == depth + 1,
            depth < comments@.len(),
            views(out@) == opened + reply_lines(all, index as nat, depth as nat, i as nat),
        decreases comments@.len() - i,
    {
        let ghost before = views(out@);
        match find_parent(comments, i) {
            Some(parent) => {
                if parent == index {
                    proof {
                        lemma_lineage_extends(all, path, i as nat);
                        lemma_lineage_is_short(all, path.push(i as nat));
                    }
                    write_thread(out, comments, i, depth + 1, Ghost(path.push(i as nat)));
                    assert(before + thread_lines(all, i as nat, depth as nat + 1) =~= opened + (
                    reply_lines(all, index as nat, depth as nat, i as nat) + thread_lines(
                        all,
                        i as nat,
                        depth as nat + 1,
                    )));
                }
            },
            None => {},
        }
        i += 1;
    }
    assert(start + (comment_lines(all[index as int], depth as nat) + reply_lines(
        all,
        index as nat,
        depth as nat,
        all.len(),
    )) =~= opened + reply_lines(all, index as nat, depth as nat, all.len()));
}

/// The first of the first `n` files that has the given path.
pub open spec fn first_file(files: Seq<FileView>, path: Seq<char>, n: nat) -> Option<usize>
    decreases n,
{
    if n == 0 {
        None
    } else {
        match first_file(files, path, (n - 1) as nat) {
            Some(file) => Some(file),
            None => if files[n - 1].path == Some(path) { Some((n - 1) as usize) } else { None },
        }
    }
}

/// The files' contents, one by one.
pub open spec fn file_views(files: Seq<FileDiff>) -> Seq<FileView> {
    files.map_values(|f: FileDiff| f@)
}

/// Finds the first file with the given path.
pub fn find_file(files: &Vec<FileDiff>, path: &str) -> (r: Option<usize>)
    ensures
        r == first_file(file_views(files@), path@, files@.len()),
        r matches Some(f) ==> f < files@.len(),
{
    let ghost all = file_views(files@);
    let mut found: Option<usize> = None;
    let mut i: usize = 0;
    while i < files.len()
        invariant
            i <= files@.len(),
            all == file_views(files@),
            found == first_file(all, path@, i as nat),
            found matches Some(f) ==> f < i,
        decreases files@.len() - i,
    {
        assert(all[i as int] == files@[i as int]@);
        if found.is_none() {
            match &files[i].path {
                Some(own) => {
                    if same(own.as_str(), path) {
                        found = Some(i);
                    }
                },
                None => {},
            }
        }
        i += 1;
    }
    found
}

/// Where the thread that comment `i` begins is drawn: the file, the side and the line.
///
/// A comment that answers another one begins no thread. One that answers a comment that is not
/// in the list does.
pub open spec fn thread_key(files: Seq<FileView>, comments: Seq<CommentView>, i: nat) -> Option<
    (usize, bool, u32),
> {
    if parent_of(comments, i) is None {
        match anchored(comments[i as int]) {
            Some((path, old_side, line)) => match first_file(files, path, files.len()) {
                Some(file) => Some((file, old_side, line)),
                None => None,
            },
            None => None,
        }
    } else {
        None
    }
}

/// What the first `n` comments say about a line on one side of a file.
pub open spec fn discussion(
    files: Seq<FileView>,
    comments: Seq<CommentView>,
    key: (usize, bool, u32),
    n: nat,
) -> Seq<Seq<char>>
    decreases n,
{
    if n == 0 {
        Seq::empty()
    } else {
        let before = discussion(files, comments, key, (n - 1) as nat);
        if thread_key(files, comments, (n - 1) as nat) == Some(key) {
            before + thread_lines(comments, (n - 1) as nat, 0)
        } else {
            before
        }
    }
}

/// The existing discussion, comment by comment: where its thread is drawn, and its lines.
pub struct Threads {
    /// Where each thread is drawn, for the comments that begin one.
    pub keys: Vec<Option<(usize, bool, u32)>>,
    /// The lines of each thread.
    pub texts: Vec<Vec<String>>,
}

impl Threads {
    /// Whether these are the threads of the given comments on the given files.
    pub open spec fn of(&self, files: Seq<FileView>, comments: Seq<CommentView>) -> bool {
        &&& self.keys@.len() == comments.len()
        &&& self.texts@.len() == comments.len()
        &&& forall|i: int|
            0 <= i < comments.len() ==> (#[trigger] self.keys@[i]) == thread_key(
                files,
                comments,
                i as nat,
            )
        &&& forall|i: int|
            0 <= i < comments.len() && (#[trigger] self.keys@[i]) is Some ==> views(
                self.texts@[i]@,
            ) == thread_lines(comments, i as nat, 0)
    }
}

/// The existing discussion, keyed by the file and line it is about.
///
/// Grouped by thread, not by comment: a reply belongs under the comment it answers.
pub fn threads_by_line(patch: &Patch, comments: &[ReviewComment]) -> (r: Threads)
    ensures
        r.of(patch@.files, comment_views(comments@)),
{
    let ghost all = comment_views(comments@);
    let mut keys: Vec<Option<(usize, bool, u32)>> = Vec::new();
    let mut texts: Vec<Vec<String>> = Vec::new();
    let mut i: usize = 0;
    while i < comments.len()
        invariant
            i <= comments@.len(),
            all == comment_views(comments@),
            keys@.len() == i,
            texts@.len() == i,
            forall|j: int|
                0 <= j < i ==> (#[trigger] keys@[j]) == thread_key(patch@.files, all, j as nat),
            forall|j: int|
                0 <= j < i && (#[trigger] keys@[j]) is Some ==> views(texts@[j]@) == thread_lines(
                    all,
                    j as nat,
                    0,
                ),
        decreases comments@.len() - i,
    {
        let mut key: Option<(usize, bool, u32)> = None;
        let mut lines: Vec<String> = Vec::new();
        assert(all[i as int] == comments@[i as int]@);
        assert(file_views(patch.files@) =~= patch@.files);
        if find_parent(comments, i).is_none() {
            match anchor_of(&comments[i]) {
                Some((path, old_side, line)) => match find_file(&patch.files, path) {
                    Some(file) => {
                        key = Some((file, old_side, line));
                        let ghost path = seq![i as nat];
                        assert(lineage(all, path));
                        write_thread(&mut lines, comments, i, 0, Ghost(path));
                        assert(views(lines@) =~= thread_lines(all, i as nat, 0));
                    },
                    None => {},
                },
                None => {},
            }
        }
        keys.push(key);
        texts.push(lines);
        i += 1;
    }
    Threads { keys, texts }
}

// Flattening.

/// The row of a line of a hunk.
pub open spec fn line_row(line: LineView, file: usize, hunk: usize) -> RowView {
    RowView {
        kind: RowKind::Line,
        file,
        hunk: Some(hunk),
        old_line: line.old_line,
        new_line: line.new_line,
        text: line.content,
        line_kind: Some(line.kind),
        no_newline: line.no_newline,
    }
}

/// The row of one line of the discussion about a line.
pub open spec fn said_row(line: LineView, file: usize, hunk: usize, text: Seq<char>) -> RowView {
    RowView {
        kind: RowKind::Discussion,
        file,
        hunk: Some(hunk),
        old_line: line.old_line,
        new_line: line.new_line,
        text,
        line_kind: None,
        no_newline: false,
    }
}

/// What is said about a line on one of its sides.
pub open spec fn said_on(
    files: Seq<FileView>,
    comments: Seq<CommentView>,
    file: usize,
    old_side: bool,
    number: Option<u32>,
) -> Seq<Seq<char>> {
    match number {
        Some(n) => discussion(files, comments, (file, old_side, n), comments.len()),
        None => Seq::empty(),
    }
}

/// A line's row and the discussion about it: the new side's, then the old side's.
pub open spec fn line_rows(
    files: Seq<FileView>,
    comments: Seq<CommentView>,
    line: LineView,
    file: usize,
    hunk: usize,
) -> Seq<RowView> {
    let said = said_on(files, comments, file, false, line.new_line) + said_on(
        files,
        comments,
        file,
        true,
        line.old_line,
    );
    seq![line_row(line, file, hunk)] + said.map_values(
        |text: Seq<char>| said_row(line, file, hunk, text),
    )
}

/// The rows of the first `n` lines of a hunk.
pub open spec fn rows_of_lines(
    files: Seq<FileView>,
    comments: Seq<CommentView>,
    lines: Seq<LineView>,
    file: usize,
    hunk: usize,
    n: nat,
) -> Seq<RowView>
    decreases n,
{
    if n == 0 {
        Seq::empty()
    } else {
        rows_of_lines(files, comments, lines, file, hunk, (n - 1) as nat) + line_rows(
            files,
            comments,
            lines[n - 1],
            file,
            hunk,
        )
    }
}

/// The sentence a folded hunk is replaced by.
pub open spec fn folded_text(lines: nat) -> Seq<char> {
    "… "@ + decimal(lines) + " lines folded (za to open)"@
}

/// The rows of one hunk: its header, and its lines or the sentence that stands for them.
pub open spec fn hunk_rows(
    files: Seq<FileView>,
    folded: Seq<(usize, usize)>,
    comments: Seq<CommentView>,
    hunk: HunkView,
    file: usize,
    index: usize,
) -> Seq<RowView> {
    seq![bare_row(RowKind::HunkHeader, file, Some(index), hunk.header)] + if folded.contains(
        (file, index),
    ) {
        seq![bare_row(RowKind::Folded, file, Some(index), folded_text(hunk.lines.len()))]
    } else {
        rows_of_lines(files, comments, hunk.lines, file, index, hunk.lines.len())
    }
}

/// The rows of the first `n` hunks of a file.
pub open spec fn rows_of_hunks(
    files: Seq<FileView>,
    folded: Seq<(usize, usize)>,
    comments: Seq<CommentView>,
    hunks: Seq<HunkView>,
    file: usize,
    n: nat,
) -> Seq<RowView>
    decreases n,
{
    if n == 0 {
        Seq::empty()
    } else {
        rows_of_hunks(files, folded, comments, hunks, file, (n - 1) as nat) + hunk_rows(
            files,
            folded,
            comments,
            hunks[n - 1],
            file,
            (n - 1) as usize,
        )
    }
}

/// The banner of a file: what happened to it, and where it is.
pub open spec fn banner(file: FileView) -> Seq<char> {
    seq![file.status.letter()] + " "@ + file.display_path
}

/// The rows of one file: its banner, and its hunks or the sentence that stands for them.
pub open spec fn file_rows(
    files: Seq<FileView>,
    folded: Seq<(usize, usize)>,
    comments: Seq<CommentView>,
    file: FileView,
    index: usize,
) -> Seq<RowView> {
    seq![bare_row(RowKind::FileHeader, index, None, banner(file))] + match file.placeholder {
        Some(text) => seq![bare_row(RowKind::Placeholder, index, None, text)],
        None => rows_of_hunks(files, folded, comments, file.hunks, index, file.hunks.len()),
    }
}

/// The rows of the first `n` files of a patch.
pub open spec fn rows_of_files(
    files: Seq<FileView>,
    folded: Seq<(usize, usize)>,
    comments: Seq<CommentView>,
    n: nat,
) -> Seq<RowView>
    decreases n,
{
    if n == 0 {
        Seq::empty()
    } else {
        rows_of_files(files, folded, comments, (n - 1) as nat) + file_rows(
            files,
            folded,
            comments,
            files[n - 1],
            (n - 1) as usize,
        )
    }
}

/// All rows of a patch.
pub open spec fn flattened(
    files: Seq<FileView>,
    folded: Seq<(usize, usize)>,
    comments: Seq<CommentView>,
) -> Seq<RowView> {
    rows_of_files(files, folded, comments, files.len())
}

/// Whether a hunk is among the folded ones.
pub fn is_folded(folded: &Vec<(usize, usize)>, file: usize, hunk: usize) -> (r: bool)
    ensures
        r == folded@.contains((file, hunk)),
{
    let mut i: usize = 0;
    while i < folded.len()
        invariant
            i <= folded@.len(),
            forall|j: int| 0 <= j < i ==> folded@[j] != (file, hunk),
        decreases folded@.len() - i,
    {
        if folded[i].0 == file && folded[i].1 == hunk {
            assert(folded@[i as int] == (file, hunk));
            return true;
        }
        i += 1;
    }
    false
}

fn push_side(
    rows: &mut Vec<DiffRow>,
    threads: &Threads,
    line: &DiffLine,
    file: usize,
    hunk: usize,
    old_side: bool,
    Ghost(files): Ghost<Seq<FileView>>,
    Ghost(comments): Ghost<Seq<CommentView>>,
)
    requires
        threads.of(files, comments),
    ensures
        row_views(final(rows)@) == row_views(old(rows)@) + said_on(
            files,
            comments,
            file,
            old_side,
            if old_side { line.old_line } else { line.new_line },
        ).map_values(|text: Seq<char>| said_row(line@, file, hunk, text)),
{
    broadcast use lemma_row_views_push;
    let side: Option<u32> = if old_side { line.old_line } else { line.new_line };
    let ghost make = |text: Seq<char>| said_row(line@, file, hunk, text);
    let ghost before = row_views(rows@);
    match side {
        Some(n) => {
            let mut i: usize = 0;
            let ghost key = (file, old_side, n);
            assert(before + discussion(files, comments, key, 0).map_values(make) =~= before);
            while i < threads.keys.len()
                invariant
                    i <= threads.keys@.len(),
                    threads.of(files, comments),
                    key == (file, old_side, n),
                    make == (|text: Seq<char>| said_row(line@, file, hunk, text)),
                    row_views(rows@) == before + discussion(
                        files,
                        comments,
                        key,
                        i as nat,
                    ).map_values(make),
                decreases threads.keys@.len() - i,
            {
                let here: bool = match threads.keys[i] {
                    Some((f, o, l)) => f == file && o == old_side && l == n,
                    None => false,
                };
                assert(here == (threads.keys@[i as int] == Some(key)));
                if here {
                    let texts: &Vec<String> = &threads.texts[i];
                    let ghost said = discussion(files, comments, key, i as nat);
                    let ghost more = thread_lines(comments, i as nat, 0);
                    let mut j: usize = 0;
                    assert(said + more.subrange(0, 0) =~= said);
                    while j < texts.len()
                        invariant
                            j <= texts@.len(),
                            views(texts@) == more,
                            make == (|text: Seq<char>| said_row(line@, file, hunk, text)),
                            row_views(rows@) == before + (said + more.subrange(
                                0,
                                j as int,
                            )).map_values(make),
                        decreases texts@.len() - j,
                    {
                        assert(views(texts@)[j as int] == texts@[j as int]@);
                        assert(more.len() == texts@.len());
                        rows.push(
                            DiffRow {
                                kind: RowKind::Discussion,
                                file,
                                hunk: Some(hunk),
                                old_line: line.old_line,
                                new_line: line.new_line,
                                text: texts[j].clone(),
                                line_kind: None,
                                no_newline: false,
                            },
                        );
                        j += 1;
                        assert((said + more.subrange(0, j as int)).map_values(make) =~= (said
                            + more.subrange(0, j - 1)).map_values(make).push(make(more[j - 1])));
                        assert(before + (said + more.subrange(0, j as int)).map_values(make)
                            =~= (before + (said + more.subrange(0, j - 1)).map_values(make)).push(
                            make(more[j - 1]),
                        ));
                    }
                    assert(views(texts@).len() == texts@.len());
                    assert(more.subrange(0, j as int) =~= more);
                }
                i += 1;
            }
        },
        None => {
            assert(before + Seq::<Seq<char>>::empty().map_values(make) =~= before);
        },
    }
}

fn push_line(
    rows: &mut Vec<DiffRow>,
    threads: &Threads,
    line: &DiffLine,
    file: usize,
    hunk: usize,
    Ghost(files): Ghost<Seq<FileView>>,
    Ghost(comments): Ghost<Seq<CommentView>>,
)
    requires
        threads.of(files, comments),
    ensures
        row_views(final(rows)@) == row_views(old(rows)@) + line_rows(
            files,
            comments,
            line@,
            file,
            hunk,
        ),
{
    broadcast use lemma_row_views_push;
    let ghost before = row_views(rows@);
    rows.push(
        DiffRow {
            kind: RowKind::Line,
            file,
            hunk: Some(hunk),
            old_line: line.old_line,
            new_line: line.new_line,
            text: line.content.clone(),
            line_kind: Some(line.kind),
            no_newline: line.no_newline,
        },
    );
    push_side(rows, threads, line, file, hunk, false, Ghost(files), Ghost(comments));
    push_side(rows, threads, line, file, hunk, true, Ghost(files), Ghost(comments));
    proof {
        let make = |text: Seq<char>| said_row(line@, file, hunk, text);
        let new_side = said_on(files, comments, file, false, line.new_line);
        let old_side = said_on(files, comments, file, true, line.old_line);
        assert((new_side + old_side).map_values(make) =~= new_side.map_values(make)
            + old_side.map_values(make));
        assert(before.push(line_row(line@, file, hunk)) + new_side.map_values(make)
            + old_side.map_values(make) =~= before + (seq![line_row(line@, file, hunk)] + (new_side
            + old_side).map_values(make)));
    }
}

fn push_hunk(
    rows: &mut Vec<DiffRow>,
    threads: &Threads,
    folded: &Vec<(usize, usize)>,
    hunk: &Hunk,
    file: usize,
    index: usize,
    Ghost(files): Ghost<Seq<FileView>>,
    Ghost(comments): Ghost<Seq<CommentView>>,
)
    requires
        threads.of(files, comments),
    ensures
        row_views(final(rows)@) == row_views(old(rows)@) + hunk_rows(
            files,
            folded@,
            comments,
            hunk@,
            file,
            index,
        ),
{
    broadcast use lemma_row_views_push;
    let ghost before = row_views(rows@);
    rows.push(bare(RowKind::HunkHeader, file, Some(index), hunk.header.clone()));
    let ghost header = bare_row(RowKind::HunkHeader, file, Some(index), hunk@.header);
    if is_folded(folded, file, index) {
        let text = concat3("… ", number(hunk.lines.len() as u64).as_str(), " lines folded (za to open)");
        rows.push(bare(RowKind::Folded, file, Some(index), text));
        assert(before.push(header).push(rows@.last()@) =~= before + (seq![header] + seq![
            rows@.last()@,
        ]));
    } else {
        let mut i: usize = 0;
        assert(before.push(header) + Seq::<RowView>::empty() =~= before.push(header));
        while i < hunk.lines.len()
            invariant
                i <= hunk.lines@.len(),
                threads.of(files, comments),
                row_views(rows@) == before.push(header) + rows_of_lines(
                    files,
                    comments,
                    hunk@.lines,
                    file,
                    index,
                    i as nat,
                ),
            decreases hunk.lines@.len() - i,
        {
            assert(hunk@.lines[i as int] == hunk.lines@[i as int]@);
            let ghost so_far = rows_of_lines(files, comments, hunk@.lines, file, index, i as nat);
            push_line(rows, threads, &hunk.lines[i], file, index, Ghost(files), Ghost(comments));
            i += 1;
            proof {
                let more = line_rows(files, comments, hunk@.lines[i - 1], file, index);
                assert(before.push(header) + so_far + more =~= before.push(header) + (so_far + more));
            }
        }
        proof {
            let body = rows_of_lines(files, comments, hunk@.lines, file, index, i as nat);
            assert(before.push(header) + body =~= before + (seq![header] + body));
        }
    }
}

/// Flattens a patch into drawable rows.
pub fn flatten(patch: &Patch, folded: &Vec<(usize, usize)>, comments: &[ReviewComment]) -> (rows: Vec<
    DiffRow,
>)
    ensures
        row_views(rows@) == flattened(patch@.files, folded@, comment_views(comments@)),
{
    broadcast use lemma_row_views_push;
    let threads = threads_by_line(patch, comments);
    let ghost files = patch@.files;
    let ghost said = comment_views(comments@);
    let mut rows: Vec<DiffRow> = Vec::new();
    let mut i: usize = 0;
    assert(row_views(rows@) =~= Seq::empty());
    while i < patch.files.len()
        invariant
            i <= patch.files@.len(),
            files == patch@.files,
            said == comment_views(comments@),
            threads.of(files, said),
            row_views(rows@) == rows_of_files(files, folded@, said, i as nat),
        decreases patch.files@.len() - i,
    {
        let file: &FileDiff = &patch.files[i];
        assert(files[i as int] == file@);
        let ghost before = row_views(rows@);
        let ghost head = bare_row(RowKind::FileHeader, i, None, banner(file@));
        let text = concat3(file.status.marker(), " ", file.display_path.as_str());
        rows.push(bare(RowKind::FileHeader, i, None, text));
        match &file.placeholder {
            Some(sentence) => {
                rows.push(bare(RowKind::Placeholder, i, None, sentence.clone()));
                assert(before.push(head).push(rows@.last()@) =~= before + (seq![head] + seq![
                    rows@.last()@,
                ]));
            },
            None => {
                let mut h: usize = 0;
                assert(before.push(head) + Seq::<RowView>::empty() =~= before.push(head));
                while h < file.hunks.len()
                    invariant
                        h <= file.hunks@.len(),
                        threads.of(files, said),
                        row_views(rows@) == before.push(head) + rows_of_hunks(
                            files,
                            folded@,
                            said,
                            file@.hunks,
                            i,
                            h as nat,
                        ),
                    decreases file.hunks@.len() - h,
                {
                    assert(file@.hunks[h as int] == file.hunks@[h as int]@);
                    let ghost so_far = rows_of_hunks(files, folded@, said, file@.hunks, i, h as nat);
                    push_hunk(
                        &mut rows,
                        &threads,
                        folded,
                        &file.hunks[h],
                        i,
                        h,
                        Ghost(files),
                        Ghost(said),
                    );
                    h += 1;
                    proof {
                        let more = hunk_rows(
                            files,
                            folded@,
                            said,
                            file@.hunks[h - 1],
                            i,
                            (h - 1) as usize,
                        );
                        assert(before.push(head) + so_far + more =~= before.push(head) + (so_far
                            + more));
                    }
                }
                proof {
                    let body = rows_of_hunks(files, folded@, said, file@.hunks, i, h as nat);
                    assert(before.push(head) + body =~= before + (seq![head] + body));
                }
            },
        }
        i += 1;
    }
    rows
}

} // verus!
