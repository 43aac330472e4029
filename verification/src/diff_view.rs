//! The diff pane: a patch, the rows it flattens to, the tree, and the cursor.
//!
//! The patch is flattened once, when it or a fold changes, into rows that carry everything a
//! frame draws; drawing then slices out the rows that fit on screen.

use vstd::prelude::*;

use crate::chat_laws::lemma_leaving_out;
use crate::order::{goes_on, in_turn, lemma_listed_in_turn};
use crate::patch::{
    comment_views, copy_comments, same_comments, FileKind, FileStatus, Patch, PatchView,
    ReviewComment,
};
use crate::plan::{position, OrderMode, Plan};
use crate::rows::{flatten, flattened, is_folded, row_views, DiffRow, RowKind, RowView};
use crate::scroll::{
    clamped_offset, dragged, ensure_visible, scroll_view, shifted, step, stepped, visible_offset,
    window,
};
use crate::split::{build_split, paired, paired_index, shows_row, split_views, SplitRow};
use crate::strings::{concat3, concat5, decimal, number, same, views};
use crate::text::{truncate, truncated};
use crate::tree::{
    build_plan_tree, build_tree, path_tree, plan_tree, tree_fits, tree_views, KindView, TreeKind,
    TreeRow, TreeView,
};

verus! {

/// The diff pane: a patch, the rows it flattens to, the tree, and the cursor.
#[derive(Debug)]
pub struct DiffView {
    /// The patch being read.
    pub patch: Patch,
    /// The flattened rows, rebuilt only when the patch or the folds change.
    pub rows: Vec<DiffRow>,
    /// The same content paired up for the side-by-side view.
    pub split_rows: Vec<SplitRow>,
    /// For each unified row, the split row that shows it.
    pub split_index: Vec<usize>,
    /// The file tree, rebuilt with [`Self::rebuild`].
    pub tree: Vec<TreeRow>,
    /// The cursor, as an index into [`Self::rows`].
    pub cursor: usize,
    /// The first visible row.
    pub scroll: usize,
    /// The height of the diff pane, learned from the last frame so paging can use it.
    pub viewport: u16,
    /// Which hunks are folded, as `(file, hunk)`, each once.
    pub folded_hunks: Vec<(usize, usize)>,
    /// Which directories and groups are folded, by path or name, each once.
    pub folded_dirs: Vec<String>,
    /// Whether the tree has the cursor rather than the diff.
    pub tree_focused: bool,
    /// The cursor inside the tree.
    pub tree_cursor: usize,
    /// The first visible row of the tree.
    pub tree_scroll: usize,
    /// How many tree rows fit, learned from the last frame.
    pub tree_viewport: u16,
    /// Whether the split view is asked for. Whether it can be shown is a width question,
    /// answered at draw time.
    pub split: bool,
    /// How many lines of context the diff was produced with.
    pub context: u32,
    /// Whether the diff was produced with whitespace ignored.
    pub ignore_whitespace: bool,
    /// The comments that exist already, drawn under the lines they are about.
    pub comments: Vec<ReviewComment>,
    /// Which order the tree is in.
    pub order: OrderMode,
    /// The review plan, when there is one.
    pub plan: Option<Plan>,
}

/// The cursor kept among `len` rows.
pub open spec fn clamped_cursor(cursor: nat, len: nat) -> nat {
    if cursor < len {
        cursor
    } else if len > 0 {
        (len - 1) as nat
    } else {
        0
    }
}

fn clamp_to(cursor: usize, len: usize) -> (r: usize)
    ensures
        r == clamped_cursor(cursor as nat, len as nat),
{
    if cursor < len { cursor } else if len > 0 { len - 1 } else { 0 }
}

/// The first of the first `n` rows that satisfies a condition.
pub open spec fn first_row(rows: Seq<RowView>, wanted: spec_fn(RowView) -> bool, n: nat) -> Option<
    usize,
>
    decreases n,
{
    if n == 0 {
        None
    } else {
        match first_row(rows, wanted, (n - 1) as nat) {
            Some(i) => Some(i),
            None => if wanted(rows[n - 1]) { Some((n - 1) as usize) } else { None },
        }
    }
}

/// The first row found satisfies the condition, and none before it does.
pub proof fn lemma_first_row(rows: Seq<RowView>, wanted: spec_fn(RowView) -> bool, n: nat)
    requires
        n <= rows.len(),
        rows.len() <= usize::MAX,
    ensures
        match first_row(rows, wanted, n) {
            Some(i) => i < n && wanted(rows[i as int]) && forall|j: int|
                0 <= j < i ==> !wanted(#[trigger] rows[j]),
            None => forall|j: int| 0 <= j < n ==> !wanted(#[trigger] rows[j]),
        },
    decreases n,
{
    if n > 0 {
        lemma_first_row(rows, wanted, (n - 1) as nat);
    }
}

/// The first of the first `n` tree rows that stands for a file.
pub open spec fn tree_place(tree: Seq<TreeView>, file: usize, n: nat) -> Option<usize>
    decreases n,
{
    if n == 0 {
        None
    } else {
        match tree_place(tree, file, (n - 1) as nat) {
            Some(i) => Some(i),
            None => if tree[n - 1].kind == (KindView::File { index: file }) {
                Some((n - 1) as usize)
            } else {
                None
            },
        }
    }
}

/// The tree row found stands for the file.
pub proof fn lemma_tree_place(tree: Seq<TreeView>, file: usize, n: nat)
    requires
        n <= tree.len(),
        tree.len() <= usize::MAX,
    ensures
        match tree_place(tree, file, n) {
            Some(i) => i < n && tree[i as int].kind == (KindView::File { index: file }),
            None => forall|j: int|
                0 <= j < n ==> (#[trigger] tree[j]).kind != (KindView::File { index: file }),
        },
    decreases n,
{
    if n > 0 {
        lemma_tree_place(tree, file, (n - 1) as nat);
    }
}

/// The next row of a kind from `from` on.
pub open spec fn next_of(rows: Seq<RowView>, kind: RowKind, from: nat) -> Option<usize>
    decreases rows.len() - from,
{
    if from >= rows.len() {
        None
    } else if rows[from as int].kind == kind {
        Some(from as usize)
    } else {
        next_of(rows, kind, from + 1)
    }
}

/// The last row of a kind among the first `n`.
pub open spec fn prev_of(rows: Seq<RowView>, kind: RowKind, n: nat) -> Option<usize>
    decreases n,
{
    if n == 0 {
        None
    } else if rows[n - 1].kind == kind {
        Some((n - 1) as usize)
    } else {
        prev_of(rows, kind, (n - 1) as nat)
    }
}

/// Where a jump to the neighbouring row of a kind lands; without one it stays.
pub open spec fn jumped(rows: Seq<RowView>, kind: RowKind, cursor: nat, forward: bool) -> nat {
    let found = if forward { next_of(rows, kind, cursor + 1) } else { prev_of(rows, kind, cursor) };
    match found {
        Some(i) => i as nat,
        None => cursor,
    }
}

/// A jump lands on a row of the kind, or stays.
pub proof fn lemma_jumped(rows: Seq<RowView>, kind: RowKind, cursor: nat, forward: bool)
    requires
        rows.len() <= usize::MAX,
        cursor < rows.len(),
    ensures
        jumped(rows, kind, cursor, forward) < rows.len(),
        jumped(rows, kind, cursor, forward) == cursor || rows[jumped(
            rows,
            kind,
            cursor,
            forward,
        ) as int].kind == kind,
        forward ==> jumped(rows, kind, cursor, forward) >= cursor,
        !forward ==> jumped(rows, kind, cursor, forward) <= cursor,
{
    if forward {
        lemma_next_of(rows, kind, cursor + 1);
    } else {
        lemma_prev_of(rows, kind, cursor);
    }
}

proof fn lemma_next_of(rows: Seq<RowView>, kind: RowKind, from: nat)
    requires
        rows.len() <= usize::MAX,
    ensures
        next_of(rows, kind, from) matches Some(i) ==> from <= i < rows.len() && rows[i as int].kind
            == kind,
    decreases rows.len() - from,
{
    if from < rows.len() && rows[from as int].kind != kind {
        lemma_next_of(rows, kind, from + 1);
    }
}

proof fn lemma_prev_of(rows: Seq<RowView>, kind: RowKind, n: nat)
    requires
        rows.len() <= usize::MAX,
        n <= rows.len(),
    ensures
        prev_of(rows, kind, n) matches Some(i) ==> i < n && rows[i as int].kind == kind,
    decreases n,
{
    if n > 0 && rows[n - 1].kind != kind {
        lemma_prev_of(rows, kind, (n - 1) as nat);
    }
}

/// The condition under which the cursor returns to a line: same file, same numbers.
pub open spec fn is_line_at(file: usize, new_line: Option<u32>, old_line: Option<u32>) -> spec_fn(
    RowView,
) -> bool {
    |row: RowView|
        row.kind == RowKind::Line && row.file == file && row.new_line == new_line && row.old_line
            == old_line
}

/// The condition of being a file's banner.
pub open spec fn is_banner_of(file: usize) -> spec_fn(RowView) -> bool {
    |row: RowView| row.kind == RowKind::FileHeader && row.file == file
}

/// Adds a hunk to the folded ones, unless it is there.
fn fold(folded: &mut Vec<(usize, usize)>, key: (usize, usize))
    ensures
        forall|k: (usize, usize)| #[trigger]
            final(folded)@.contains(k) <==> old(folded)@.contains(k) || k == key,
        old(folded)@.no_duplicates() ==> final(folded)@.no_duplicates(),
{
    let ghost before = folded@;
    if !is_folded(folded, key.0, key.1) {
        assert((key.0, key.1) == key);
        folded.push(key);
        proof {
            assert forall|k: (usize, usize)| #[trigger] folded@.contains(k) implies before.contains(k)
                || k == key by {
                let i = folded@.index_of(k);
                if i < before.len() {
                    assert(before[i] == k);
                }
            }
            assert forall|k: (usize, usize)| before.contains(k) || k == key implies
                #[trigger] folded@.contains(k) by {
                if before.contains(k) {
                    let i = before.index_of(k);
                    assert(folded@[i] == k);
                } else {
                    assert(folded@[before.len() as int] == k);
                }
            }
            if before.no_duplicates() {
                assert forall|i: int, j: int|
                    0 <= i < folded@.len() && 0 <= j < folded@.len() && i != j implies folded@[i]
                    != folded@[j] by {
                    if i == before.len() {
                        assert(before[j] == folded@[j]);
                        assert(before.contains(before[j]));
                    } else if j == before.len() {
                        assert(before[i] == folded@[i]);
                        assert(before.contains(before[i]));
                    } else {
                        assert(before[i] != before[j]);
                    }
                }
            }
        }
    }
}

/// Takes a hunk out of the folded ones.
fn unfold(folded: &mut Vec<(usize, usize)>, key: (usize, usize))
    ensures
        forall|k: (usize, usize)| #[trigger]
            final(folded)@.contains(k) <==> old(folded)@.contains(k) && k != key,
        old(folded)@.no_duplicates() ==> final(folded)@.no_duplicates(),
{
    let ghost before = folded@;
    let mut kept: Vec<(usize, usize)> = Vec::new();
    let ghost mut from: Seq<int> = Seq::empty();
    let mut i: usize = 0;
    while i < folded.len()
        invariant
            i <= folded@.len(),
            before == folded@,
            from.len() == kept@.len(),
            forall|j: int| 0 <= j < from.len() ==> 0 <= #[trigger] from[j] < i,
            forall|j: int| 0 <= j < from.len() ==> kept@[j] == before[#[trigger] from[j]] && kept@[j] != key,
            forall|a: int, b: int| 0 <= a < b < from.len() ==> from[a] < from[b],
            forall|j: int| 0 <= j < i && before[j] != key ==> kept@.contains(#[trigger] before[j]),
        decreases folded@.len() - i,
    {
        let item: (usize, usize) = folded[i];
        let ghost seen = kept@;
        if item.0 != key.0 || item.1 != key.1 {
            kept.push(item);
            proof {
                from = from.push(i as int);
                assert(kept@[seen.len() as int] == before[i as int]);
                assert forall|j: int| 0 <= j < i + 1 && before[j] != key implies kept@.contains(
                    #[trigger] before[j],
                ) by {
                    if j < i {
                        let at = seen.index_of(before[j]);
                        assert(kept@[at] == before[j]);
                    }
                }
            }
        } else {
            assert(item == key);
        }
        i += 1;
    }
    proof {
        assert forall|k: (usize, usize)| #[trigger] kept@.contains(k) implies before.contains(k) && k
            != key by {
            let j = kept@.index_of(k);
            assert(before[from[j]] == k);
        }
        assert forall|k: (usize, usize)| before.contains(k) && k != key implies
            #[trigger] kept@.contains(k) by {
            let j = before.index_of(k);
            assert(before[j] == k);
        }
        if before.no_duplicates() {
            assert forall|a: int, b: int|
                0 <= a < kept@.len() && 0 <= b < kept@.len() && a != b implies kept@[a]
                != kept@[b] by {
                if a < b {
                    assert(from[a] < from[b]);
                } else {
                    assert(from[b] < from[a]);
                }
            }
        }
    }
    *folded = kept;
}

/// Adds a name to the folded ones.
fn fold_dir(folded: &mut Vec<String>, name: String)
    requires
        !views(old(folded)@).contains(name@),
    ensures
        views(final(folded)@) == views(old(folded)@).push(name@),
{
    let ghost before = folded@;
    folded.push(name);
    assert(views(folded@) =~= views(before).push(name@));
}

/// The names without one of them.
pub open spec fn names_without(names: Seq<Seq<char>>, name: Seq<char>, n: nat) -> Seq<Seq<char>>
    decreases n,
{
    if n == 0 {
        Seq::empty()
    } else if names[n - 1] == name {
        names_without(names, name, (n - 1) as nat)
    } else {
        names_without(names, name, (n - 1) as nat).push(names[n - 1])
    }
}

/// Takes a name out of the folded ones.
fn unfold_dir(folded: &mut Vec<String>, name: &String)
    ensures
        views(final(folded)@) == names_without(views(old(folded)@), name@, old(folded)@.len()),
{
    let mut kept: Vec<String> = Vec::new();
    let mut i: usize = 0;
    let ghost before = views(folded@);
    assert(views(kept@) =~= Seq::empty());
    while i < folded.len()
        invariant
            i <= folded@.len(),
            before == views(folded@),
            views(kept@) == names_without(before, name@, i as nat),
        decreases folded@.len() - i,
    {
        assert(before[i as int] == folded@[i as int]@);
        if !same(folded[i].as_str(), name.as_str()) {
            let ghost seen = kept@;
            kept.push(folded[i].clone());
            assert(views(kept@) =~= views(seen).push(folded@[i as int]@));
        }
        i += 1;
    }
    *folded = kept;
}

/// A file's change in one letter, for the tree and the header.
pub open spec fn file_letter(status: FileStatus, kind: FileKind) -> char {
    match kind {
        FileKind::Binary => 'B',
        FileKind::ModeOnly => 'M',
        FileKind::Submodule => 'S',
        FileKind::Empty => match status {
            FileStatus::Renamed => 'R',
            FileStatus::Copied => 'C',
            _ => ' ',
        },
        FileKind::Text => status.letter(),
    }
}

/// A file's change in one letter, for the tree and the header.
#[must_use]
pub fn file_marker(status: FileStatus, kind: FileKind) -> (r: &'static str)
    ensures
        r@ == seq![file_letter(status, kind)],
{
    proof {
        reveal_strlit("B");
        reveal_strlit("M");
        reveal_strlit("S");
        reveal_strlit("R");
        reveal_strlit("C");
        reveal_strlit(" ");
    }
    let r = match kind {
        FileKind::Binary => "B",
        FileKind::ModeOnly => "M",
        FileKind::Submodule => "S",
        FileKind::Empty => match status {
            FileStatus::Renamed => "R",
            FileStatus::Copied => "C",
            _ => " ",
        },
        FileKind::Text => status.marker(),
    };
    assert(r@ =~= seq![file_letter(status, kind)]);
    r
}

/// The paths of the first `n` files, leaving out the files without one.
pub open spec fn paths_of(patch: PatchView, n: nat) -> Seq<Seq<char>>
    decreases n,
{
    if n == 0 {
        Seq::empty()
    } else {
        match patch.files[n - 1].path {
            Some(path) => paths_of(patch, (n - 1) as nat).push(path),
            None => paths_of(patch, (n - 1) as nat),
        }
    }
}

impl DiffView {
    /// The rows the patch flattens to under the current folds.
    pub open spec fn wanted_rows(&self) -> Seq<RowView> {
        flattened(self.patch@.files, self.folded_hunks@, comment_views(self.comments@))
    }

    /// The tree of the current order under the current folds.
    pub open spec fn wanted_tree(&self) -> Seq<TreeView> {
        match (self.order, self.plan) {
            (OrderMode::Recommended, Some(plan)) => plan_tree(
                plan@,
                self.patch@.files,
                views(self.folded_dirs@),
            ),
            _ => path_tree(self.patch@.files, views(self.folded_dirs@)),
        }
    }

    /// Whether the split rows are those of the rows.
    pub open spec fn split_matches(&self) -> bool {
        &&& split_views(self.split_rows@) == paired(row_views(self.rows@), 0)
        &&& self.split_index@ == paired_index(row_views(self.rows@), 0, 0)
        &&& self.split_index@.len() == self.rows@.len()
        &&& forall|q: int|
            0 <= q < self.rows@.len() ==> {
                let at = #[trigger] self.split_index@[q];
                &&& at < self.split_rows@.len()
                &&& self.split_rows@[at as int].unified <= q
                &&& shows_row(self.split_rows@[at as int]@, self.rows@[q]@)
            }
    }

    /// Whether both cursors are on a row, or at zero where there is none.
    pub open spec fn cursors_fit(&self) -> bool {
        &&& self.cursor < self.rows@.len() || (self.cursor == 0 && self.rows@.len() == 0)
        &&& self.tree_cursor < self.tree@.len() || (self.tree_cursor == 0 && self.tree@.len() == 0)
    }

    /// The view's invariant: what is drawn is what the patch, the folds, the comments, the order
    /// and the plan say, and both cursors are on a row.
    pub open spec fn inv(&self) -> bool {
        &&& tree_fits(self.patch@.files)
        &&& row_views(self.rows@) == self.wanted_rows()
        &&& self.split_matches()
        &&& tree_views(self.tree@) == self.wanted_tree()
        &&& self.cursors_fit()
        &&& self.folded_hunks@.no_duplicates()
    }

    /// Builds a view over a patch with the configured diff options.
    #[must_use]
    pub fn with_options(patch: Patch, context: u32, ignore_whitespace: bool) -> (r: Self)
        requires
            tree_fits(patch@.files),
        ensures
            r.inv(),
            r.fresh(patch),
            r.context == context,
            r.ignore_whitespace == ignore_whitespace,
    {
        let mut view = Self::new(patch);
        view.context = context;
        view.ignore_whitespace = ignore_whitespace;
        view
    }

    /// Whether nothing has been done to the view yet.
    pub open spec fn fresh(&self, patch: Patch) -> bool {
        &&& self.patch == patch
        &&& self.cursor == 0
        &&& self.scroll == 0
        &&& self.viewport == 0
        &&& self.folded_hunks@ == Seq::<(usize, usize)>::empty()
        &&& self.folded_dirs@ == Seq::<String>::empty()
        &&& !self.tree_focused
        &&& self.tree_cursor == 0
        &&& self.tree_scroll == 0
        &&& self.tree_viewport == 0
        &&& !self.split
        &&& self.comments@ == Seq::<ReviewComment>::empty()
        &&& self.order == OrderMode::Path
        &&& self.plan is None
    }

    /// Builds a view over a patch.
    #[must_use]
    pub fn new(patch: Patch) -> (r: Self)
        requires
            tree_fits(patch@.files),
        ensures
            r.inv(),
            r.fresh(patch),
            r.context == 3,
            !r.ignore_whitespace,
    {
        let mut view = DiffView {
            patch,
            rows: Vec::new(),
            split_rows: Vec::new(),
            split_index: Vec::new(),
            tree: Vec::new(),
            cursor: 0,
            scroll: 0,
            viewport: 0,
            folded_hunks: Vec::new(),
            folded_dirs: Vec::new(),
            tree_focused: false,
            tree_cursor: 0,
            tree_scroll: 0,
            tree_viewport: 0,
            split: false,
            context: 3,
            ignore_whitespace: false,
            order: OrderMode::Path,
            plan: None,
            comments: Vec::new(),
        };
        view.rebuild();
        view
    }

    /// Rebuilds the rows and the tree from the current patch and fold state.
    ///
    /// This is the only place that walks the patch, and it runs when the patch or a fold changes
    /// rather than per frame.
    pub fn rebuild(&mut self)
        requires
            tree_fits(old(self).patch@.files),
        ensures
            *final(self) == (DiffView {
                rows: final(self).rows,
                split_rows: final(self).split_rows,
                split_index: final(self).split_index,
                tree: final(self).tree,
                cursor: final(self).cursor,
                tree_cursor: final(self).tree_cursor,
                ..*old(self)
            }),
            row_views(final(self).rows@) == final(self).wanted_rows(),
            tree_views(final(self).tree@) == final(self).wanted_tree(),
            final(self).split_matches(),
            final(self).cursor == clamped_cursor(old(self).cursor as nat, final(self).rows@.len()),
            final(self).tree_cursor == clamped_cursor(
                old(self).tree_cursor as nat,
                final(self).tree@.len(),
            ),
            old(self).folded_hunks@.no_duplicates() ==> final(self).inv(),
    {
        self.rows = flatten(&self.patch, &self.folded_hunks, self.comments.as_slice());
        let (split, index) = build_split(&self.rows);
        self.split_rows = split;
        self.split_index = index;
        self.tree = self.build_tree();
        self.cursor = clamp_to(self.cursor, self.rows.len());
        self.tree_cursor = clamp_to(self.tree_cursor, self.tree.len());
    }

    /// The paths the patch changed, in the patch's own order.
    #[must_use]
    pub fn paths(&self) -> (out: Vec<String>)
        ensures
            views(out@) == paths_of(self.patch@, self.patch@.files.len()),
    {
        let mut out: Vec<String> = Vec::new();
        let mut i: usize = 0;
        assert(views(out@) =~= Seq::empty());
        while i < self.patch.files.len()
            invariant
                i <= self.patch.files@.len(),
                views(out@) == paths_of(self.patch@, i as nat),
            decreases self.patch.files@.len() - i,
        {
            assert(self.patch@.files[i as int] == self.patch.files@[i as int]@);
            match &self.patch.files[i].path {
                Some(path) => {
                    let ghost before = out@;
                    out.push(path.clone());
                    assert(views(out@) =~= views(before).push(path@));
                },
                None => {},
            }
            i += 1;
        }
        out
    }

    /// Whether the discussion was set: nothing changes where it was the same, and otherwise the
    /// cursor stays on its line.
    pub open spec fn discussed(&self, after: &DiffView, comments: Seq<ReviewComment>) -> bool {
        if comment_views(self.comments@) == comment_views(comments) {
            *after == *self
        } else {
            &&& *after == (DiffView {
                rows: after.rows,
                split_rows: after.split_rows,
                split_index: after.split_index,
                tree: after.tree,
                cursor: after.cursor,
                tree_cursor: after.tree_cursor,
                comments: after.comments,
                ..*self
            })
            &&& after.comments@ == comments
            &&& row_views(after.rows@) == after.wanted_rows()
            &&& tree_views(after.tree@) == after.wanted_tree()
            &&& after.split_matches()
            &&& after.cursor == self.cursor_after(row_views(after.rows@))
            &&& after.tree_cursor == clamped_cursor(
                self.tree_cursor as nat,
                after.tree@.len(),
            )
        
        }
    }

    /// Sets the existing discussion, drawn inline.
    ///
    /// The cursor is kept on the same line rather than the same row index: adding rows above it
    /// would otherwise move what is being read.
    pub fn set_comments(&mut self, comments: &[ReviewComment])
        requires
            tree_fits(old(self).patch@.files),
        ensures
            old(self).discussed(final(self), comments@),
            old(self).inv() ==> final(self).inv(),
    {
        if same_comments(self.comments.as_slice(), comments) {
            return;
        }
        let anchor: Option<(usize, Option<u32>, Option<u32>)> = match self.current() {
            Some(row) => Some((row.file, row.new_line, row.old_line)),
            None => None,
        };
        self.comments = copy_comments(comments);
        self.rebuild();
        match anchor {
            Some((file, new_line, old_line)) => {
                let ghost all = row_views(self.rows@);
                let ghost wanted = is_line_at(file, new_line, old_line);
                let mut found: Option<usize> = None;
                let mut i: usize = 0;
                while i < self.rows.len()
                    invariant
                        i <= self.rows@.len(),
                        all == row_views(self.rows@),
                        wanted == is_line_at(file, new_line, old_line),
                        found == first_row(all, wanted, i as nat),
                        found matches Some(f) ==> f < i,
                    decreases self.rows@.len() - i,
                {
                    let row: &DiffRow = &self.rows[i];
                    assert(all[i as int] == row@);
                    if found.is_none() && row.kind == RowKind::Line && row.file == file
                        && row.new_line == new_line && row.old_line == old_line {
                        found = Some(i);
                    }
                    i += 1;
                }
                match found {
                    Some(index) => {
                        self.cursor = index;
                    },
                    None => {},
                }
            },
            None => {},
        }
    }

    /// Where the cursor goes when the rows become `rows`: to the line it was on, if that is there.
    pub open spec fn cursor_after(&self, rows: Seq<RowView>) -> nat {
        let stays = clamped_cursor(self.cursor as nat, rows.len());
        if self.cursor < self.rows@.len() {
            let row = self.rows@[self.cursor as int];
            match first_row(rows, is_line_at(row.file, row.new_line, row.old_line), rows.len()) {
                Some(i) => i as nat,
                None => stays,
            }
        } else {
            stays
        }
    }

    /// Whether a plan orders the tree.
    pub open spec fn replanned(&self, before: &DiffView, plan: Option<Plan>) -> bool {
        &&& *self == (DiffView {
            plan,
            order: if plan is Some { OrderMode::Recommended } else { before.order },
            tree: self.tree,
            tree_cursor: self.tree_cursor,
            ..*before
        })
        &&& tree_views(self.tree@) == self.wanted_tree()
        &&& self.tree_cursor == clamped_cursor(
            before.tree_cursor as nat,
            self.tree@.len(),
        )
    }

    /// Sets the review plan, keeping the order mode.
    ///
    /// With a plan available the recommended order is the useful default. Without one the tree
    /// stays in path order.
    pub fn set_plan(&mut self, plan: Option<Plan>)
        requires
            tree_fits(old(self).patch@.files),
        ensures
            final(self).replanned(old(self), plan),
            old(self).inv() ==> final(self).inv(),
    {
        self.plan = plan;
        if self.plan.is_some() && self.order == OrderMode::Path {
            self.order = OrderMode::Recommended;
        }
        self.rebuild_tree();
    }

    /// Whether the tree is in another order, on the same file.
    pub open spec fn reordered(&self, before: &DiffView, order: OrderMode) -> bool {
        &&& before.order == order ==> *self == *before
        &&& before.order != order ==> {
            &&& *self == (DiffView {
                order,
                tree: self.tree,
                tree_cursor: self.tree_cursor,
                ..*before
            })
            &&& tree_views(self.tree@) == self.wanted_tree()
            &&& self.tree_cursor == before.tree_cursor_on(
                tree_views(self.tree@),
                before.file_at_cursor(),
            )
        }
    }

    /// Switches between the recommended and path orders, keeping the current file.
    pub fn set_order(&mut self, order: OrderMode)
        requires
            tree_fits(old(self).patch@.files),
        ensures
            final(self).reordered(old(self), order),
            old(self).inv() ==> final(self).inv(),
    {
        if self.order == order {
            return;
        }
        let file = self.current_file();
        self.order = order;
        self.rebuild_tree();
        match file {
            Some(file) => {
                self.focus_file(file);
            },
            None => {},
        }
    }

    /// The file the cursor is in.
    pub open spec fn file_at_cursor(&self) -> Option<usize> {
        if self.cursor < self.rows@.len() {
            Some(self.rows@[self.cursor as int].file)
        } else {
            None
        }
    }

    /// Where the tree cursor goes in another tree: to the file, if that has a row there.
    pub open spec fn tree_cursor_on(&self, tree: Seq<TreeView>, file: Option<usize>) -> nat {
        let stays = clamped_cursor(self.tree_cursor as nat, tree.len());
        match file {
            Some(file) => match tree_place(tree, file, tree.len()) {
                Some(i) => i as nat,
                None => stays,
            },
            None => stays,
        }
    }

    /// Toggles between the two orders.
    pub fn toggle_order(&mut self)
        requires
            tree_fits(old(self).patch@.files),
        ensures
            final(self).reordered(old(self), old(self).order.other()),
            old(self).inv() ==> final(self).inv(),
    {
        let order = self.order.toggled();
        self.set_order(order);
    }

    /// Rebuilds the tree alone, which is all an order change needs.
    pub fn rebuild_tree(&mut self)
        requires
            tree_fits(old(self).patch@.files),
        ensures
            *final(self) == (DiffView {
                tree: final(self).tree,
                tree_cursor: final(self).tree_cursor,
                ..*old(self)
            }),
            tree_views(final(self).tree@) == final(self).wanted_tree(),
            final(self).tree_cursor == clamped_cursor(
                old(self).tree_cursor as nat,
                final(self).tree@.len(),
            ),
    {
        self.tree = self.build_tree();
        self.tree_cursor = clamp_to(self.tree_cursor, self.tree.len());
    }

    /// Moves the tree cursor to a file, wherever it is in the current tree.
    pub fn focus_file(&mut self, file: usize)
        ensures
            *final(self) == (DiffView { tree_cursor: final(self).tree_cursor, ..*old(self) }),
            final(self).tree_cursor == match tree_place(
                tree_views(old(self).tree@),
                file,
                old(self).tree@.len(),
            ) {
                Some(i) => i,
                None => old(self).tree_cursor,
            },
            old(self).inv() ==> final(self).inv(),
            old(self).cursors_fit() ==> final(self).cursors_fit(),
    {
        match self.find_in_tree(file) {
            Some(index) => {
                self.tree_cursor = index;
            },
            None => {},
        }
    }

    fn find_in_tree(&self, file: usize) -> (found: Option<usize>)
        ensures
            found == tree_place(tree_views(self.tree@), file, self.tree@.len()),
            found matches Some(i) ==> i < self.tree@.len(),
    {
        let ghost all = tree_views(self.tree@);
        let mut found: Option<usize> = None;
        let mut i: usize = 0;
        while i < self.tree.len()
            invariant
                i <= self.tree@.len(),
                all == tree_views(self.tree@),
                found == tree_place(all, file, i as nat),
                found matches Some(f) ==> f < i,
            decreases self.tree@.len() - i,
        {
            assert(all[i as int] == self.tree@[i as int]@);
            if found.is_none() {
                match &self.tree[i].kind {
                    TreeKind::File { index } => {
                        if *index == file {
                            found = Some(i);
                        }
                    },
                    _ => {},
                }
            }
            i += 1;
        }
        found
    }

    /// The tree for the current order.
    fn build_tree(&self) -> (tree: Vec<TreeRow>)
        requires
            tree_fits(self.patch@.files),
        ensures
            tree_views(tree@) == self.wanted_tree(),
    {
        if self.order == OrderMode::Recommended {
            match &self.plan {
                Some(plan) => {
                    return build_plan_tree(plan, &self.patch, &self.folded_dirs);
                },
                None => {},
            }
        }
        build_tree(&self.patch, &self.folded_dirs)
    }

    /// The path of the file the cursor is in.
    pub open spec fn path_at_cursor(&self) -> Option<Seq<char>> {
        match self.file_at_cursor() {
            Some(file) => if file < self.patch@.files.len() {
                self.patch@.files[file as int].path
            } else {
                None
            },
            None => None,
        }
    }

    /// How the current file sits in both orders, in words.
    pub open spec fn positions(&self) -> Option<Seq<char>> {
        let paths = paths_of(self.patch@, self.patch@.files.len());
        match (self.plan, self.path_at_cursor()) {
            (Some(plan), Some(path)) => match (
                position(plan@, path, OrderMode::Recommended, paths),
                position(plan@, path, OrderMode::Path, paths),
            ) {
                (Some(planned), Some(by_path)) => Some(
                    decimal(planned) + "/"@ + decimal(paths.len()) + " plan · "@ + decimal(by_path)
                        + "/"@ + decimal(paths.len()) + " path"@,
                ),
                _ => None,
            },
            _ => None,
        }
    }

    /// How the current file sits in both orders, for the tree's header.
    #[must_use]
    pub fn order_positions(&self) -> (r: Option<String>)
        ensures
            match r {
                Some(text) => self.positions() == Some(text@),
                None => self.positions() is None,
            },
    {
        let plan = match &self.plan {
            Some(plan) => plan,
            None => {
                return None;
            },
        };
        let path = match self.current_path() {
            Some(path) => path,
            None => {
                return None;
            },
        };
        let paths = self.paths();
        let planned: usize = match plan.position_of(path, OrderMode::Recommended, &paths) {
            Some(n) => n,
            None => {
                return None;
            },
        };
        let by_path: usize = match plan.position_of(path, OrderMode::Path, &paths) {
            Some(n) => n,
            None => {
                return None;
            },
        };
        assert(views(paths@).len() == paths@.len());
        let total = number(paths.len() as u64);
        let mut text = concat5(
            number(planned as u64).as_str(),
            "/",
            total.as_str(),
            " plan · ",
            number(by_path as u64).as_str(),
        );
        text.append("/");
        text.append(total.as_str());
        text.append(" path");
        Some(text)
    }

    /// The split row that shows the cursor's row.
    pub open spec fn split_start(&self) -> nat {
        if self.cursor < self.split_index@.len() {
            self.split_index@[self.cursor as int] as nat
        } else {
            0
        }
    }

    /// The split row that shows the cursor, and the rows after it.
    #[must_use]
    pub fn split_window(&self, height: u16) -> (r: &[SplitRow])
        requires
            self.split_start() <= self.split_rows@.len(),
        ensures
            r@ == crate::paint::shown(
                self.split_rows@,
                self.split_start(),
                window(height as nat),
            ),
            self.split_matches() && self.cursor < self.rows@.len() ==> r@.len() > 0 && shows_row(
                r@[0]@,
                self.rows@[self.cursor as int]@,
            ),
    {
        let first: usize = if self.cursor < self.split_index.len() {
            self.split_index[self.cursor]
        } else {
            0
        };
        let rows: usize = if height == 0 { 1 } else { height as usize };
        let room: usize = self.split_rows.len() - first;
        let end: usize = if rows < room { first + rows } else { self.split_rows.len() };
        &self.split_rows.as_slice()[first..end]
    }

    /// Which unified row the split view should show as selected.
    #[must_use]
    pub fn selected_unified(&self) -> (r: usize)
        ensures
            r == self.cursor,
    {
        self.cursor
    }

    /// Whether everything that depends on the size of the panes was made to fit panes of `height`
    /// rows.
    pub open spec fn prepared(&self, after: &DiffView, height: u16) -> bool {
        *after == self.fitted(height, height)
    }

    /// The view made to fit its panes: both cursors are on a row, and both are in sight.
    pub open spec fn fitted(self, diff_height: u16, tree_height: u16) -> DiffView {
        DiffView {
            viewport: window(diff_height as nat) as u16,
            scroll: visible_offset(
                self.cursor as nat,
                self.scroll as nat,
                window(diff_height as nat),
                self.rows@.len(),
            ) as usize,
            cursor: clamped_cursor(self.cursor as nat, self.rows@.len()) as usize,
            tree_viewport: window(tree_height as nat) as u16,
            tree_scroll: visible_offset(
                self.tree_cursor as nat,
                self.tree_scroll as nat,
                window(tree_height as nat),
                self.tree@.len(),
            ) as usize,
            ..self
        }
    }

    /// Updates everything that depends on the size of the panes.
    pub fn prepare(&mut self, diff_height: u16, tree_height: u16)
        ensures
            *final(self) == old(self).fitted(diff_height, tree_height),
            old(self).tree_cursor < old(self).tree@.len() ==> final(self).tree_scroll
                <= final(self).tree_cursor < final(self).tree_scroll + window(tree_height as nat),
            old(self).inv() ==> final(self).inv(),
    {
        self.ensure_visible(diff_height);
        self.tree_viewport = if tree_height == 0 { 1 } else { tree_height };
        self.tree_scroll = ensure_visible(
            self.tree_cursor,
            self.tree_scroll,
            self.tree_viewport as usize,
            self.tree.len(),
        );
    }

    /// The row under the cursor.
    #[must_use]
    pub fn current(&self) -> (r: Option<&DiffRow>)
        ensures
            r == if self.cursor < self.rows@.len() {
                Some(&self.rows@[self.cursor as int])
            } else {
                None
            },
    {
        if self.cursor < self.rows.len() {
            Some(&self.rows[self.cursor])
        } else {
            None
        }
    }

    /// The file the cursor is in.
    #[must_use]
    pub fn current_file(&self) -> (r: Option<usize>)
        ensures
            r == self.file_at_cursor(),
    {
        match self.current() {
            Some(row) => Some(row.file),
            None => None,
        }
    }

    /// The path of the file the cursor is in, which is what copying the path copies.
    #[must_use]
    pub fn current_path(&self) -> (r: Option<&String>)
        ensures
            match r {
                Some(path) => self.path_at_cursor() == Some(path@),
                None => self.path_at_cursor() is None,
            },
    {
        match self.current_file() {
            Some(file) => if file < self.patch.files.len() {
                assert(self.patch@.files[file as int] == self.patch.files@[file as int]@);
                match &self.patch.files[file].path {
                    Some(path) => Some(path),
                    None => None,
                }
            } else {
                None
            },
            None => None,
        }
    }

    /// The view scrolled by `delta` rows, its cursor dragged along where it would be left outside.
    pub open spec fn scrolled(self, delta: int) -> DiffView {
        let height = window(self.viewport as nat);
        let scroll = clamped_offset(
            shifted(self.scroll as nat, delta),
            height,
            self.rows@.len(),
        );
        DiffView {
            scroll: scroll as usize,
            cursor: dragged(self.cursor as nat, scroll, height, self.rows@.len()) as usize,
            ..self
        }
    }

    /// Scrolls the diff view by `delta` rows, dragging the cursor if it would be left outside
    /// the window.
    pub fn scroll_by(&mut self, delta: i32)
        ensures
            *final(self) == old(self).scrolled(delta as int),
            old(self).inv() ==> final(self).inv(),
    {
        let height: usize = if self.viewport == 0 { 1 } else { self.viewport as usize };
        let len: usize = self.rows.len();
        let mut cursor: usize = self.cursor;
        let mut scroll: usize = self.scroll;
        scroll_view(&mut cursor, &mut scroll, delta, height, len);
        self.cursor = cursor;
        self.scroll = scroll;
    }

    /// The view with the tree scrolled by `delta` rows, and the focus in it.
    pub open spec fn tree_scrolled(self, delta: int) -> DiffView {
        let height = window(self.tree_viewport as nat);
        let scroll = clamped_offset(
            shifted(self.tree_scroll as nat, delta),
            height,
            self.tree@.len(),
        );
        DiffView {
            tree_focused: true,
            tree_scroll: scroll as usize,
            tree_cursor: dragged(
                self.tree_cursor as nat,
                scroll,
                height,
                self.tree@.len(),
            ) as usize,
            ..self
        }
    }

    /// Scrolls the file tree by `delta` rows.
    pub fn scroll_tree_by(&mut self, delta: i32)
        ensures
            *final(self) == old(self).tree_scrolled(delta as int),
            old(self).inv() ==> final(self).inv(),
    {
        self.tree_focused = true;
        let height: usize = if self.tree_viewport == 0 { 1 } else { self.tree_viewport as usize };
        let len: usize = self.tree.len();
        let mut cursor: usize = self.tree_cursor;
        let mut scroll: usize = self.tree_scroll;
        scroll_view(&mut cursor, &mut scroll, delta, height, len);
        self.tree_cursor = cursor;
        self.tree_scroll = scroll;
    }

    /// Moves by whole rows, stopping at the ends.
    pub fn move_by(&mut self, delta: i32)
        ensures
            *final(self) == (DiffView {
                cursor: stepped(old(self).cursor as nat, delta as int, old(self).rows@.len()) as usize,
                ..*old(self)
            }),
            old(self).inv() ==> final(self).inv(),
    {
        self.cursor = step(self.cursor, delta, self.rows.len());
    }

    /// The view after the wheel turned over one of its panes.
    pub open spec fn wheeled(self, over_tree: bool, delta: int) -> DiffView {
        if over_tree {
            self.tree_scrolled(delta)
        } else {
            DiffView { tree_focused: false, ..self }.scrolled(delta)
        }
    }

    /// Turns the wheel over the tree or over the diff.
    pub fn wheel(&mut self, over_tree: bool, delta: i32)
        ensures
            *final(self) == old(self).wheeled(over_tree, delta as int),
            old(self).inv() ==> final(self).inv(),
    {
        if over_tree {
            self.scroll_tree_by(delta);
        } else {
            self.tree_focused = false;
            self.scroll_by(delta);
        }
    }

    /// What a click on a row of a pane does, counted from the first row that is drawn: in the tree
    /// what Enter does there, in the diff it moves the cursor; below the last row it does nothing.
    pub open spec fn clicked(&self, after: &DiffView, over_tree: bool, offset: nat) -> bool {
        if over_tree {
            if self.tree_scroll + offset < self.tree@.len() {
                DiffView {
                    tree_focused: true,
                    tree_cursor: (self.tree_scroll + offset) as usize,
                    ..*self
                }.activated(after)
            } else {
                *after == *self
            }
        } else {
            if self.scroll + offset < self.rows@.len() {
                *after == (DiffView {
                    tree_focused: false,
                    cursor: (self.scroll + offset) as usize,
                    ..*self
                })
            } else {
                *after == *self
            }
        }
    }

    /// Clicks on a row of the tree or of the diff.
    pub fn click(&mut self, over_tree: bool, offset: usize)
        requires
            tree_fits(old(self).patch@.files),
        ensures
            old(self).clicked(final(self), over_tree, offset as nat),
            old(self).inv() ==> final(self).inv(),
    {
        if over_tree {
            match self.tree_scroll.checked_add(offset) {
                Some(index) => {
                    if index < self.tree.len() {
                        self.select_tree_row(index);
                        self.activate_tree();
                    }
                },
                None => {
                    assert(self.tree.len() == self.tree@.len());
                },
            }
        } else {
            match self.scroll.checked_add(offset) {
                Some(index) => {
                    if index < self.rows.len() {
                        self.tree_focused = false;
                        self.select_row(index);
                    }
                },
                None => {
                    assert(self.rows.len() == self.rows@.len());
                },
            }
        }
    }

    /// Puts the cursor on a row, clamped to the rows that exist.
    ///
    /// What a click means: the pointer names a visible row, and the caller has already added the
    /// scroll offset, so this is an absolute index into [`Self::rows`].
    pub fn select_row(&mut self, index: usize)
        ensures
            *final(self) == (DiffView {
                cursor: if old(self).rows@.len() == 0 {
                    old(self).cursor
                } else {
                    clamped_cursor(index as nat, old(self).rows@.len()) as usize
                },
                ..*old(self)
            }),
            old(self).inv() ==> final(self).inv(),
    {
        if self.rows.len() > 0 {
            self.cursor = clamp_to(index, self.rows.len());
        }
    }

    /// Whether the tree has the focus, and its cursor is on a row.
    pub open spec fn tree_row_selected(&self, before: &DiffView, index: usize) -> bool {
        &&& before.tree@.len() == 0 ==> *self == *before
        &&& before.tree@.len() > 0 ==> *self == (DiffView {
            tree_focused: true,
            tree_cursor: clamped_cursor(index as nat, before.tree@.len()) as usize,
            ..*before
        })
    }

    /// Puts the tree cursor on a row, and gives the tree the focus.
    pub fn select_tree_row(&mut self, index: usize)
        ensures
            final(self).tree_row_selected(old(self), index),
            old(self).inv() ==> final(self).inv(),
    {
        if self.tree.len() > 0 {
            self.tree_focused = true;
            self.tree_cursor = clamp_to(index, self.tree.len());
        }
    }

    /// Whether the cursor went to the first or the last row.
    pub open spec fn moved_to_end(&self, before: &DiffView, last: bool) -> bool {
        &&& *self == (DiffView {
            cursor: if before.rows@.len() == 0 {
                before.cursor
            } else if last {
                (before.rows@.len() - 1) as usize
            } else {
                0
            },
            ..*before
        })
    }

    /// Moves to the first or last row.
    pub fn move_to(&mut self, last: bool)
        ensures
            final(self).moved_to_end(old(self), last),
            old(self).inv() ==> final(self).inv(),
    {
        if self.rows.len() > 0 {
            self.cursor = if last { self.rows.len() - 1 } else { 0 };
        }
    }

    /// How many rows a page key moves by.
    pub open spec fn page_step(&self, half: bool) -> int {
        let height = window(self.viewport as nat);
        if half {
            if height / 2 > 1 { (height / 2) as int } else { 1 }
        } else {
            height as int
        }
    }

    /// Whether the cursor went by screens or half screens.
    pub open spec fn moved_by_page(&self, before: &DiffView, direction: i32, half: bool) -> bool {
        &&& *self == (DiffView {
            cursor: stepped(
                before.cursor as nat,
                direction * before.page_step(half),
                before.rows@.len(),
            ) as usize,
            ..*before
        })
    }

    /// Moves by screens or half screens.
    pub fn move_page(&mut self, direction: i32, half: bool)
        requires
            i32::MIN <= direction * old(self).page_step(half) <= i32::MAX,
        ensures
            final(self).moved_by_page(old(self), direction, half),
            old(self).inv() ==> final(self).inv(),
    {
        let height: i32 = if self.viewport == 0 { 1 } else { self.viewport as i32 };
        let step: i32 = if half {
            if height / 2 > 1 { height / 2 } else { 1 }
        } else {
            height
        };
        self.move_by(direction * step);
    }

    fn jump(&self, kind: RowKind, forward: bool) -> (r: usize)
        requires
            !forward ==> self.cursor <= self.rows@.len(),
        ensures
            r == jumped(row_views(self.rows@), kind, self.cursor as nat, forward),
            self.cursor < self.rows@.len() ==> r < self.rows@.len(),
    {
        let ghost all = row_views(self.rows@);
        if forward {
            if self.cursor >= self.rows.len() {
                return self.cursor;
            }
            let mut i: usize = self.cursor + 1;
            while i < self.rows.len()
                invariant
                    forward,
                    self.cursor < i <= self.rows@.len(),
                    all == row_views(self.rows@),
                    next_of(all, kind, self.cursor as nat + 1) == next_of(all, kind, i as nat),
                decreases self.rows@.len() - i,
            {
                assert(all[i as int] == self.rows@[i as int]@);
                if self.rows[i].kind == kind {
                    return i;
                }
                i += 1;
            }
        } else {
            let mut n: usize = self.cursor;
            while n > 0
                invariant
                    !forward,
                    n <= self.cursor,
                    n <= self.rows@.len(),
                    all == row_views(self.rows@),
                    prev_of(all, kind, self.cursor as nat) == prev_of(all, kind, n as nat),
                decreases n,
            {
                assert(all[n - 1] == self.rows@[n - 1]@);
                if self.rows[n - 1].kind == kind {
                    return n - 1;
                }
                n -= 1;
            }
        }
        self.cursor
    }

    /// Whether the cursor went to the neighbouring hunk.
    pub open spec fn moved_by_hunk(&self, before: &DiffView, forward: bool) -> bool {
        &&& *self == (DiffView {
            cursor: if before.rows@.len() == 0 {
                before.cursor
            } else {
                jumped(
                    row_views(before.rows@),
                    RowKind::HunkHeader,
                    before.cursor as nat,
                    forward,
                ) as usize
            },
            ..*before
        })
    }

    /// Moves to the next or previous hunk, into the neighbouring file if need be.
    ///
    /// Lands on the hunk's header; where there is no hunk that way, the cursor stays.
    pub fn move_hunk(&mut self, forward: bool)
        requires
            !forward ==> old(self).cursor <= old(self).rows@.len() || old(self).rows@.len() == 0,
        ensures
            final(self).moved_by_hunk(old(self), forward),
            old(self).inv() ==> final(self).inv(),
    {
        if self.rows.len() == 0 {
            return;
        }
        self.cursor = self.jump(RowKind::HunkHeader, forward);
    }

    /// Whether the cursor went to the neighbouring file.
    pub open spec fn moved_by_file(&self, before: &DiffView, forward: bool) -> bool {
        &&& *self == (DiffView {
            cursor: if before.rows@.len() == 0 {
                before.cursor
            } else {
                jumped(
                    row_views(before.rows@),
                    RowKind::FileHeader,
                    before.cursor as nat,
                    forward,
                ) as usize
            },
            ..*before
        })
    }

    /// Moves to the next or previous file.
    pub fn move_file(&mut self, forward: bool)
        requires
            !forward ==> old(self).cursor <= old(self).rows@.len() || old(self).rows@.len() == 0,
        ensures
            final(self).moved_by_file(old(self), forward),
            old(self).inv() ==> final(self).inv(),
    {
        if self.rows.len() == 0 {
            return;
        }
        self.cursor = self.jump(RowKind::FileHeader, forward);
    }

    /// Where a file's banner is.
    pub open spec fn banner_row(&self, file: usize) -> Option<usize> {
        first_row(row_views(self.rows@), is_banner_of(file), self.rows@.len())
    }

    /// The view after jumping to a file.
    pub open spec fn at_file(self, file: usize) -> DiffView {
        match self.banner_row(file) {
            Some(row) => DiffView {
                cursor: row,
                tree_cursor: match tree_place(tree_views(self.tree@), file, self.tree@.len()) {
                    Some(i) => i,
                    None => self.tree_cursor,
                },
                ..self
            },
            None => self,
        }
    }

    /// Jumps to the first row of a file, which is what opening it from the tree does.
    pub fn goto_file(&mut self, index: usize)
        ensures
            *final(self) == old(self).at_file(index),
            old(self).inv() ==> final(self).inv(),
    {
        let ghost all = row_views(self.rows@);
        let ghost wanted = is_banner_of(index);
        let mut found: Option<usize> = None;
        let mut i: usize = 0;
        while i < self.rows.len()
            invariant
                i <= self.rows@.len(),
                all == row_views(self.rows@),
                wanted == is_banner_of(index),
                found == first_row(all, wanted, i as nat),
                found matches Some(f) ==> f < i,
            decreases self.rows@.len() - i,
        {
            let row: &DiffRow = &self.rows[i];
            assert(all[i as int] == row@);
            if found.is_none() && row.kind == RowKind::FileHeader && row.file == index {
                found = Some(i);
            }
            i += 1;
        }
        match found {
            Some(position) => {
                self.cursor = position;
                match self.find_in_tree(index) {
                    Some(place) => {
                        self.tree_cursor = place;
                    },
                    None => {},
                }
            },
            None => {},
        }
    }

    /// How many hunks a file has.
    pub open spec fn hunk_count(&self, file: usize) -> nat {
        if file < self.patch@.files.len() { self.patch@.files[file as int].hunks.len() } else { 0 }
    }

    fn count_hunks(&self, file: usize) -> (n: usize)
        ensures
            n == self.hunk_count(file),
    {
        if file < self.patch.files.len() {
            assert(self.patch@.files[file as int] == self.patch.files@[file as int]@);
            self.patch.files[file].hunks.len()
        } else {
            0
        }
    }

    /// Whether all hunks of a file are folded.
    pub open spec fn all_folded(&self, file: usize) -> bool {
        forall|hunk: usize|
            hunk < self.hunk_count(file) ==> #[trigger] self.folded_hunks@.contains((file, hunk))
    }

    fn every_hunk_folded(&self, file: usize) -> (r: bool)
        ensures
            r == self.all_folded(file),
    {
        let count: usize = self.count_hunks(file);
        let mut hunk: usize = 0;
        while hunk < count
            invariant
                hunk <= count,
                count == self.hunk_count(file),
                forall|h: usize| h < hunk ==> #[trigger] self.folded_hunks@.contains((file, h)),
            decreases count - hunk,
        {
            if !is_folded(&self.folded_hunks, file, hunk) {
                return false;
            }
            hunk += 1;
        }
        true
    }

    /// Whether a hunk is folded after the fold key was pressed.
    ///
    /// On a hunk that hunk changes. On a file's banner or placeholder every hunk of the file is
    /// folded, or, where all of them were, unfolded.
    pub open spec fn folded_after_toggle(&self, key: (usize, usize)) -> bool {
        let row = self.rows@[self.cursor as int];
        match row.hunk {
            Some(hunk) => if key == (row.file, hunk) {
                !self.folded_hunks@.contains(key)
            } else {
                self.folded_hunks@.contains(key)
            },
            None => if key.0 == row.file && key.1 < self.hunk_count(row.file) {
                !self.all_folded(row.file)
            } else {
                self.folded_hunks@.contains(key)
            },
        }
    }

    /// Whether the hunk under the cursor was folded or unfolded.
    pub open spec fn toggled(&self, after: &DiffView) -> bool {
        if self.cursor >= self.rows@.len() {
            *after == *self
        } else {
            &&& *after == (DiffView {
                rows: after.rows,
                split_rows: after.split_rows,
                split_index: after.split_index,
                tree: after.tree,
                cursor: after.cursor,
                tree_cursor: after.tree_cursor,
                folded_hunks: after.folded_hunks,
                ..*self
            })
            &&& forall|key: (usize, usize)| #[trigger]
                after.folded_hunks@.contains(key) == self.folded_after_toggle(key)
            &&& row_views(after.rows@) == after.wanted_rows()
            &&& tree_views(after.tree@) == after.wanted_tree()
            &&& after.split_matches()
            &&& after.cursor == clamped_cursor(
                self.cursor as nat,
                after.rows@.len(),
            )
            &&& after.tree_cursor == clamped_cursor(
                self.tree_cursor as nat,
                after.tree@.len(),
            )
        
        }
    }

    /// Fold or unfold the hunk under the cursor.
    pub fn toggle_hunk(&mut self)
        requires
            tree_fits(old(self).patch@.files),
        ensures
            old(self).toggled(final(self)),
            old(self).inv() ==> final(self).inv(),
    {
        let (file, under) = match self.current() {
            Some(row) => (row.file, row.hunk),
            None => {
                return;
            },
        };
        let ghost before = *self;
        match under {
            Some(hunk) => {
                if is_folded(&self.folded_hunks, file, hunk) {
                    unfold(&mut self.folded_hunks, (file, hunk));
                } else {
                    fold(&mut self.folded_hunks, (file, hunk));
                }
            },
            None => {
                let count: usize = self.count_hunks(file);
                let shut: bool = !self.every_hunk_folded(file);
                let mut hunk: usize = 0;
                while hunk < count
                    invariant
                        hunk <= count,
                        count == before.hunk_count(file),
                        before.folded_hunks@.no_duplicates() ==> self.folded_hunks@.no_duplicates(),
                        *self == (DiffView { folded_hunks: self.folded_hunks, ..before }),
                        forall|key: (usize, usize)| #[trigger]
                            self.folded_hunks@.contains(key) == if key.0 == file && key.1 < hunk {
                                shut
                            } else {
                                before.folded_hunks@.contains(key)
                            },
                    decreases count - hunk,
                {
                    if shut {
                        fold(&mut self.folded_hunks, (file, hunk));
                    } else {
                        unfold(&mut self.folded_hunks, (file, hunk));
                    }
                    hunk += 1;
                }
            },
        }
        self.rebuild();
    }

    /// Whether every hunk of `file` is folded, which is what the tree shows so a collapsed file
    /// is visible without opening it.
    #[must_use]
    pub fn file_is_folded(&self, file: usize) -> (r: bool)
        ensures
            r == (self.hunk_count(file) > 0 && self.all_folded(file)),
    {
        self.count_hunks(file) > 0 && self.every_hunk_folded(file)
    }

    /// Whether the hunk under the cursor is folded.
    #[must_use]
    pub fn current_hunk_is_folded(&self) -> (r: bool)
        ensures
            r == (self.cursor < self.rows@.len() && match self.rows@[self.cursor as int].hunk {
                Some(hunk) => self.folded_hunks@.contains(
                    (self.rows@[self.cursor as int].file, hunk),
                ),
                None => false,
            }),
    {
        match self.current() {
            Some(row) => match row.hunk {
                Some(hunk) => is_folded(&self.folded_hunks, row.file, hunk),
                None => false,
            },
            None => false,
        }
    }

    /// The tree row under the tree cursor.
    #[must_use]
    pub fn current_tree_row(&self) -> (r: Option<&TreeRow>)
        ensures
            r == if self.tree_cursor < self.tree@.len() {
                Some(&self.tree@[self.tree_cursor as int])
            } else {
                None
            },
    {
        if self.tree_cursor < self.tree.len() {
            Some(&self.tree[self.tree_cursor])
        } else {
            None
        }
    }

    /// Moves the tree cursor.
    pub fn move_tree(&mut self, delta: i32)
        ensures
            *final(self) == (DiffView {
                tree_cursor: stepped(
                    old(self).tree_cursor as nat,
                    delta as int,
                    old(self).tree@.len(),
                ) as usize,
                ..*old(self)
            }),
            old(self).inv() ==> final(self).inv(),
    {
        self.tree_cursor = step(self.tree_cursor, delta, self.tree.len());
    }

    /// Which names are folded after a row that stands for `name` was activated.
    pub open spec fn dirs_after(&self, name: Seq<char>, folded: bool) -> Seq<Seq<char>> {
        let names = views(self.folded_dirs@);
        if folded {
            names_without(names, name, names.len())
        } else if names.contains(name) {
            names
        } else {
            names.push(name)
        }
    }

    fn toggle_dir(&mut self, name: String, folded: bool)
        ensures
            *final(self) == (DiffView { folded_dirs: final(self).folded_dirs, ..*old(self) }),
            views(final(self).folded_dirs@) == old(self).dirs_after(name@, folded),
    {
        assert(views(self.folded_dirs@).len() == self.folded_dirs@.len());
        if folded {
            unfold_dir(&mut self.folded_dirs, &name);
        } else if !crate::strings::is_among(&self.folded_dirs, name.as_str()) {
            fold_dir(&mut self.folded_dirs, name);
        }
    }

    /// What activating the tree row under the cursor does: a directory or a group is folded or
    /// unfolded, a file is opened, and a reason does nothing.
    pub open spec fn activated(&self, after: &DiffView) -> bool {
        if self.tree_cursor >= self.tree@.len() {
            *after == *self
        } else {
            match self.tree@[self.tree_cursor as int].kind {
            TreeKind::Directory { path, folded, .. } => {
                &&& *after == (DiffView {
                    rows: after.rows,
                    split_rows: after.split_rows,
                    split_index: after.split_index,
                    tree: after.tree,
                    cursor: after.cursor,
                    tree_cursor: after.tree_cursor,
                    folded_dirs: after.folded_dirs,
                    ..*self
                })
                &&& views(after.folded_dirs@) == self.dirs_after(path@, folded)
                &&& row_views(after.rows@) == after.wanted_rows()
                &&& tree_views(after.tree@) == after.wanted_tree()
                &&& after.split_matches()
                &&& after.cursor == clamped_cursor(
                    self.cursor as nat,
                    after.rows@.len(),
                )
                &&& after.tree_cursor == clamped_cursor(
                    self.tree_cursor as nat,
                    after.tree@.len(),
                )
            },
            TreeKind::Group { name, folded, .. } => {
                &&& *after == (DiffView {
                    tree: after.tree,
                    tree_cursor: after.tree_cursor,
                    folded_dirs: after.folded_dirs,
                    ..*self
                })
                &&& views(after.folded_dirs@) == self.dirs_after(name@, folded)
                &&& tree_views(after.tree@) == after.wanted_tree()
                &&& after.tree_cursor == clamped_cursor(
                    self.tree_cursor as nat,
                    after.tree@.len(),
                )
            },
            TreeKind::Rationale { .. } => *after == *self,
            TreeKind::File { index } => *after == (DiffView {
                tree_focused: false,
                ..*self
            }).at_file(index),
        }
        }
    }

    /// Activates the tree row under the cursor: folds a directory or a group, opens a file.
    pub fn activate_tree(&mut self)
        requires
            tree_fits(old(self).patch@.files),
        ensures
            old(self).activated(final(self)),
            old(self).inv() ==> final(self).inv(),
    {
        if self.tree_cursor >= self.tree.len() {
            return;
        }
        let kind = self.tree[self.tree_cursor].kind.clone();
        match kind {
            TreeKind::Directory { path, folded, .. } => {
                self.toggle_dir(path, folded);
                self.rebuild();
            },
            TreeKind::Group { name, folded, .. } => {
                self.toggle_dir(name, folded);
                self.rebuild_tree();
            },
            TreeKind::Rationale { .. } => {},
            TreeKind::File { index } => {
                self.tree_focused = false;
                self.goto_file(index);
            },
        }
    }

    /// Which rows are drawn in the given height.
    #[must_use]
    pub fn visible_rows(&self, height: u16) -> (r: std::ops::Range<usize>)
        ensures
            r.start == clamped_cursor(self.scroll as nat, self.rows@.len()),
            r.end == if r.start + window(height as nat) < self.rows@.len() {
                r.start + window(height as nat)
            } else {
                self.rows@.len() as int
            },
    {
        let rows: usize = if height == 0 { 1 } else { height as usize };
        let start: usize = clamp_to(self.scroll, self.rows.len());
        let end: usize = if rows < self.rows.len() - start { start + rows } else { self.rows.len() };
        start..end
    }

    /// Keeps the cursor inside the viewport, moving the scroll if it is not.
    ///
    /// Called with the height a frame gives the pane, which is how the view learns the size of
    /// its own window.
    pub fn ensure_visible(&mut self, height: u16)
        ensures
            *final(self) == (DiffView {
                viewport: window(height as nat) as u16,
                scroll: visible_offset(
                    old(self).cursor as nat,
                    old(self).scroll as nat,
                    window(height as nat),
                    old(self).rows@.len(),
                ) as usize,
                cursor: clamped_cursor(old(self).cursor as nat, old(self).rows@.len()) as usize,
                ..*old(self)
            }),
            old(self).cursor < old(self).rows@.len() ==> final(self).scroll <= final(self).cursor
                < final(self).scroll + window(height as nat),
            old(self).inv() ==> final(self).inv(),
    {
        self.viewport = if height == 0 { 1 } else { height };
        self.scroll = ensure_visible(self.cursor, self.scroll, self.viewport as usize, self.rows.len());
        self.cursor = clamp_to(self.cursor, self.rows.len());
    }

    /// The one-line summary the diff header shows.
    #[must_use]
    pub fn status_label(&self) -> (r: String)
        ensures
            r@ == truncated(
                self.patch@.label + " · "@ + if self.split { "split"@ } else { "unified"@ },
                60,
            ),
    {
        let mode: &str = if self.split { "split" } else { "unified" };
        let whole = concat3(self.patch.stats.label.as_str(), " · ", mode);
        truncate(whole.as_str(), 60)
    }

    /// What the file under the cursor is, for the status line.
    #[must_use]
    pub fn current_file_label(&self) -> (r: Option<String>)
        ensures
            match self.file_at_cursor() {
                Some(file) => if file < self.patch@.files.len() {
                    let shown = self.patch@.files[file as int];
                    r is Some && r->0@ == seq![shown.status.letter()] + " "@ + shown.display_path
                        + " "@ + shown.size_label
                } else {
                    r is None
                },
                None => r is None,
            },
    {
        match self.current_file() {
            Some(file) => if file < self.patch.files.len() {
                let shown = &self.patch.files[file];
                assert(self.patch@.files[file as int] == shown@);
                Some(
                    concat5(
                        shown.status.marker(),
                        " ",
                        shown.display_path.as_str(),
                        " ",
                        shown.size_label.as_str(),
                    ),
                )
            } else {
                None
            },
            None => None,
        }
    }
}

/// A jump lands on the nearest row of the kind: none of the kind is passed over, and it stays only
/// where there is none on that side.
pub proof fn lemma_a_jump_lands_on_the_nearest(
    rows: Seq<RowView>,
    kind: RowKind,
    cursor: nat,
    at: nat,
)
    requires
        rows.len() <= usize::MAX,
        cursor < rows.len(),
        at < rows.len(),
        rows[at as int].kind == kind,
    ensures
        at > cursor ==> cursor < jumped(rows, kind, cursor, true) <= at,
        at < cursor ==> at <= jumped(rows, kind, cursor, false) < cursor,
{
    lemma_jumped(rows, kind, cursor, true);
    lemma_jumped(rows, kind, cursor, false);
    if at > cursor {
        lemma_next_is_nearest(rows, kind, cursor + 1, at);
    }
    if at < cursor {
        lemma_prev_is_nearest(rows, kind, cursor, at);
    }
}

proof fn lemma_next_is_nearest(rows: Seq<RowView>, kind: RowKind, from: nat, at: nat)
    requires
        rows.len() <= usize::MAX,
        from <= at < rows.len(),
        rows[at as int].kind == kind,
    ensures
        next_of(rows, kind, from) matches Some(i) && from <= i <= at,
    decreases at - from,
{
    if from < at && rows[from as int].kind != kind {
        lemma_next_is_nearest(rows, kind, from + 1, at);
    }
}

proof fn lemma_prev_is_nearest(rows: Seq<RowView>, kind: RowKind, n: nat, at: nat)
    requires
        rows.len() <= usize::MAX,
        at < n <= rows.len(),
        rows[at as int].kind == kind,
    ensures
        prev_of(rows, kind, n) matches Some(i) && at <= i < n,
    decreases n,
{
    if at < n - 1 && rows[n - 1].kind != kind {
        lemma_prev_is_nearest(rows, kind, (n - 1) as nat, at);
    }
}

/// Opening a file puts the cursor on its banner, and the tree's cursor on its row where the tree
/// has one; nothing else changes.
pub proof fn lemma_opening_a_file_goes_to_its_banner(view: DiffView, file: usize, at: int)
    requires
        0 <= at < view.rows@.len(),
        view.rows@[at].kind == RowKind::FileHeader,
        view.rows@[at].file == file,
    ensures
        ({
            let after = view.at_file(file);
            &&& after.cursor <= at
            &&& after.rows == view.rows
            &&& after.rows@[after.cursor as int].kind == RowKind::FileHeader
            &&& after.rows@[after.cursor as int].file == file
            &&& after.tree == view.tree
            &&& after.folded_hunks == view.folded_hunks
            &&& after.tree_cursor == view.tree_cursor || (after.tree_cursor < view.tree@.len()
                && view.tree@[after.tree_cursor as int]@.kind == (KindView::File { index: file }))
            &&& (exists|k: int|
                0 <= k < view.tree@.len() && (#[trigger] view.tree@[k])@.kind == (KindView::File {
                    index: file,
                })) ==> after.tree_cursor < view.tree@.len()
                && view.tree@[after.tree_cursor as int]@.kind == (KindView::File { index: file })
        }),
{
    let rows = row_views(view.rows@);
    let tree = tree_views(view.tree@);
    assert(view.rows.len() == view.rows@.len());
    assert(view.tree.len() == view.tree@.len());
    lemma_first_row(rows, is_banner_of(file), rows.len());
    lemma_tree_place(tree, file, tree.len());
    assert(rows[at] == view.rows@[at]@);
    assert(is_banner_of(file)(rows[at]));
    let found = view.banner_row(file)->0;
    assert(rows[found as int] == view.rows@[found as int]@);
    match tree_place(tree, file, tree.len()) {
        Some(i) => {
            assert(tree[i as int] == view.tree@[i as int]@);
        },
        None => {
            assert forall|k: int| 0 <= k < view.tree@.len() implies (#[trigger] view.tree@[k])@.kind
                != (KindView::File { index: file }) by {
                assert(tree[k] == view.tree@[k]@);
            }
        },
    }
}

/// The tree's cursor follows the current file into another order, wherever the file stands there.
pub proof fn lemma_another_order_keeps_the_current_file(
    view: DiffView,
    tree: Seq<TreeView>,
    file: usize,
    at: int,
)
    requires
        tree.len() <= usize::MAX,
        0 <= at < tree.len(),
        tree[at].kind == (KindView::File { index: file }),
    ensures
        view.tree_cursor_on(tree, Some(file)) < tree.len(),
        tree[view.tree_cursor_on(tree, Some(file)) as int].kind == (KindView::File { index: file }),
{
    lemma_tree_place(tree, file, tree.len());
}

/// Folding changes the hunk under the cursor and no other; on a banner it folds all hunks of the
/// file unless all of them were folded, and then unfolds all, and no hunk of another file changes.
pub proof fn lemma_folding_changes_what_is_under_the_cursor(view: DiffView, after: DiffView, key: (usize, usize))
    requires
        view.toggled(&after),
        view.cursor < view.rows@.len(),
    ensures
        ({
            let row = view.rows@[view.cursor as int];
            &&& key.0 != row.file ==> after.folded_hunks@.contains(key) == view.folded_hunks@.contains(key)
            &&& row.hunk is Some && key.0 == row.file ==> (after.folded_hunks@.contains(key)
                != view.folded_hunks@.contains(key)) == (key.1 == row.hunk->0)
            &&& row.hunk is None && key.0 == row.file && key.1 < view.hunk_count(row.file)
                && !view.folded_hunks@.contains(key) ==> after.folded_hunks@.contains(key)
            &&& row.hunk is None && view.all_folded(row.file) && key.0 == row.file && key.1
                < view.hunk_count(row.file) ==> !after.folded_hunks@.contains(key)
            &&& row.hunk is None && !view.all_folded(row.file) ==> after.all_folded(row.file)
            &&& after.patch == view.patch
            &&& after.comments == view.comments
            &&& after.folded_dirs == view.folded_dirs
        }),
{
    let row = view.rows@[view.cursor as int];
    assert(after.folded_hunks@.contains(key) == view.folded_after_toggle(key));
    if row.hunk is None && key.0 == row.file && key.1 < view.hunk_count(row.file)
        && !view.folded_hunks@.contains(key) {
        assert(!view.folded_hunks@.contains((row.file, key.1)));
    }
    if row.hunk is None && !view.all_folded(row.file) {
        assert forall|hunk: usize| hunk < after.hunk_count(row.file) implies #[trigger] after.folded_hunks@.contains(
            (row.file, hunk),
        ) by {
            assert(view.folded_after_toggle((row.file, hunk)));
        }
    }
}

/// Activating a directory or a group turns its own fold over, and no other.
pub proof fn lemma_a_fold_in_the_tree_is_turned_over(view: DiffView, name: Seq<char>, folded: bool, other: Seq<char>)
    ensures
        view.dirs_after(name, folded).contains(name) == !folded,
        other != name ==> view.dirs_after(name, folded).contains(other) == views(
            view.folded_dirs@,
        ).contains(other),
{
    let names = views(view.folded_dirs@);
    lemma_leaving_out(names, name, names.len(), other);
    assert(names.subrange(0, names.len() as int) =~= names);
    if !folded && !names.contains(name) {
        let more = names.push(name);
        assert(more[names.len() as int] == name);
        if names.contains(other) {
            let k = choose|k: int| 0 <= k < names.len() && names[k] == other;
            assert(more[k] == other);
        }
        if other != name && more.contains(other) {
            let k = choose|k: int| 0 <= k < more.len() && more[k] == other;
            assert(names[k] == other);
        }
    }
}

/// A page is as many rows as are seen, and half a page is half of them; either moves by a row at
/// least.
pub proof fn lemma_a_page_is_what_is_seen(view: DiffView)
    ensures
        view.page_step(false) >= 1,
        view.page_step(true) >= 1,
        view.viewport > 0 ==> view.page_step(false) == view.viewport,
        view.viewport > 1 ==> 2 * view.page_step(true) <= view.viewport < 2 * view.page_step(true) + 2,
{
}

/// The paths are those of the files that have one, in the patch's order: the path of an earlier
/// file comes before that of a later one, and no path comes from elsewhere.
pub proof fn lemma_paths_are_in_the_patchs_order(patch: PatchView, n: nat, a: int, b: int)
    requires
        n <= patch.files.len(),
        0 <= a < b < n,
        patch.files[a].path is Some,
        patch.files[b].path is Some,
    ensures
        in_turn(paths_of(patch, n), seq![patch.files[a].path->0], seq![patch.files[b].path->0]),
        paths_of(patch, n).len() <= n,
{
    let upto = |m: nat| paths_of(patch, m);
    let block = |k: nat|
        match patch.files[k as int].path {
            Some(path) => seq![path],
            None => Seq::empty(),
        };
    assert forall|k: nat| k < n implies #[trigger] goes_on(upto, block, k) by {
        assert(upto(k + 1) =~= upto(k) + block(k));
    }
    lemma_listed_in_turn(upto, block, n, a as nat, b as nat);
    lemma_paths_fit(patch, n);
}

proof fn lemma_paths_fit(patch: PatchView, n: nat)
    ensures
        paths_of(patch, n).len() <= n,
    decreases n,
{
    if n > 0 {
        lemma_paths_fit(patch, (n - 1) as nat);
    }
}

/// Activating a row of the tree does what the row stands for: a file is opened at its banner and the diff
/// gets the focus, a directory or a group is folded or unfolded and the diff stays where it is, and a
/// reason does nothing.
pub proof fn lemma_activating_does_what_the_row_stands_for(view: DiffView, after: DiffView, at: int)
    requires
        view.activated(&after),
        view.tree_cursor < view.tree@.len(),
    ensures
        ({
            let kind = view.tree@[view.tree_cursor as int]@.kind;
            &&& kind is File && 0 <= at < view.rows@.len() && view.rows@[at].kind == RowKind::FileHeader
                && view.rows@[at].file == kind->File_index ==> {
                &&& !after.tree_focused
                &&& after.rows@[after.cursor as int].kind == RowKind::FileHeader
                &&& after.rows@[after.cursor as int].file == kind->File_index
                &&& after.folded_dirs == view.folded_dirs
            }
            &&& kind is Directory ==> views(after.folded_dirs@).contains(kind->path)
                == !kind->Directory_folded && after.folded_hunks == view.folded_hunks
            &&& kind is Group ==> views(after.folded_dirs@).contains(kind->name) == !kind->Group_folded
                && after.rows == view.rows && after.cursor == view.cursor
            &&& kind is Rationale ==> after == view
            &&& after.patch == view.patch
            &&& after.order == view.order
            &&& after.plan == view.plan
        }),
{
    let row = view.tree@[view.tree_cursor as int];
    match row.kind {
        TreeKind::File { index } => {
            let plain = DiffView { tree_focused: false, ..view };
            if 0 <= at < view.rows@.len() && view.rows@[at].kind == RowKind::FileHeader
                && view.rows@[at].file == index {
                lemma_opening_a_file_goes_to_its_banner(plain, index, at);
            }
        },
        TreeKind::Directory { path, folded, .. } => {
            lemma_a_fold_in_the_tree_is_turned_over(view, path@, folded, path@);
        },
        TreeKind::Group { name, folded, .. } => {
            lemma_a_fold_in_the_tree_is_turned_over(view, name@, folded, name@);
        },
        TreeKind::Rationale { .. } => {},
    }
}

} // verus!
