//! The side-by-side view: the flattened rows paired into an old side and a new side.

use vstd::prelude::*;

use crate::patch::{DiffLine, LineKind, LineView};
use crate::rows::{row_views, DiffRow, RowKind, RowView};

verus! {

/// A row of the side-by-side view.
#[derive(Debug, PartialEq, Eq)]
pub struct SplitRow {
    /// Set when the row spans the full width: file banners, hunk headers, placeholders, folded
    /// summaries and discussions.
    pub full: Option<DiffRow>,
    /// The old side, when this row has one.
    pub left: Option<DiffLine>,
    /// The new side, when this row has one.
    pub right: Option<DiffLine>,
    /// The file the row belongs to.
    pub file: usize,
    /// The first unified row this row covers, so the cursor and the split view stay about the same
    /// thing.
    pub unified: usize,
}

/// What a [`SplitRow`] says.
pub struct SplitView {
    pub full: Option<RowView>,
    pub left: Option<LineView>,
    pub right: Option<LineView>,
    pub file: usize,
    pub unified: usize,
}

/// What an optional line says.
pub open spec fn opt_line(line: Option<DiffLine>) -> Option<LineView> {
    match line {
        Some(line) => Some(line@),
        None => None,
    }
}

impl View for SplitRow {
    type V = SplitView;

    open spec fn view(&self) -> SplitView {
        SplitView {
            full: match self.full {
                Some(row) => Some(row@),
                None => None,
            },
            left: opt_line(self.left),
            right: opt_line(self.right),
            file: self.file,
            unified: self.unified,
        }
    }
}

impl Clone for SplitRow {
    fn clone(&self) -> (r: Self)
        ensures
            r == *self,
    {
        SplitRow {
            full: match &self.full {
                Some(row) => Some(row.clone()),
                None => None,
            },
            left: match &self.left {
                Some(line) => Some(line.clone()),
                None => None,
            },
            right: match &self.right {
                Some(line) => Some(line.clone()),
                None => None,
            },
            file: self.file,
            unified: self.unified,
        }
    }
}

impl SplitRow {
    /// Whether `cursor` is on one of the unified rows from this row's first up to the next
    /// split row's first.
    #[must_use]
    pub fn covers(&self, cursor: usize, next_unified: usize) -> (r: bool)
        ensures
            r == (self.unified <= cursor < next_unified),
    {
        cursor >= self.unified && cursor < next_unified
    }
}

/// The rows' contents, one by one.
pub open spec fn split_views(rows: Seq<SplitRow>) -> Seq<SplitView> {
    rows.map_values(|r: SplitRow| r@)
}

/// Adding a row adds its contents at the end.
pub broadcast proof fn lemma_split_views_push(rows: Seq<SplitRow>, row: SplitRow)
    ensures
        #[trigger] split_views(rows.push(row)) == split_views(rows).push(row@),
{
    assert(split_views(rows.push(row)) =~= split_views(rows).push(row@));
}

/// The line a flattened row came from.
pub open spec fn line_of_row(row: RowView) -> LineView {
    LineView {
        kind: match row.line_kind {
            Some(kind) => kind,
            None => LineKind::Context,
        },
        old_line: row.old_line,
        new_line: row.new_line,
        content: row.text,
        no_newline: row.no_newline,
    }
}

/// Turns a flattened row back into the line it came from.
pub fn as_line(row: &DiffRow) -> (r: DiffLine)
    ensures
        r@ == line_of_row(row@),
{
    DiffLine {
        kind: match row.line_kind {
            Some(kind) => kind,
            None => LineKind::Context,
        },
        old_line: row.old_line,
        new_line: row.new_line,
        content: row.text.clone(),
        no_newline: row.no_newline,
    }
}

/// How many rows from `p` on are lines of the given kind.
pub open spec fn run_len(rows: Seq<RowView>, p: nat, kind: LineKind) -> nat
    decreases rows.len() - p,
{
    if p < rows.len() && rows[p as int].line_kind == Some(kind) {
        1 + run_len(rows, p + 1, kind)
    } else {
        0
    }
}

proof fn lemma_run_len(rows: Seq<RowView>, p: nat, kind: LineKind)
    ensures
        p <= rows.len() ==> p + run_len(rows, p, kind) <= rows.len(),
    decreases rows.len() - p,
{
    if p < rows.len() && rows[p as int].line_kind == Some(kind) {
        lemma_run_len(rows, p + 1, kind);
    }
}

/// How many deletions begin at `p`.
pub open spec fn dels(rows: Seq<RowView>, p: nat) -> nat {
    run_len(rows, p, LineKind::Delete)
}

/// How many additions follow the deletions that begin at `p`.
pub open spec fn adds(rows: Seq<RowView>, p: nat) -> nat {
    run_len(rows, p + dels(rows, p), LineKind::Add)
}

/// How many unified rows the group that begins at `p` takes.
pub open spec fn group_len(rows: Seq<RowView>, p: nat) -> nat {
    if rows[p as int].kind != RowKind::Line || dels(rows, p) + adds(rows, p) == 0 {
        1
    } else {
        dels(rows, p) + adds(rows, p)
    }
}

/// The split rows of the group that begins at `p`.
///
/// A row that is no line spans the width. A context line has both sides. A run of deletions is
/// matched, index by index, against the run of additions that follows it; an unbalanced run
/// leaves one side empty.
pub open spec fn group_rows(rows: Seq<RowView>, p: nat) -> Seq<SplitView> {
    let row = rows[p as int];
    let d = dels(rows, p);
    let a = adds(rows, p);
    if row.kind != RowKind::Line {
        seq![
            SplitView { full: Some(row), left: None, right: None, file: row.file, unified: p as usize },
        ]
    } else if d + a == 0 {
        seq![
            SplitView {
                full: None,
                left: Some(line_of_row(row)),
                right: Some(line_of_row(row)),
                file: row.file,
                unified: p as usize,
            },
        ]
    } else {
        Seq::new(
            if d < a { a } else { d },
            |slot: int|
                SplitView {
                    full: None,
                    left: if slot < d { Some(line_of_row(rows[p + slot])) } else { None },
                    right: if slot < a { Some(line_of_row(rows[p + d + slot])) } else { None },
                    file: row.file,
                    unified: (if slot < d { p + slot } else { p + d + slot }) as usize,
                },
        )
    }
}

/// The split rows of the unified rows from `p` on.
pub open spec fn paired(rows: Seq<RowView>, p: nat) -> Seq<SplitView>
    decreases rows.len() - p,
    via paired_decreases
{
    if p < rows.len() {
        group_rows(rows, p) + paired(rows, p + group_len(rows, p))
    } else {
        Seq::empty()
    }
}

#[via_fn]
proof fn paired_decreases(rows: Seq<RowView>, p: nat) {
    lemma_run_len(rows, p, LineKind::Delete);
    lemma_run_len(rows, p + dels(rows, p), LineKind::Add);
}

/// For each unified row of the group that begins at `p`, the split row that shows it, when the
/// group's first split row is at `base`: deletion and addition `i` of a run stand in its row `i`.
pub open spec fn group_index(rows: Seq<RowView>, p: nat, base: nat) -> Seq<usize> {
    let d = dels(rows, p);
    Seq::new(group_len(rows, p), |i: int| (base + if i < d { i } else { i - d }) as usize)
}

/// For each unified row from `p` on, the split row that shows it, when the group at `p` begins at
/// split row `base`.
pub open spec fn paired_index(rows: Seq<RowView>, p: nat, base: nat) -> Seq<usize>
    decreases rows.len() - p,
    via paired_index_decreases
{
    if p < rows.len() {
        group_index(rows, p, base) + paired_index(
            rows,
            p + group_len(rows, p),
            base + group_rows(rows, p).len(),
        )
    } else {
        Seq::empty()
    }
}

#[via_fn]
proof fn paired_index_decreases(rows: Seq<RowView>, p: nat, base: nat) {
    lemma_run_len(rows, p, LineKind::Delete);
    lemma_run_len(rows, p + dels(rows, p), LineKind::Add);
}

/// Whether a split row shows a line of the unified view on the side it belongs to: a deletion on
/// the old side, an addition on the new, and anything else on both.
pub open spec fn shows_line(split: SplitView, row: RowView) -> bool {
    let line = line_of_row(row);
    match line.kind {
        LineKind::Delete => split.left == Some(line),
        LineKind::Add => split.right == Some(line),
        LineKind::Context => split.left == Some(line) && split.right == Some(line),
    }
}

/// Whether a split row shows a unified row: over the full width, or as a line on the side it
/// belongs to.
pub open spec fn shows_row(split: SplitView, row: RowView) -> bool {
    split.full == Some(row) || (split.full is None && shows_line(split, row))
}

proof fn lemma_run_kind(rows: Seq<RowView>, p: nat, kind: LineKind, i: nat)
    requires
        i < run_len(rows, p, kind),
    ensures
        p + i < rows.len(),
        rows[(p + i) as int].line_kind == Some(kind),
    decreases i,
{
    if i > 0 {
        lemma_run_kind(rows, p + 1, kind, (i - 1) as nat);
    }
}

proof fn lemma_group_index(rows: Seq<RowView>, p: nat, base: nat, q: int)
    requires
        p < rows.len(),
        0 <= q < group_len(rows, p),
        base + group_rows(rows, p).len() <= usize::MAX,
    ensures
        ({
            let at = group_index(rows, p, base)[q];
            let split = group_rows(rows, p)[at - base];
            &&& base <= at < base + group_rows(rows, p).len()
            &&& p + q < rows.len()
            &&& shows_row(split, rows[p + q])
            &&& rows.len() <= usize::MAX ==> p <= split.unified <= p + q
        }),
{
    let d = dels(rows, p);
    let a = adds(rows, p);
    lemma_run_len(rows, p, LineKind::Delete);
    lemma_run_len(rows, p + d, LineKind::Add);
    if rows[p as int].kind == RowKind::Line && d + a > 0 {
        if q < d {
            lemma_run_kind(rows, p, LineKind::Delete, q as nat);
        } else {
            lemma_run_kind(rows, p + d, LineKind::Add, (q - d) as nat);
            assert(rows[p + d + (q - d)] == rows[p + q]);
        }
    } else {
        assert(q == 0);
        if rows[p as int].kind == RowKind::Line {
            assert(line_of_row(rows[p as int]).kind == LineKind::Context) by {
                if rows[p as int].line_kind == Some(LineKind::Delete) {
                    assert(run_len(rows, p, LineKind::Delete) > 0);
                }
                if rows[p as int].line_kind == Some(LineKind::Add) {
                    assert(run_len(rows, p, LineKind::Delete) == 0);
                    assert(run_len(rows, p, LineKind::Add) > 0);
                }
            }
        }
    }
}

proof fn lemma_paired_index(rows: Seq<RowView>, p: nat, base: nat)
    requires
        p <= rows.len(),
        base + paired(rows, p).len() <= usize::MAX,
    ensures
        paired_index(rows, p, base).len() == rows.len() - p,
        forall|q: int|
            0 <= q < rows.len() - p ==> {
                let at = #[trigger] paired_index(rows, p, base)[q];
                &&& base <= at < base + paired(rows, p).len()
                &&& shows_row(paired(rows, p)[at - base], rows[p + q])
                &&& rows.len() <= usize::MAX ==> p <= paired(rows, p)[at - base].unified <= p + q
            },
    decreases rows.len() - p,
{
    if p < rows.len() {
        let n = group_len(rows, p);
        let head = group_rows(rows, p);
        lemma_run_len(rows, p, LineKind::Delete);
        lemma_run_len(rows, p + dels(rows, p), LineKind::Add);
        lemma_paired_index(rows, p + n, base + head.len());
        let tail = paired(rows, p + n);
        let rest = paired_index(rows, p + n, base + head.len());
        assert forall|q: int| 0 <= q < rows.len() - p implies {
            let at = #[trigger] paired_index(rows, p, base)[q];
            &&& base <= at < base + paired(rows, p).len()
            &&& shows_row(paired(rows, p)[at - base], rows[p + q])
            &&& rows.len() <= usize::MAX ==> p <= paired(rows, p)[at - base].unified <= p + q
        } by {
            if q < n {
                lemma_group_index(rows, p, base, q);
                let at = group_index(rows, p, base)[q];
                assert(paired_index(rows, p, base)[q] == at);
                assert(paired(rows, p)[at - base] == head[at - base]);
            } else {
                let at = rest[q - n];
                assert(paired_index(rows, p, base)[q] == at);
                assert(paired(rows, p)[at - base] == tail[at - base - head.len()]);
                assert(rows[(p + n) + (q - n)] == rows[p + q]);
            }
        }
    }
}

fn push_run(
    split: &mut Vec<SplitRow>,
    rows: &Vec<DiffRow>,
    start: usize,
    d: usize,
    a: usize,
)
    requires
        start + d + a <= rows@.len(),
        d == dels(row_views(rows@), start as nat),
        a == adds(row_views(rows@), start as nat),
        d + a > 0,
        rows@[start as int].kind == RowKind::Line,
    ensures
        split_views(final(split)@) == split_views(old(split)@) + group_rows(
            row_views(rows@),
            start as nat,
        ),
{
    broadcast use lemma_split_views_push;
    let ghost all = row_views(rows@);
    let ghost before = split_views(split@);
    let ghost wanted = group_rows(all, start as nat);
    let total: usize = rows.len();
    let count: usize = if d < a { a } else { d };
    let mut slot: usize = 0;
    assert(before + wanted.subrange(0, 0) =~= before);
    while slot < count
        invariant
            slot <= count,
            count == if d < a { a } else { d },
            start + d + a <= total,
            total == rows@.len(),
            d + a > 0,
            all == row_views(rows@),
            d == dels(all, start as nat),
            a == adds(all, start as nat),
            rows@[start as int].kind == RowKind::Line,
            wanted == group_rows(all, start as nat),
            split_views(split@) == before + wanted.subrange(0, slot as int),
        decreases count - slot,
    {
        let left: Option<DiffLine> = if slot < d { Some(as_line(&rows[start + slot])) } else { None };
        let right: Option<DiffLine> = if slot < a {
            Some(as_line(&rows[start + d + slot]))
        } else {
            None
        };
        proof {
            assert(all[start as int] == rows@[start as int]@);
            if slot < d {
                assert(all[start + slot] == rows@[start + slot]@);
            }
            if slot < a {
                assert(all[start + d + slot] == rows@[start + d + slot]@);
            }
        }
        let first: usize = if slot < d { start + slot } else { start + d + slot };
        let row = SplitRow { full: None, left, right, file: rows[start].file, unified: first };
        assert(row@ == wanted[slot as int]);
        split.push(row);
        slot += 1;
        assert(before + wanted.subrange(0, slot as int) =~= (before + wanted.subrange(
            0,
            slot - 1,
        )).push(wanted[slot - 1]));
    }
    assert(all[start as int] == rows@[start as int]@);
    assert(wanted.subrange(0, slot as int) =~= wanted);
}

/// Pairs the flattened rows for the side-by-side view.
///
/// Returns the rows and, for each unified row, the split row that shows it.
pub fn build_split(rows: &Vec<DiffRow>) -> (r: (Vec<SplitRow>, Vec<usize>))
    ensures
        split_views(r.0@) == paired(row_views(rows@), 0),
        r.1@ == paired_index(row_views(rows@), 0, 0),
        r.1@.len() == rows@.len(),
        forall|q: int|
            0 <= q < rows@.len() ==> {
                &&& (#[trigger] r.1@[q]) < r.0@.len()
                &&& r.0@[r.1@[q] as int].unified <= q
                &&& shows_row(r.0@[r.1@[q] as int]@, rows@[q]@)
            },
{
    broadcast use lemma_split_views_push;
    let ghost all = row_views(rows@);
    let mut split: Vec<SplitRow> = Vec::new();
    let mut index: Vec<usize> = Vec::new();
    let mut position: usize = 0;
    assert(split_views(split@) + paired(all, 0) =~= paired(all, 0));
    assert(index@ + paired_index(all, 0, 0) =~= paired_index(all, 0, 0));
    while position < rows.len()
        invariant
            position <= rows@.len(),
            split@.len() <= position,
            all == row_views(rows@),
            split_views(split@) + paired(all, position as nat) == paired(all, 0),
            index@ + paired_index(all, position as nat, split@.len()) == paired_index(all, 0, 0),
        decreases rows@.len() - position,
    {
        let row: &DiffRow = &rows[position];
        let ghost p = position as nat;
        let ghost before = split_views(split@);
        let ghost base = split@.len();
        let ghost listed = index@;
        assert(all[p as int] == row@);
        if row.kind != RowKind::Line {
            index.push(split.len());
            split.push(
                SplitRow {
                    full: Some(row.clone()),
                    left: None,
                    right: None,
                    file: row.file,
                    unified: position,
                },
            );
            position += 1;
            proof {
                assert(split_views(split@) =~= before + group_rows(all, p));
            }
        } else {
            let start: usize = position;
            while position < rows.len() && rows[position].line_kind == Some(LineKind::Delete)
                invariant
                    start <= position <= rows@.len(),
                    start == p,
                    all == row_views(rows@),
                    base == split@.len() <= start,
                    index@ == listed + Seq::new((position - start) as nat, |i: int| (base + i) as usize),
                    dels(all, p) == position - start + run_len(all, position as nat, LineKind::Delete),
                decreases rows@.len() - position,
            {
                assert(all[position as int] == rows@[position as int]@);
                index.push(split.len() + (position - start));
                position += 1;
                assert(index@ =~= listed + Seq::new(
                    (position - start) as nat,
                    |i: int| (base + i) as usize,
                ));
            }
            proof {
                if position < rows@.len() {
                    assert(all[position as int] == rows@[position as int]@);
                }
            }
            let d: usize = position - start;
            assert(index@ =~= listed + Seq::new(
                (position - start) as nat,
                |i: int| (base + if i < d { i } else { i - d }) as usize,
            ));
            while position < rows.len() && rows[position].line_kind == Some(LineKind::Add)
                invariant
                    start + d <= position <= rows@.len(),
                    start == p,
                    d == dels(all, p),
                    all == row_views(rows@),
                    base == split@.len() <= start,
                    index@ == listed + Seq::new(
                        (position - start) as nat,
                        |i: int| (base + if i < d { i } else { i - d }) as usize,
                    ),
                    adds(all, p) == position - start - d + run_len(all, position as nat, LineKind::Add),
                decreases rows@.len() - position,
            {
                assert(all[position as int] == rows@[position as int]@);
                index.push(split.len() + (position - start - d));
                position += 1;
                assert(index@ =~= listed + Seq::new(
                    (position - start) as nat,
                    |i: int| (base + if i < d { i } else { i - d }) as usize,
                ));
            }
            proof {
                if position < rows@.len() {
                    assert(all[position as int] == rows@[position as int]@);
                }
            }
            let a: usize = position - start - d;
            if d == 0 && a == 0 {
                let line = as_line(row);
                index.push(split.len());
                split.push(
                    SplitRow {
                        full: None,
                        left: Some(line.clone()),
                        right: Some(line),
                        file: row.file,
                        unified: position,
                    },
                );
                position += 1;
                assert(split_views(split@) =~= before + group_rows(all, p));
            } else {
                push_run(&mut split, rows, start, d, a);
            }
        }
        proof {
            let n = group_len(all, p);
            assert(position == p + n);
            assert(index@ =~= listed + group_index(all, p, base));
            assert(split_views(split@) == before + group_rows(all, p));
            assert(split@.len() == base + group_rows(all, p).len()) by {
                assert(split_views(split@).len() == split@.len());
                assert(before.len() == base);
            }
            assert(before + group_rows(all, p) + paired(all, p + n) =~= before + (group_rows(all, p)
                + paired(all, p + n)));
            let rest = paired_index(all, p + n, base + group_rows(all, p).len());
            assert(listed + group_index(all, p, base) + rest =~= listed + (group_index(all, p, base)
                + rest));
        }
    }
    let shown: usize = split.len();
    proof {
        assert(shown == split@.len());
        assert(split_views(split@) =~= paired(all, 0));
        assert(index@ =~= paired_index(all, 0, 0));
        assert(split_views(split@).len() == split@.len());
        lemma_paired_index(all, 0, 0);
        assert forall|q: int| 0 <= q < rows@.len() implies {
            &&& (#[trigger] index@[q]) < split@.len()
            &&& split@[index@[q] as int].unified <= q
            &&& shows_row(split@[index@[q] as int]@, rows@[q]@)
        } by {
            let at = paired_index(all, 0, 0)[q];
            assert(split_views(split@)[at as int] == split@[at as int]@);
            assert(all[q] == rows@[q]@);
        }
    }
    (split, index)
}

proof fn lemma_first_covered_from(rows: Seq<RowView>, p: nat, i: int)
    requires
        p <= rows.len() <= usize::MAX,
        0 <= i < paired(rows, p).len(),
    ensures
        p <= paired(rows, p)[i].unified < rows.len(),
        shows_row(paired(rows, p)[i], rows[paired(rows, p)[i].unified as int]),
    decreases rows.len() - p,
{
    let head = group_rows(rows, p);
    let n = group_len(rows, p);
    let d = dels(rows, p);
    lemma_run_len(rows, p, LineKind::Delete);
    lemma_run_len(rows, p + d, LineKind::Add);
    if i < head.len() {
        assert(paired(rows, p)[i] == head[i]);
        let q: int = if i < d { i } else if n == 1 { 0 } else { d + i };
        lemma_group_index(rows, p, 0, q);
    } else {
        lemma_first_covered_from(rows, p + n, i - head.len());
        assert(paired(rows, p)[i] == paired(rows, p + n)[i - head.len()]);
    }
}

/// The first unified row that a split row is said to cover is one that it shows.
pub proof fn lemma_a_split_row_shows_the_row_it_covers_first(rows: Seq<RowView>, i: int)
    requires
        rows.len() <= usize::MAX,
        0 <= i < paired(rows, 0).len(),
    ensures
        paired(rows, 0)[i].unified < rows.len(),
        shows_row(paired(rows, 0)[i], rows[paired(rows, 0)[i].unified as int]),
{
    lemma_first_covered_from(rows, 0, i);
}

proof fn lemma_shown_from(rows: Seq<RowView>, p: nat, q: nat) -> (i: int)
    requires
        p <= q < rows.len(),
        rows[q as int].kind == RowKind::Line,
        forall|k: int|
            0 <= k < rows.len() && (#[trigger] rows[k]).line_kind is Some ==> rows[k].kind
                == RowKind::Line,
    ensures
        0 <= i < paired(rows, p).len(),
        shows_line(paired(rows, p)[i], rows[q as int]),
    decreases rows.len() - p,
{
    let n = group_len(rows, p);
    let head = group_rows(rows, p);
    let d = dels(rows, p);
    let a = adds(rows, p);
    lemma_run_len(rows, p, LineKind::Delete);
    lemma_run_len(rows, p + d, LineKind::Add);
    if q < p + n {
        if rows[p as int].kind == RowKind::Line && d + a > 0 {
            let slot = if q < p + d { (q - p) as int } else { q - p - d };
            if q < p + d {
                lemma_run_kind(rows, p, LineKind::Delete, (q - p) as nat);
            } else {
                lemma_run_kind(rows, p + d, LineKind::Add, (q - p - d) as nat);
            }
            assert(paired(rows, p)[slot] == head[slot]);
            slot
        } else {
            assert(q == p);
            assert(paired(rows, p)[0] == head[0]);
            assert(line_of_row(rows[p as int]).kind == LineKind::Context) by {
                if rows[p as int].line_kind == Some(LineKind::Delete) {
                    assert(run_len(rows, p, LineKind::Delete) > 0);
                }
                if rows[p as int].line_kind == Some(LineKind::Add) {
                    assert(run_len(rows, p, LineKind::Delete) == 0);
                    assert(run_len(rows, p, LineKind::Add) > 0);
                }
            }
            0
        }
    } else {
        let i = lemma_shown_from(rows, p + n, q);
        assert(paired(rows, p)[head.len() + i] == paired(rows, p + n)[i]);
        head.len() + i
    }
}

/// The side-by-side view shows every line of the unified one, on the side it belongs to.
pub proof fn lemma_every_line_is_shown_beside(rows: Seq<RowView>, q: nat)
    requires
        q < rows.len(),
        rows[q as int].kind == RowKind::Line,
        forall|k: int|
            0 <= k < rows.len() && (#[trigger] rows[k]).line_kind is Some ==> rows[k].kind
                == RowKind::Line,
    ensures
        exists|i: int|
            0 <= i < paired(rows, 0).len() && shows_line(#[trigger] paired(rows, 0)[i], rows[q as int]),
{
    let i = lemma_shown_from(rows, 0, q);
}

proof fn lemma_run_of(rows: Seq<RowView>, p: nat, kind: LineKind, n: nat)
    requires
        p + n <= rows.len(),
        forall|k: int| p <= k < p + n ==> (#[trigger] rows[k]).line_kind == Some(kind),
        p + n < rows.len() ==> rows[(p + n) as int].line_kind != Some(kind),
    ensures
        run_len(rows, p, kind) == n,
    decreases n,
{
    if n > 0 {
        lemma_run_of(rows, p + 1, kind, (n - 1) as nat);
    }
}

/// A run of deletions stands beside the additions that follow it, the first beside the first and so
/// on; where one run is longer, the other side is empty beside the rest.
pub proof fn lemma_deletions_stand_beside_additions(rows: Seq<RowView>, p: nat, d: nat, a: nat, slot: int)
    requires
        d > 0,
        p + d + a <= rows.len(),
        rows[p as int].kind == RowKind::Line,
        forall|k: int| p <= k < p + d ==> (#[trigger] rows[k]).line_kind == Some(LineKind::Delete),
        forall|k: int| p + d <= k < p + d + a ==> (#[trigger] rows[k]).line_kind == Some(LineKind::Add),
        p + d < rows.len() ==> rows[(p + d) as int].line_kind != Some(LineKind::Delete),
        p + d + a < rows.len() ==> rows[(p + d + a) as int].line_kind != Some(LineKind::Add),
        0 <= slot,
        slot < d || slot < a,
    ensures
        ({
            let beside = paired(rows, p);
            &&& slot < beside.len()
            &&& beside[slot].full is None
            &&& slot < d ==> beside[slot].left == Some(line_of_row(rows[p + slot]))
            &&& slot >= d ==> beside[slot].left is None
            &&& slot < a ==> beside[slot].right == Some(line_of_row(rows[p + d + slot]))
            &&& slot >= a ==> beside[slot].right is None
        }),
{
    lemma_run_of(rows, p, LineKind::Delete, d);
    lemma_run_of(rows, p + d, LineKind::Add, a);
    let group = group_rows(rows, p);
    assert(paired(rows, p)[slot] == group[slot]);
}

/// A row that is no line spans the width, and a line that did not change stands on both sides.
pub proof fn lemma_other_rows_stand_alone(rows: Seq<RowView>, p: nat)
    requires
        p < rows.len(),
        rows[p as int].kind != RowKind::Line || rows[p as int].line_kind == Some(LineKind::Context),
    ensures
        paired(rows, p).len() == 1 + paired(rows, p + 1).len(),
        rows[p as int].kind != RowKind::Line ==> paired(rows, p)[0].full == Some(rows[p as int]),
        rows[p as int].kind == RowKind::Line ==> paired(rows, p)[0].full is None && paired(rows, p)[0].left
            == Some(line_of_row(rows[p as int])) && paired(rows, p)[0].right == Some(
            line_of_row(rows[p as int]),
        ),
        forall|k: int| 0 < k < paired(rows, p).len() ==> #[trigger] paired(rows, p)[k] == paired(rows, p + 1)[k - 1],
{
    if rows[p as int].kind == RowKind::Line {
        lemma_run_of(rows, p, LineKind::Delete, 0);
        lemma_run_of(rows, p, LineKind::Add, 0);
    }
}

} // verus!
